# voice-agent-server

A voice agent server for small devices: a device streams Opus audio over a WebSocket, the
server detects speech, transcribes it, asks a language model for a reply (which may call
tools on the device over MCP) and streams the spoken reply back as paced Opus packets.

## Layout

- `src/` is the verified library (Verus). Every function there carries a contract, and the
  properties that span several functions are stated and proved as `law_*` proof functions.
  - `protocol`, `transport`: the device protocol — hello handshake, listen/abort commands,
    WebSocket upgrade authentication, frame limits, the outbound generation gate.
  - `session`, `session_flow`: the session's decisions — which worker reports still count,
    how listen commands, typed text and audio frames are routed, capture-cycle resets,
    turn admission and teardown.
  - `dialogue`, `prompt`, `llm`: dialogue history with whole-exchange eviction, system
    prompt rendering, request size accounting, and the model stream vocabulary.
  - `text`, `speech_output`: turning streamed model text into speakable sentences (JSON
    command removal, sentence segmentation, sanitizing) and pacing encoded audio.
  - `tools`, `mcp`, `mcp_flow`: device tool discovery, the tool set offered to the model,
    JSON-RPC framing, tool batches and how their answers are delivered.
  - `audio`, `vad`, `retention`: capture framing, the speech segmenter, pre-roll retention.
  - `config`, `providers`, `registry`, `models`, `artifacts`: configuration rules, provider
    selection, model manifests, artifact transforms and integrity checks.
  - `unicode`: the Unicode character properties and string operations the rest relies on.
- `app/` is the program around it: configuration loading, model downloads, the HTTP and
  WebSocket server, Opus coding, resampling, speech synthesis and the OpenAI client.
- `tests/` exercises the library on concrete values.

Calls into outside crates that the library makes (Unicode normalization, JSON, SHA-256)
stand behind small trusted wrappers whose contracts are documented beside them.
