//! Verified core of a voice agent server: speech text shaping, dialogue
//! history, audio capture framing, protocol and configuration rules, and the
//! decisions of a voice session and of its device tool channel.

pub mod unicode;
pub mod text;
pub mod config;
pub mod audio;
pub mod providers;
pub mod models;
pub mod protocol;
pub mod session;
pub mod tools;
pub mod llm;
pub mod prompt;
pub mod dialogue;
pub mod speech_output;
pub mod artifacts;
pub mod transport;
pub mod mcp;
pub mod retention;
pub mod registry;
pub mod vad;
pub mod session_flow;
pub mod mcp_flow;
