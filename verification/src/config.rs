//! Server configuration: typed sections, their defaults and the startup validation rules.
use vstd::prelude::*;
use crate::providers::{
    ProviderKind, compiled_adapter_name, provider_label, provider_section, registered_adapter,
};
use crate::unicode::{concat_text, concat_views, is_blank, text_eq, trim, trim_start};

verus! {

pub fn default_hello_timeout_ms() -> (r: u64)
    ensures
        r == 5000,
{
    5000
}

pub fn default_input_rate() -> (r: u32)
    ensures
        r == 16000,
{
    16000
}

pub fn default_output_rate() -> (r: u32)
    ensures
        r == 24000,
{
    24000
}

pub fn default_channels() -> (r: u8)
    ensures
        r == 1,
{
    1
}

pub fn default_frame_ms() -> (r: u16)
    ensures
        r == 60,
{
    60
}

pub fn default_max_frame_bytes() -> (r: usize)
    ensures
        r == 65536,
{
    65536
}

pub fn default_max_utterance_ms() -> (r: u64)
    ensures
        r == 30000,
{
    30000
}

pub fn default_queue_capacity() -> (r: usize)
    ensures
        r == 32,
{
    32
}

pub fn default_max_active_turns() -> (r: usize)
    ensures
        r == 8,
{
    8
}

pub fn default_llm_concurrency() -> (r: usize)
    ensures
        r == 2,
{
    2
}

pub fn default_llm_timeout_ms() -> (r: u64)
    ensures
        r == 60000,
{
    60000
}

pub fn default_tts_concurrency() -> (r: usize)
    ensures
        r == 2,
{
    2
}

pub fn default_provider_threads() -> (r: i32)
    ensures
        r == 1,
{
    1
}

pub fn default_min_speech_ms() -> (r: u64)
    ensures
        r == 180,
{
    180
}

pub fn default_end_silence_ms() -> (r: u64)
    ensures
        r == 600,
{
    600
}

pub fn default_pre_roll_ms() -> (r: u64)
    ensures
        r == 300,
{
    300
}

pub fn default_vad_worker_count() -> (r: usize)
    ensures
        r == 4,
{
    4
}

pub fn default_asr_worker_count() -> (r: usize)
    ensures
        r == 2,
{
    2
}

pub fn default_asr_threads() -> (r: i32)
    ensures
        r == 2,
{
    2
}

pub fn default_worker_queue_capacity() -> (r: usize)
    ensures
        r == 32,
{
    32
}

pub fn default_asr_final_timeout_ms() -> (r: u64)
    ensures
        r == 15000,
{
    15000
}

pub fn default_vad_reset_timeout_ms() -> (r: u64)
    ensures
        r == 15000,
{
    15000
}

pub fn default_cleanup_grace_ms() -> (r: u64)
    ensures
        r == 5000,
{
    5000
}

pub fn default_max_history_messages() -> (r: usize)
    ensures
        r == 20,
{
    20
}

pub fn default_tts_timeout_ms() -> (r: u64)
    ensures
        r == 15000,
{
    15000
}

pub fn default_speech_min_chars() -> (r: usize)
    ensures
        r == 24,
{
    24
}

pub fn default_speech_soft_break_min_chars() -> (r: usize)
    ensures
        r == 48,
{
    48
}

pub fn default_speech_max_chars() -> (r: usize)
    ensures
        r == 160,
{
    160
}

pub fn default_pending_segments() -> (r: usize)
    ensures
        r == 8,
{
    8
}

pub fn default_vad_adapter() -> (r: String)
    ensures
        r@ == "silero_onnx"@,
{
    "silero_onnx".to_owned()
}

pub fn default_vad_model() -> (r: String)
    ensures
        r@ == "silero_vad_v5"@,
{
    "silero_vad_v5".to_owned()
}

pub fn default_asr_adapter() -> (r: String)
    ensures
        r@ == "zipformer_sherpa"@,
{
    "zipformer_sherpa".to_owned()
}

pub fn default_asr_model() -> (r: String)
    ensures
        r@ == "zipformer_vi_streaming"@,
{
    "zipformer_vi_streaming".to_owned()
}

pub fn default_llm_adapter() -> (r: String)
    ensures
        r@ == "openai"@,
{
    "openai".to_owned()
}

pub fn default_openai_model() -> (r: String)
    ensures
        r@ == "model-name"@,
{
    "model-name".to_owned()
}

pub fn default_tts_adapter() -> (r: String)
    ensures
        r@ == "zerotts_onnx"@,
{
    "zerotts_onnx".to_owned()
}

pub fn default_tts_model() -> (r: String)
    ensures
        r@ == "zerotts_default"@,
{
    "zerotts_default".to_owned()
}

pub fn default_tts_voice() -> (r: String)
    ensures
        r@ == "maichi"@,
{
    "maichi".to_owned()
}

pub fn default_decoding_method() -> (r: String)
    ensures
        r@ == "greedy_search"@,
{
    "greedy_search".to_owned()
}

pub fn default_manifest_path() -> (r: String)
    ensures
        r@ == "models/manifest.toml"@,
{
    "models/manifest.toml".to_owned()
}

pub fn default_models_root() -> (r: String)
    ensures
        r@ == "models"@,
{
    "models".to_owned()
}

pub fn default_onnx_runtime_library() -> (r: String)
    ensures
        r@ == "runtime/onnxruntime/libonnxruntime.dylib"@,
{
    "runtime/onnxruntime/libonnxruntime.dylib".to_owned()
}

/// A URL of the configuration, held as the parts its rules read.
#[derive(Clone, Debug, PartialEq, Eq)]
pub struct WebUrl {
    /// The scheme, lower-case, as `url::Url::scheme` gives it.
    pub scheme: String,
    /// The host, as `url::Url::host_str` gives it.
    pub host: Option<String>,
    /// The whole serialised URL.
    pub text: String,
}

/// The OpenAI-compatible endpoint used when none is configured.
pub fn default_openai_base_url() -> (r: WebUrl)
    ensures
        r.scheme@ == "https"@,
        r.host matches Some(h) && h@ == "api.openai.com"@,
        r.text@ == "https://api.openai.com/v1"@,
{
    WebUrl {
        scheme: "https".to_owned(),
        host: Some("api.openai.com".to_owned()),
        text: "https://api.openai.com/v1".to_owned(),
    }
}

/// A secret that is never printed.
#[derive(Clone, Default)]
pub struct SecretString(String);

impl SecretString {
    pub fn new(value: String) -> (s: Self)
        ensures
            s.spec_exposed() == value@,
    {
        SecretString(value)
    }

    pub closed spec fn spec_exposed(&self) -> Seq<char> {
        self.0@
    }

    pub fn expose(&self) -> (s: &str)
        ensures
            s@ == self.spec_exposed(),
    {
        self.0.as_str()
    }

    /// The text shown in place of the secret.
    pub fn redacted(&self) -> (s: String)
        ensures
            s@ == "[REDACTED]"@,
    {
        "[REDACTED]".to_owned()
    }
}

/// How synthesized speech is handed from the TTS engine to the session.
#[derive(Clone, Copy, Debug, PartialEq, Eq)]
pub enum ZeroTtsDeliveryMode {
    File,
    Stream,
}

impl Default for ZeroTtsDeliveryMode {
    fn default() -> (m: Self)
        ensures
            m == ZeroTtsDeliveryMode::Stream,
    {
        ZeroTtsDeliveryMode::Stream
    }
}

#[derive(Clone)]
pub struct OpenAiConfig {
    pub api_key: SecretString,
    pub base_url: WebUrl,
    pub model: String,
    pub timeout_ms: u64,
}

/// The shipped OpenAI options: no key, the public endpoint, model `model-name` and a
/// 60 s timeout.
pub open spec fn is_default_openai(c: OpenAiConfig) -> bool {
    &&& c.api_key.spec_exposed() == Seq::<char>::empty()
    &&& c.base_url.scheme@ == "https"@
    &&& c.base_url.host matches Some(h) && h@ == "api.openai.com"@
    &&& c.base_url.text@ == "https://api.openai.com/v1"@
    &&& c.model@ == "model-name"@
    &&& c.timeout_ms == 60000
}

impl Default for OpenAiConfig {
    fn default() -> (c: Self)
        ensures
            is_default_openai(c),
    {
        OpenAiConfig {
            api_key: SecretString::new(String::new()),
            base_url: default_openai_base_url(),
            model: default_openai_model(),
            timeout_ms: default_llm_timeout_ms(),
        }
    }
}

#[derive(Clone)]
pub struct LlmProviderConfig {
    pub adapter: String,
    pub openai: Option<OpenAiConfig>,
}

/// The shipped LLM provider: the `openai` adapter with the default OpenAI options.
pub open spec fn is_default_llm_provider(c: LlmProviderConfig) -> bool {
    &&& c.adapter@ == "openai"@
    &&& c.openai matches Some(o) && is_default_openai(o)
}

impl Default for LlmProviderConfig {
    fn default() -> (c: Self)
        ensures
            is_default_llm_provider(c),
    {
        LlmProviderConfig { adapter: default_llm_adapter(), openai: Some(OpenAiConfig::default()) }
    }
}

#[derive(Clone, Debug)]
pub struct ZeroTtsOnnxConfig {
    pub model: String,
    pub num_threads: i32,
    pub voice: String,
    pub delivery_mode: ZeroTtsDeliveryMode,
}

/// The shipped ZeroTTS options: model `zerotts_default`, voice `maichi`, two threads and
/// streamed delivery.
pub open spec fn is_default_zerotts(c: ZeroTtsOnnxConfig) -> bool {
    &&& c.model@ == "zerotts_default"@
    &&& c.num_threads == 2
    &&& c.voice@ == "maichi"@
    &&& c.delivery_mode == ZeroTtsDeliveryMode::Stream
}

impl Default for ZeroTtsOnnxConfig {
    fn default() -> (c: Self)
        ensures
            is_default_zerotts(c),
    {
        ZeroTtsOnnxConfig {
            model: default_tts_model(),
            num_threads: default_asr_threads(),
            voice: default_tts_voice(),
            delivery_mode: ZeroTtsDeliveryMode::Stream,
        }
    }
}

#[derive(Clone, Debug)]
pub struct TtsProviderConfig {
    pub adapter: String,
    pub zerotts_onnx: Option<ZeroTtsOnnxConfig>,
}

/// The shipped TTS provider: the `zerotts_onnx` adapter with the default ZeroTTS options.
pub open spec fn is_default_tts_provider(c: TtsProviderConfig) -> bool {
    &&& c.adapter@ == "zerotts_onnx"@
    &&& c.zerotts_onnx matches Some(z) && is_default_zerotts(z)
}

impl Default for TtsProviderConfig {
    fn default() -> (c: Self)
        ensures
            is_default_tts_provider(c),
    {
        TtsProviderConfig {
            adapter: default_tts_adapter(),
            zerotts_onnx: Some(ZeroTtsOnnxConfig::default()),
        }
    }
}

/// Silero VAD options. The two probability thresholds are floating point and are held and
/// checked outside this crate.
#[derive(Clone, Debug)]
pub struct SileroOnnxConfig {
    pub model: String,
    pub num_threads: i32,
    pub min_speech_ms: u64,
    pub end_silence_ms: u64,
    pub pre_roll_ms: u64,
}

/// The shipped Silero options: model `silero_vad_v5`, one thread, 180 ms of speech,
/// 600 ms of silence and 300 ms of pre-roll.
pub open spec fn is_default_silero(c: SileroOnnxConfig) -> bool {
    &&& c.model@ == "silero_vad_v5"@
    &&& c.num_threads == 1
    &&& c.min_speech_ms == 180
    &&& c.end_silence_ms == 600
    &&& c.pre_roll_ms == 300
}

impl Default for SileroOnnxConfig {
    fn default() -> (c: Self)
        ensures
            is_default_silero(c),
    {
        SileroOnnxConfig {
            model: default_vad_model(),
            num_threads: default_provider_threads(),
            min_speech_ms: default_min_speech_ms(),
            end_silence_ms: default_end_silence_ms(),
            pre_roll_ms: default_pre_roll_ms(),
        }
    }
}

#[derive(Clone, Debug)]
pub struct VadProviderConfig {
    pub adapter: String,
    pub silero_onnx: Option<SileroOnnxConfig>,
}

/// The shipped VAD provider: the `silero_onnx` adapter with the default Silero options.
pub open spec fn is_default_vad_provider(c: VadProviderConfig) -> bool {
    &&& c.adapter@ == "silero_onnx"@
    &&& c.silero_onnx matches Some(v) && is_default_silero(v)
}

impl Default for VadProviderConfig {
    fn default() -> (c: Self)
        ensures
            is_default_vad_provider(c),
    {
        VadProviderConfig {
            adapter: default_vad_adapter(),
            silero_onnx: Some(SileroOnnxConfig::default()),
        }
    }
}

#[derive(Clone, Debug)]
pub struct ZipformerSherpaConfig {
    pub model: String,
    pub num_threads: i32,
    pub decoding_method: String,
}

/// The shipped Zipformer options: model `zipformer_vi_streaming`, two threads, greedy search.
pub open spec fn is_default_zipformer(c: ZipformerSherpaConfig) -> bool {
    &&& c.model@ == "zipformer_vi_streaming"@
    &&& c.num_threads == 2
    &&& c.decoding_method@ == "greedy_search"@
}

impl Default for ZipformerSherpaConfig {
    fn default() -> (c: Self)
        ensures
            is_default_zipformer(c),
    {
        ZipformerSherpaConfig {
            model: default_asr_model(),
            num_threads: default_asr_threads(),
            decoding_method: default_decoding_method(),
        }
    }
}

#[derive(Clone, Debug)]
pub struct AsrProviderConfig {
    pub adapter: String,
    pub zipformer_sherpa: Option<ZipformerSherpaConfig>,
}

/// The shipped ASR provider: the `zipformer_sherpa` adapter with the default Zipformer options.
pub open spec fn is_default_asr_provider(c: AsrProviderConfig) -> bool {
    &&& c.adapter@ == "zipformer_sherpa"@
    &&& c.zipformer_sherpa matches Some(z) && is_default_zipformer(z)
}

impl Default for AsrProviderConfig {
    fn default() -> (c: Self)
        ensures
            is_default_asr_provider(c),
    {
        AsrProviderConfig {
            adapter: default_asr_adapter(),
            zipformer_sherpa: Some(ZipformerSherpaConfig::default()),
        }
    }
}

#[derive(Clone)]
pub struct ProvidersConfig {
    pub vad: VadProviderConfig,
    pub asr: AsrProviderConfig,
    pub llm: LlmProviderConfig,
    pub tts: TtsProviderConfig,
}

/// The shipped providers: each kind at its default.
pub open spec fn is_default_providers(c: ProvidersConfig) -> bool {
    &&& is_default_vad_provider(c.vad)
    &&& is_default_asr_provider(c.asr)
    &&& is_default_llm_provider(c.llm)
    &&& is_default_tts_provider(c.tts)
}

impl Default for ProvidersConfig {
    fn default() -> (c: Self)
        ensures
            is_default_providers(c),
    {
        ProvidersConfig {
            vad: VadProviderConfig::default(),
            asr: AsrProviderConfig::default(),
            llm: LlmProviderConfig::default(),
            tts: TtsProviderConfig::default(),
        }
    }
}

#[derive(Clone, Copy, Debug, PartialEq, Eq)]
pub struct BargeInConfig {
    pub enabled: bool,
    pub trust_client_aec_feature: bool,
}

impl Default for BargeInConfig {
    fn default() -> (c: Self)
        ensures
            !c.enabled,
            !c.trust_client_aec_feature,
    {
        BargeInConfig { enabled: false, trust_client_aec_feature: false }
    }
}

#[derive(Clone, Copy, Debug, PartialEq, Eq)]
pub struct TtsWorkerConfig {
    pub max_workers: usize,
    pub command_queue_capacity: usize,
    pub cleanup_grace_ms: u64,
}

impl Default for TtsWorkerConfig {
    fn default() -> (c: Self)
        ensures
            c.max_workers == 2,
            c.command_queue_capacity == 32,
            c.cleanup_grace_ms == 5000,
    {
        TtsWorkerConfig {
            max_workers: default_asr_worker_count(),
            command_queue_capacity: default_worker_queue_capacity(),
            cleanup_grace_ms: default_cleanup_grace_ms(),
        }
    }
}

#[derive(Clone, Copy, Debug, PartialEq, Eq)]
pub struct VadWorkerConfig {
    pub max_workers: usize,
    pub command_queue_capacity: usize,
    pub reset_timeout_ms: u64,
    pub cleanup_grace_ms: u64,
}

impl Default for VadWorkerConfig {
    fn default() -> (c: Self)
        ensures
            c.max_workers == 4,
            c.command_queue_capacity == 32,
            c.reset_timeout_ms == 15000,
            c.cleanup_grace_ms == 5000,
    {
        VadWorkerConfig {
            max_workers: default_vad_worker_count(),
            command_queue_capacity: default_worker_queue_capacity(),
            reset_timeout_ms: default_vad_reset_timeout_ms(),
            cleanup_grace_ms: default_cleanup_grace_ms(),
        }
    }
}

#[derive(Clone, Copy, Debug, PartialEq, Eq)]
pub struct AsrWorkerConfig {
    pub max_workers: usize,
    pub command_queue_capacity: usize,
    pub final_timeout_ms: u64,
    pub cleanup_grace_ms: u64,
}

impl Default for AsrWorkerConfig {
    fn default() -> (c: Self)
        ensures
            c.max_workers == 2,
            c.command_queue_capacity == 32,
            c.final_timeout_ms == 15000,
            c.cleanup_grace_ms == 5000,
    {
        AsrWorkerConfig {
            max_workers: default_asr_worker_count(),
            command_queue_capacity: default_worker_queue_capacity(),
            final_timeout_ms: default_asr_final_timeout_ms(),
            cleanup_grace_ms: default_cleanup_grace_ms(),
        }
    }
}

#[derive(Clone, Copy, Debug, PartialEq, Eq)]
pub struct WorkersConfig {
    pub vad: VadWorkerConfig,
    pub asr: AsrWorkerConfig,
    pub tts: TtsWorkerConfig,
}

/// The shipped worker pools: VAD with four workers and a 15 s reset timeout, ASR with two
/// and a 15 s final timeout, TTS with two; every command queue 32 deep and every cleanup
/// grace 5 s.
pub open spec fn is_default_workers(c: WorkersConfig) -> bool {
    &&& c.vad == VadWorkerConfig {
        max_workers: 4,
        command_queue_capacity: 32,
        reset_timeout_ms: 15000,
        cleanup_grace_ms: 5000,
    }
    &&& c.asr == AsrWorkerConfig {
        max_workers: 2,
        command_queue_capacity: 32,
        final_timeout_ms: 15000,
        cleanup_grace_ms: 5000,
    }
    &&& c.tts == TtsWorkerConfig { max_workers: 2, command_queue_capacity: 32, cleanup_grace_ms: 5000 }
}

impl Default for WorkersConfig {
    fn default() -> (c: Self)
        ensures
            is_default_workers(c),
    {
        WorkersConfig {
            vad: VadWorkerConfig::default(),
            asr: AsrWorkerConfig::default(),
            tts: TtsWorkerConfig::default(),
        }
    }
}

/// A deployment's acknowledgement of one model revision and its licence.
#[derive(Clone, Debug)]
pub struct ModelAcknowledgement {
    pub model: String,
    pub revision: String,
    pub license: String,
}

/// Where prepared model artifacts live. Paths are held as text.
#[derive(Clone, Debug)]
pub struct ModelStoreConfig {
    pub root: String,
    pub offline: bool,
}

impl Default for ModelStoreConfig {
    fn default() -> (c: Self)
        ensures
            c.root@ == "models"@,
            !c.offline,
    {
        ModelStoreConfig { root: default_models_root(), offline: false }
    }
}

#[derive(Clone, Debug)]
pub struct DeploymentConfig {
    pub model_manifest: String,
    pub profile: String,
    pub model_acknowledgements: Vec<ModelAcknowledgement>,
    pub models: ModelStoreConfig,
}

impl Default for DeploymentConfig {
    fn default() -> (c: Self)
        ensures
            c.model_manifest@ == "models/manifest.toml"@,
            c.profile@ == "development-noncommercial"@,
            c.model_acknowledgements@.len() == 0,
            c.models.root@ == "models"@,
            !c.models.offline,
    {
        DeploymentConfig {
            model_manifest: default_manifest_path(),
            profile: "development-noncommercial".to_owned(),
            model_acknowledgements: Vec::new(),
            models: ModelStoreConfig::default(),
        }
    }
}

#[derive(Clone, Debug)]
pub struct OnnxRuntimeConfig {
    pub library: String,
}

impl Default for OnnxRuntimeConfig {
    fn default() -> (c: Self)
        ensures
            c.library@ == "runtime/onnxruntime/libonnxruntime.dylib"@,
    {
        OnnxRuntimeConfig { library: default_onnx_runtime_library() }
    }
}

#[derive(Clone, Debug)]
pub struct RuntimeConfig {
    pub onnx: OnnxRuntimeConfig,
}

impl Default for RuntimeConfig {
    fn default() -> (c: Self)
        ensures
            c.onnx.library@ == "runtime/onnxruntime/libonnxruntime.dylib"@,
    {
        RuntimeConfig { onnx: OnnxRuntimeConfig::default() }
    }
}

#[derive(Clone, Copy, Debug, PartialEq, Eq)]
pub struct LlmConfig {
    pub max_history_messages: usize,
}

impl Default for LlmConfig {
    fn default() -> (c: Self)
        ensures
            c.max_history_messages == 20,
    {
        LlmConfig { max_history_messages: default_max_history_messages() }
    }
}

#[derive(Clone, Copy, Debug, PartialEq, Eq)]
pub struct TtsConfig {
    pub timeout_ms: u64,
}

impl Default for TtsConfig {
    fn default() -> (c: Self)
        ensures
            c.timeout_ms == 15000,
    {
        TtsConfig { timeout_ms: default_tts_timeout_ms() }
    }
}

/// Bounds for speech segmentation and the synthesis queue.
#[derive(Clone, Copy, Debug, PartialEq, Eq)]
pub struct SpeechOutputConfig {
    pub min_chars: usize,
    pub soft_break_min_chars: usize,
    pub max_chars: usize,
    pub pending_segments: usize,
}

impl Default for SpeechOutputConfig {
    fn default() -> (c: Self)
        ensures
            c.min_chars == 24,
            c.soft_break_min_chars == 48,
            c.max_chars == 160,
            c.pending_segments == 8,
    {
        SpeechOutputConfig {
            min_chars: default_speech_min_chars(),
            soft_break_min_chars: default_speech_soft_break_min_chars(),
            max_chars: default_speech_max_chars(),
            pending_segments: default_pending_segments(),
        }
    }
}

/// The listener section. The bind address is held outside this crate.
#[derive(Clone, Debug)]
pub struct ServerConfig {
    pub public_ws_url: WebUrl,
    pub hello_timeout_ms: u64,
}

#[derive(Clone, Debug, Default)]
pub struct AuthConfig {
    pub token: String,
}

#[derive(Clone, Copy, Debug, PartialEq, Eq)]
pub struct AudioConfig {
    pub input_sample_rate: u32,
    pub output_sample_rate: u32,
    pub channels: u8,
    pub frame_ms: u16,
    pub max_utterance_ms: u64,
}

impl Default for AudioConfig {
    fn default() -> (c: Self)
        ensures
            c.input_sample_rate == 16000,
            c.output_sample_rate == 24000,
            c.channels == 1,
            c.frame_ms == 60,
            c.max_utterance_ms == 30000,
    {
        AudioConfig {
            input_sample_rate: default_input_rate(),
            output_sample_rate: default_output_rate(),
            channels: default_channels(),
            frame_ms: default_frame_ms(),
            max_utterance_ms: default_max_utterance_ms(),
        }
    }
}

#[derive(Clone, Copy, Debug, PartialEq, Eq)]
pub struct WebsocketConfig {
    pub max_frame_bytes: usize,
}

impl Default for WebsocketConfig {
    fn default() -> (c: Self)
        ensures
            c.max_frame_bytes == 65536,
    {
        WebsocketConfig { max_frame_bytes: default_max_frame_bytes() }
    }
}

#[derive(Clone, Copy, Debug, PartialEq, Eq)]
pub struct LimitsConfig {
    pub session_event_queue: usize,
    pub outbound_control_queue: usize,
    pub urgent_control_queue: usize,
    pub outbound_audio_queue: usize,
    pub max_active_turns: usize,
    pub llm_concurrency: usize,
    pub tts_concurrency: usize,
}

impl Default for LimitsConfig {
    fn default() -> (c: Self)
        ensures
            c.session_event_queue == 32,
            c.outbound_control_queue == 32,
            c.urgent_control_queue == 32,
            c.outbound_audio_queue == 32,
            c.max_active_turns == 8,
            c.llm_concurrency == 2,
            c.tts_concurrency == 2,
    {
        LimitsConfig {
            session_event_queue: default_queue_capacity(),
            outbound_control_queue: default_queue_capacity(),
            urgent_control_queue: default_queue_capacity(),
            outbound_audio_queue: default_queue_capacity(),
            max_active_turns: default_max_active_turns(),
            llm_concurrency: default_llm_concurrency(),
            tts_concurrency: default_tts_concurrency(),
        }
    }
}

/// The whole server configuration.
#[derive(Clone)]
pub struct AppConfig {
    pub server: ServerConfig,
    pub auth: AuthConfig,
    pub audio: AudioConfig,
    pub websocket: WebsocketConfig,
    pub limits: LimitsConfig,
    pub providers: ProvidersConfig,
    pub workers: WorkersConfig,
    pub deployment: DeploymentConfig,
    pub runtime: RuntimeConfig,
    pub llm: LlmConfig,
    pub tts: TtsConfig,
    pub speech_output: SpeechOutputConfig,
    pub barge_in: BargeInConfig,
}


/// A configuration rule that a configuration breaks.
#[derive(Clone, Debug, PartialEq, Eq)]
pub enum ConfigRule {
    PublicUrlScheme,
    TransportLimits,
    CanonicalAudio,
    UtteranceLength,
    Capacities,
    HistoryLimit,
    WorkerLimits,
    UnsupportedAdapter { kind: ProviderKind, adapter: String },
    MissingOptions { kind: ProviderKind, adapter: String },
    VadSegmentation,
    AsrRuntime,
    ModelIdentities,
    OpenAiEndpoint,
    ZeroTtsOptions,
    TtsConcurrency,
    SpeechOutputBounds,
    DeploymentModels,
    OnnxLibrary,
}

#[derive(Clone, Debug, PartialEq, Eq)]
pub enum ConfigError {
    /// The configuration file could not be read.
    Read(String),
    /// The configuration file is not valid TOML for this schema.
    Parse(String),
    /// The configuration breaks a rule.
    Validation(ConfigRule),
}

/// The message reported for a broken rule.
pub open spec fn rule_message(rule: ConfigRule) -> Seq<char> {
    match rule {
        ConfigRule::PublicUrlScheme => "server.public_ws_url must use ws or wss"@,
        ConfigRule::TransportLimits => "hello timeout and WebSocket maximum frame size must be valid"@,
        ConfigRule::CanonicalAudio => "V1 requires canonical audio: uplink 16 kHz, downlink 24 kHz, mono, 60 ms"@,
        ConfigRule::UtteranceLength => "audio.max_utterance_ms must be 1000..=120000 and divisible by frame_ms"@,
        ConfigRule::Capacities => "queue and delivery capacities must be positive"@,
        ConfigRule::HistoryLimit => "llm.max_history_messages must be positive"@,
        ConfigRule::WorkerLimits => "VAD/ASR/TTS worker capacities and timeouts must be positive"@,
        ConfigRule::UnsupportedAdapter { kind, adapter } => provider_label(kind) + " adapter `"@
            + adapter@ + "` is not compiled into this binary"@,
        ConfigRule::MissingOptions { kind, adapter } => "providers."@ + provider_section(kind) + "."@
            + adapter@ + " options are required"@,
        ConfigRule::VadSegmentation => "VAD thresholds and segmentation durations must be valid"@,
        ConfigRule::AsrRuntime => "ASR runtime options must be valid"@,
        ConfigRule::ModelIdentities => "provider model identities must be non-empty"@,
        ConfigRule::OpenAiEndpoint => "OpenAI base URL and model must be valid"@,
        ConfigRule::ZeroTtsOptions => "ZeroTTS model, voice, and thread count must be valid"@,
        ConfigRule::TtsConcurrency => "limits.tts_concurrency must equal workers.tts.max_workers"@,
        ConfigRule::SpeechOutputBounds => "SpeechOutput bounds and TTS timeout must be valid"@,
        ConfigRule::DeploymentModels => "deployment profile and model manifest must be set"@,
        ConfigRule::OnnxLibrary => "runtime.onnx.library must be set"@,
    }
}

impl ConfigRule {
    /// The human-readable message for this rule.
    pub fn message(&self) -> (s: String)
        ensures
            s@ == rule_message(*self),
    {
        match self {
            ConfigRule::PublicUrlScheme => "server.public_ws_url must use ws or wss".to_owned(),
            ConfigRule::TransportLimits => "hello timeout and WebSocket maximum frame size must be valid".to_owned(),
            ConfigRule::CanonicalAudio => "V1 requires canonical audio: uplink 16 kHz, downlink 24 kHz, mono, 60 ms".to_owned(),
            ConfigRule::UtteranceLength => "audio.max_utterance_ms must be 1000..=120000 and divisible by frame_ms".to_owned(),
            ConfigRule::Capacities => "queue and delivery capacities must be positive".to_owned(),
            ConfigRule::HistoryLimit => "llm.max_history_messages must be positive".to_owned(),
            ConfigRule::WorkerLimits => "VAD/ASR/TTS worker capacities and timeouts must be positive".to_owned(),
            ConfigRule::UnsupportedAdapter { kind, adapter } => {
                let parts = [kind.label(), " adapter `", adapter.as_str(), "` is not compiled into this binary"];
                let r = concat_text(&parts);
                proof {
                    reveal_with_fuel(concat_views, 5);
                    assert(parts@.take(0) =~= Seq::<&str>::empty());
                }
                r
            },
            ConfigRule::MissingOptions { kind, adapter } => {
                let parts = ["providers.", kind.section(), ".", adapter.as_str(), " options are required"];
                let r = concat_text(&parts);
                proof {
                    reveal_with_fuel(concat_views, 6);
                }
                r
            },
            ConfigRule::VadSegmentation => "VAD thresholds and segmentation durations must be valid".to_owned(),
            ConfigRule::AsrRuntime => "ASR runtime options must be valid".to_owned(),
            ConfigRule::ModelIdentities => "provider model identities must be non-empty".to_owned(),
            ConfigRule::OpenAiEndpoint => "OpenAI base URL and model must be valid".to_owned(),
            ConfigRule::ZeroTtsOptions => "ZeroTTS model, voice, and thread count must be valid".to_owned(),
            ConfigRule::TtsConcurrency => "limits.tts_concurrency must equal workers.tts.max_workers".to_owned(),
            ConfigRule::SpeechOutputBounds => "SpeechOutput bounds and TTS timeout must be valid".to_owned(),
            ConfigRule::DeploymentModels => "deployment profile and model manifest must be set".to_owned(),
            ConfigRule::OnnxLibrary => "runtime.onnx.library must be set".to_owned(),
        }
    }
}

/// Transport rules: a `ws`/`wss` public URL, a hello timeout, and a frame cap in 4000..=1048576.
pub open spec fn transport_failure(c: AppConfig) -> Option<ConfigRule> {
    let scheme = c.server.public_ws_url.scheme@;
    if scheme != "ws"@ && scheme != "wss"@ {
        Some(ConfigRule::PublicUrlScheme)
    } else if c.server.hello_timeout_ms == 0 || !(4000 <= c.websocket.max_frame_bytes <= 1048576) {
        Some(ConfigRule::TransportLimits)
    } else {
        None
    }
}

/// Audio rules: the canonical V1 profile and a bounded utterance length of whole frames.
pub open spec fn audio_failure(c: AppConfig) -> Option<ConfigRule> {
    let a = c.audio;
    if a.input_sample_rate != 16000 || a.output_sample_rate != 24000 || a.channels != 1 || a.frame_ms != 60 {
        Some(ConfigRule::CanonicalAudio)
    } else if !(1000 <= a.max_utterance_ms <= 120000) || a.max_utterance_ms % (a.frame_ms as u64) != 0 {
        Some(ConfigRule::UtteranceLength)
    } else {
        None
    }
}

/// Capacity rules: every queue and concurrency limit, and the history bound, are positive.
pub open spec fn capacity_failure(c: AppConfig) -> Option<ConfigRule> {
    let l = c.limits;
    if l.session_event_queue == 0 || l.outbound_control_queue == 0 || l.urgent_control_queue == 0
        || l.outbound_audio_queue == 0 || l.max_active_turns == 0 || l.llm_concurrency == 0
        || l.tts_concurrency == 0 {
        Some(ConfigRule::Capacities)
    } else if c.llm.max_history_messages == 0 {
        Some(ConfigRule::HistoryLimit)
    } else {
        None
    }
}

/// Worker rules: every worker count, queue and timeout is positive.
pub open spec fn workers_failure(c: AppConfig) -> Option<ConfigRule> {
    let w = c.workers;
    if w.asr.max_workers == 0 || w.asr.command_queue_capacity == 0 || w.asr.final_timeout_ms == 0
        || w.asr.cleanup_grace_ms == 0 || w.vad.max_workers == 0 || w.vad.command_queue_capacity == 0
        || w.vad.reset_timeout_ms == 0 || w.vad.cleanup_grace_ms == 0 || w.tts.max_workers == 0
        || w.tts.command_queue_capacity == 0 || w.tts.cleanup_grace_ms == 0 {
        Some(ConfigRule::WorkerLimits)
    } else {
        None
    }
}

/// The OpenAI endpoint is HTTPS, or plain HTTP to a loopback host.
pub open spec fn openai_endpoint_ok(o: OpenAiConfig) -> bool {
    let url = o.base_url;
    let local_http = url.scheme@ == "http"@ && match url.host {
        Some(h) => h@ == "localhost"@ || h@ == "127.0.0.1"@ || h@ == "::1"@,
        None => false,
    };
    &&& url.scheme@ == "https"@ || local_http
    &&& url.host is Some
    &&& trim(o.model@).len() > 0
    &&& o.timeout_ms != 0
}

/// Provider rules, checked per kind in the order VAD, ASR, LLM, TTS: the adapter is compiled
/// in, its options are present and sane. `vad_thresholds_ok` is the verdict on the VAD
/// probability thresholds, which are floating point.
pub open spec fn providers_failure(c: AppConfig, vad_thresholds_ok: bool) -> Option<ConfigRule> {
    let p = c.providers;
    if p.vad.adapter@ != compiled_adapter_name(ProviderKind::Vad) {
        Some(ConfigRule::UnsupportedAdapter { kind: ProviderKind::Vad, adapter: p.vad.adapter })
    } else if p.vad.silero_onnx is None {
        Some(ConfigRule::MissingOptions { kind: ProviderKind::Vad, adapter: p.vad.adapter })
    } else if ({
        let v = p.vad.silero_onnx->0;
        v.min_speech_ms == 0 || v.end_silence_ms == 0 || v.pre_roll_ms > c.audio.max_utterance_ms
            || v.num_threads <= 0 || !vad_thresholds_ok
    }) {
        Some(ConfigRule::VadSegmentation)
    } else if p.asr.adapter@ != compiled_adapter_name(ProviderKind::Asr) {
        Some(ConfigRule::UnsupportedAdapter { kind: ProviderKind::Asr, adapter: p.asr.adapter })
    } else if p.asr.zipformer_sherpa is None {
        Some(ConfigRule::MissingOptions { kind: ProviderKind::Asr, adapter: p.asr.adapter })
    } else if ({
        let a = p.asr.zipformer_sherpa->0;
        a.num_threads <= 0 || a.decoding_method@.len() == 0
    }) {
        Some(ConfigRule::AsrRuntime)
    } else if p.vad.silero_onnx->0.model@.len() == 0 || p.asr.zipformer_sherpa->0.model@.len() == 0 {
        Some(ConfigRule::ModelIdentities)
    } else if p.llm.adapter@ != compiled_adapter_name(ProviderKind::Llm) {
        Some(ConfigRule::UnsupportedAdapter { kind: ProviderKind::Llm, adapter: p.llm.adapter })
    } else if p.llm.openai is None {
        Some(ConfigRule::MissingOptions { kind: ProviderKind::Llm, adapter: p.llm.adapter })
    } else if !openai_endpoint_ok(p.llm.openai->0) {
        Some(ConfigRule::OpenAiEndpoint)
    } else if p.tts.adapter@ != compiled_adapter_name(ProviderKind::Tts) {
        Some(ConfigRule::UnsupportedAdapter { kind: ProviderKind::Tts, adapter: p.tts.adapter })
    } else if p.tts.zerotts_onnx is None {
        Some(ConfigRule::MissingOptions { kind: ProviderKind::Tts, adapter: p.tts.adapter })
    } else if ({
        let t = p.tts.zerotts_onnx->0;
        trim(t.model@).len() == 0 || trim(t.voice@).len() == 0 || t.num_threads <= 0
    }) {
        Some(ConfigRule::ZeroTtsOptions)
    } else {
        None
    }
}

/// Speech output rules: TTS concurrency matches the TTS workers, and the segmentation bounds
/// are ordered with at most 64 pending segments.
pub open spec fn speech_output_failure(c: AppConfig) -> Option<ConfigRule> {
    let o = c.speech_output;
    if c.limits.tts_concurrency != c.workers.tts.max_workers {
        Some(ConfigRule::TtsConcurrency)
    } else if c.tts.timeout_ms == 0 || o.min_chars == 0 || o.min_chars > o.soft_break_min_chars
        || o.soft_break_min_chars > o.max_chars || o.pending_segments == 0 || o.pending_segments > 64 {
        Some(ConfigRule::SpeechOutputBounds)
    } else {
        None
    }
}

/// Deployment rules: a profile, a manifest, a model root and a runtime library are set.
pub open spec fn deployment_failure(c: AppConfig) -> Option<ConfigRule> {
    if c.deployment.profile@.len() == 0 || c.deployment.model_manifest@.len() == 0
        || c.deployment.models.root@.len() == 0 {
        Some(ConfigRule::DeploymentModels)
    } else if c.runtime.onnx.library@.len() == 0 {
        Some(ConfigRule::OnnxLibrary)
    } else {
        None
    }
}

/// The first rule, in validation order, that `c` breaks.
pub open spec fn config_failure(c: AppConfig, vad_thresholds_ok: bool) -> Option<ConfigRule> {
    if transport_failure(c) is Some {
        transport_failure(c)
    } else if audio_failure(c) is Some {
        audio_failure(c)
    } else if capacity_failure(c) is Some {
        capacity_failure(c)
    } else if workers_failure(c) is Some {
        workers_failure(c)
    } else if providers_failure(c, vad_thresholds_ok) is Some {
        providers_failure(c, vad_thresholds_ok)
    } else if speech_output_failure(c) is Some {
        speech_output_failure(c)
    } else {
        deployment_failure(c)
    }
}

fn validate_transport(c: &AppConfig) -> (r: Option<ConfigRule>)
    ensures
        r == transport_failure(*c),
{
    let scheme = c.server.public_ws_url.scheme.as_str();
    if !text_eq(scheme, "ws") && !text_eq(scheme, "wss") {
        return Some(ConfigRule::PublicUrlScheme);
    }
    if c.server.hello_timeout_ms == 0 || !(4000 <= c.websocket.max_frame_bytes
        && c.websocket.max_frame_bytes <= 1048576) {
        return Some(ConfigRule::TransportLimits);
    }
    None
}

fn validate_audio(c: &AppConfig) -> (r: Option<ConfigRule>)
    ensures
        r == audio_failure(*c),
{
    let a = &c.audio;
    if a.input_sample_rate != 16000 || a.output_sample_rate != 24000 || a.channels != 1
        || a.frame_ms != 60 {
        return Some(ConfigRule::CanonicalAudio);
    }
    if !(1000 <= a.max_utterance_ms && a.max_utterance_ms <= 120000) || a.max_utterance_ms % (
    a.frame_ms as u64) != 0 {
        return Some(ConfigRule::UtteranceLength);
    }
    None
}

fn validate_capacity(c: &AppConfig) -> (r: Option<ConfigRule>)
    ensures
        r == capacity_failure(*c),
{
    let l = &c.limits;
    if l.session_event_queue == 0 || l.outbound_control_queue == 0 || l.urgent_control_queue == 0
        || l.outbound_audio_queue == 0 || l.max_active_turns == 0 || l.llm_concurrency == 0
        || l.tts_concurrency == 0 {
        return Some(ConfigRule::Capacities);
    }
    if c.llm.max_history_messages == 0 {
        return Some(ConfigRule::HistoryLimit);
    }
    None
}

fn validate_workers(c: &AppConfig) -> (r: Option<ConfigRule>)
    ensures
        r == workers_failure(*c),
{
    let w = &c.workers;
    if w.asr.max_workers == 0 || w.asr.command_queue_capacity == 0 || w.asr.final_timeout_ms == 0
        || w.asr.cleanup_grace_ms == 0 || w.vad.max_workers == 0 || w.vad.command_queue_capacity
        == 0 || w.vad.reset_timeout_ms == 0 || w.vad.cleanup_grace_ms == 0 || w.tts.max_workers
        == 0 || w.tts.command_queue_capacity == 0 || w.tts.cleanup_grace_ms == 0 {
        return Some(ConfigRule::WorkerLimits);
    }
    None
}

fn openai_endpoint_valid(o: &OpenAiConfig) -> (b: bool)
    ensures
        b == openai_endpoint_ok(*o),
{
    let scheme = o.base_url.scheme.as_str();
    let local_http = text_eq(scheme, "http") && match &o.base_url.host {
        Some(h) => text_eq(h.as_str(), "localhost") || text_eq(h.as_str(), "127.0.0.1") || text_eq(
            h.as_str(),
            "::1",
        ),
        None => false,
    };
    (text_eq(scheme, "https") || local_http) && o.base_url.host.is_some() && !is_blank(
        o.model.as_str(),
    ) && o.timeout_ms != 0
}

fn validate_providers(c: &AppConfig, vad_thresholds_ok: bool) -> (r: Option<ConfigRule>)
    ensures
        r == providers_failure(*c, vad_thresholds_ok),
{
    let p = &c.providers;
    if registered_adapter(ProviderKind::Vad, p.vad.adapter.as_str()).is_err() {
        return Some(ConfigRule::UnsupportedAdapter { kind: ProviderKind::Vad, adapter: p.vad.adapter.clone() });
    }
    let vad = match &p.vad.silero_onnx {
        Some(v) => v,
        None => return Some(ConfigRule::MissingOptions { kind: ProviderKind::Vad, adapter: p.vad.adapter.clone() }),
    };
    if vad.min_speech_ms == 0 || vad.end_silence_ms == 0 || vad.pre_roll_ms > c.audio.max_utterance_ms
        || vad.num_threads <= 0 || !vad_thresholds_ok {
        return Some(ConfigRule::VadSegmentation);
    }
    if registered_adapter(ProviderKind::Asr, p.asr.adapter.as_str()).is_err() {
        return Some(ConfigRule::UnsupportedAdapter { kind: ProviderKind::Asr, adapter: p.asr.adapter.clone() });
    }
    let asr = match &p.asr.zipformer_sherpa {
        Some(a) => a,
        None => return Some(ConfigRule::MissingOptions { kind: ProviderKind::Asr, adapter: p.asr.adapter.clone() }),
    };
    if asr.num_threads <= 0 || asr.decoding_method.as_str().is_empty() {
        return Some(ConfigRule::AsrRuntime);
    }
    if vad.model.as_str().is_empty() || asr.model.as_str().is_empty() {
        return Some(ConfigRule::ModelIdentities);
    }
    if registered_adapter(ProviderKind::Llm, p.llm.adapter.as_str()).is_err() {
        return Some(ConfigRule::UnsupportedAdapter { kind: ProviderKind::Llm, adapter: p.llm.adapter.clone() });
    }
    let openai = match &p.llm.openai {
        Some(o) => o,
        None => return Some(ConfigRule::MissingOptions { kind: ProviderKind::Llm, adapter: p.llm.adapter.clone() }),
    };
    if !openai_endpoint_valid(openai) {
        return Some(ConfigRule::OpenAiEndpoint);
    }
    if registered_adapter(ProviderKind::Tts, p.tts.adapter.as_str()).is_err() {
        return Some(ConfigRule::UnsupportedAdapter { kind: ProviderKind::Tts, adapter: p.tts.adapter.clone() });
    }
    let tts = match &p.tts.zerotts_onnx {
        Some(t) => t,
        None => return Some(ConfigRule::MissingOptions { kind: ProviderKind::Tts, adapter: p.tts.adapter.clone() }),
    };
    if is_blank(tts.model.as_str()) || is_blank(tts.voice.as_str()) || tts.num_threads <= 0 {
        return Some(ConfigRule::ZeroTtsOptions);
    }
    None
}

fn validate_speech_output(c: &AppConfig) -> (r: Option<ConfigRule>)
    ensures
        r == speech_output_failure(*c),
{
    let o = &c.speech_output;
    if c.limits.tts_concurrency != c.workers.tts.max_workers {
        return Some(ConfigRule::TtsConcurrency);
    }
    if c.tts.timeout_ms == 0 || o.min_chars == 0 || o.min_chars > o.soft_break_min_chars
        || o.soft_break_min_chars > o.max_chars || o.pending_segments == 0 || o.pending_segments
        > 64 {
        return Some(ConfigRule::SpeechOutputBounds);
    }
    None
}

fn validate_deployment(c: &AppConfig) -> (r: Option<ConfigRule>)
    ensures
        r == deployment_failure(*c),
{
    if c.deployment.profile.as_str().is_empty() || c.deployment.model_manifest.as_str().is_empty()
        || c.deployment.models.root.as_str().is_empty() {
        return Some(ConfigRule::DeploymentModels);
    }
    if c.runtime.onnx.library.as_str().is_empty() {
        return Some(ConfigRule::OnnxLibrary);
    }
    None
}

impl AppConfig {
    /// Checks every startup rule and reports the first one broken, in the order transport,
    /// audio, capacity, workers, providers, speech output, deployment. The VAD probability
    /// thresholds are floating point; `vad_thresholds_ok` carries their verdict.
    pub fn validate(&self, vad_thresholds_ok: bool) -> (r: Result<(), ConfigError>)
        ensures
            match config_failure(*self, vad_thresholds_ok) {
                Some(rule) => r == Err::<(), ConfigError>(ConfigError::Validation(rule)),
                None => r is Ok,
            },
    {
        if let Some(rule) = validate_transport(self) {
            return Err(ConfigError::Validation(rule));
        }
        if let Some(rule) = validate_audio(self) {
            return Err(ConfigError::Validation(rule));
        }
        if let Some(rule) = validate_capacity(self) {
            return Err(ConfigError::Validation(rule));
        }
        if let Some(rule) = validate_workers(self) {
            return Err(ConfigError::Validation(rule));
        }
        if let Some(rule) = validate_providers(self, vad_thresholds_ok) {
            return Err(ConfigError::Validation(rule));
        }
        if let Some(rule) = validate_speech_output(self) {
            return Err(ConfigError::Validation(rule));
        }
        if let Some(rule) = validate_deployment(self) {
            return Err(ConfigError::Validation(rule));
        }
        Ok(())
    }

    /// The number of uplink frames in the longest utterance.
    pub fn max_capture_frames(&self) -> (n: usize)
        requires
            self.audio.frame_ms > 0,
        ensures
            n == (self.audio.max_utterance_ms / (self.audio.frame_ms as u64)) as usize,
    {
        (self.audio.max_utterance_ms / (self.audio.frame_ms as u64)) as usize
    }
}


/// Every section but the listener, the credentials and the agent at its shipped default.
pub open spec fn has_default_sections(c: AppConfig) -> bool {
    &&& c.audio == AudioConfig {
        input_sample_rate: 16000,
        output_sample_rate: 24000,
        channels: 1,
        frame_ms: 60,
        max_utterance_ms: 30000,
    }
    &&& c.websocket == WebsocketConfig { max_frame_bytes: 65536 }
    &&& c.limits == LimitsConfig {
        session_event_queue: 32,
        outbound_control_queue: 32,
        urgent_control_queue: 32,
        outbound_audio_queue: 32,
        max_active_turns: 8,
        llm_concurrency: 2,
        tts_concurrency: 2,
    }
    &&& is_default_providers(c.providers)
    &&& is_default_workers(c.workers)
    &&& c.deployment.model_manifest@ == "models/manifest.toml"@
    &&& c.deployment.profile@ == "development-noncommercial"@
    &&& c.deployment.model_acknowledgements@.len() == 0
    &&& c.deployment.models.root@ == "models"@
    &&& !c.deployment.models.offline
    &&& c.runtime.onnx.library@ == "runtime/onnxruntime/libonnxruntime.dylib"@
    &&& c.llm == LlmConfig { max_history_messages: 20 }
    &&& c.tts == TtsConfig { timeout_ms: 15000 }
    &&& c.speech_output == SpeechOutputConfig {
        min_chars: 24,
        soft_break_min_chars: 48,
        max_chars: 160,
        pending_segments: 8,
    }
    &&& c.barge_in == BargeInConfig { enabled: false, trust_client_aec_feature: false }
}

/// The shipped defaults agree with each other: a configuration that sets only the listener
/// (a `ws` or `wss` public URL and a hello timeout) and leaves every other section at its
/// default passes validation, once the VAD probability thresholds pass theirs.
pub proof fn law_default_sections_validate(c: AppConfig)
    requires
        c.server.public_ws_url.scheme@ == "ws"@ || c.server.public_ws_url.scheme@ == "wss"@,
        c.server.hello_timeout_ms > 0,
        has_default_sections(c),
    ensures
        config_failure(c, true) is None,
{
    reveal_strlit("model-name");
    reveal_strlit("zerotts_default");
    reveal_strlit("maichi");
    reveal_strlit("silero_vad_v5");
    reveal_strlit("zipformer_vi_streaming");
    reveal_strlit("greedy_search");
    reveal_strlit("models/manifest.toml");
    reveal_strlit("development-noncommercial");
    reveal_strlit("models");
    reveal_strlit("runtime/onnxruntime/libonnxruntime.dylib");
    reveal_strlit("https");
    reveal_strlit("api.openai.com");
    let o = c.providers.llm.openai->0;
    let z = c.providers.tts.zerotts_onnx->0;
    assert(trim_start(o.model@) == o.model@);
    assert(trim(o.model@) == o.model@);
    assert(trim_start(z.model@) == z.model@);
    assert(trim(z.model@) == z.model@);
    assert(trim_start(z.voice@) == z.voice@);
    assert(trim(z.voice@) == z.voice@);
}

/// The agent identity that fills the system prompt template.
#[derive(Clone, Debug, PartialEq, Eq)]
pub struct EffectiveAgentConfig {
    pub name: String,
    pub persona: String,
    pub language: String,
    /// A template over `{{agent_name}}`, `{{persona}}` and `{{language}}`.
    pub prompt_template: String,
}

impl Default for EffectiveAgentConfig {
    fn default() -> (c: Self)
        ensures
            c.name@ == "M\u{e2}y"@,
            c.persona@ == ""@,
            c.language@ == "vi"@,
            c.prompt_template@ == "{{persona}}"@,
    {
        EffectiveAgentConfig {
            name: "M\u{e2}y".to_owned(),
            persona: "".to_owned(),
            language: "vi".to_owned(),
            prompt_template: "{{persona}}".to_owned(),
        }
    }
}

} // verus!
