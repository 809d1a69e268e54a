//! Provider boundary vocabulary: errors, events, capacity limits and the compiled adapter
//! registry.
use vstd::prelude::*;
use crate::models::{ResolvedModel, resolved_artifact_path};
use crate::unicode::text_eq;

verus! {

#[derive(Clone, Debug, PartialEq, Eq)]
pub enum AsrError {
    Failed(String),
}

#[derive(Clone, Debug, PartialEq, Eq)]
pub enum VadError {
    Failed(String),
}

#[derive(Clone, Copy, Debug, PartialEq, Eq)]
pub enum VadEvent {
    SpeechStart,
    SpeechEnd,
}

/// The four kinds of local providers.
#[derive(Clone, Copy, Debug, PartialEq, Eq)]
pub enum ProviderKind {
    Vad,
    Asr,
    Llm,
    Tts,
}

pub open spec fn provider_label(kind: ProviderKind) -> Seq<char> {
    match kind {
        ProviderKind::Vad => "VAD"@,
        ProviderKind::Asr => "ASR"@,
        ProviderKind::Llm => "LLM"@,
        ProviderKind::Tts => "TTS"@,
    }
}

pub open spec fn provider_section(kind: ProviderKind) -> Seq<char> {
    match kind {
        ProviderKind::Vad => "vad"@,
        ProviderKind::Asr => "asr"@,
        ProviderKind::Llm => "llm"@,
        ProviderKind::Tts => "tts"@,
    }
}

/// The one adapter of each kind compiled into the server.
pub open spec fn compiled_adapter_name(kind: ProviderKind) -> Seq<char> {
    match kind {
        ProviderKind::Vad => "silero_onnx"@,
        ProviderKind::Asr => "zipformer_sherpa"@,
        ProviderKind::Llm => "openai"@,
        ProviderKind::Tts => "zerotts_onnx"@,
    }
}

impl ProviderKind {
    /// The name used in messages: `VAD`, `ASR`, `LLM` or `TTS`.
    pub fn label(&self) -> (s: &'static str)
        ensures
            s@ == provider_label(*self),
    {
        match self {
            ProviderKind::Vad => "VAD",
            ProviderKind::Asr => "ASR",
            ProviderKind::Llm => "LLM",
            ProviderKind::Tts => "TTS",
        }
    }

    /// The configuration section: `vad`, `asr`, `llm` or `tts`.
    pub fn section(&self) -> (s: &'static str)
        ensures
            s@ == provider_section(*self),
    {
        match self {
            ProviderKind::Vad => "vad",
            ProviderKind::Asr => "asr",
            ProviderKind::Llm => "llm",
            ProviderKind::Tts => "tts",
        }
    }

    /// The compiled adapter of this kind.
    pub fn compiled_adapter(&self) -> (s: &'static str)
        ensures
            s@ == compiled_adapter_name(*self),
    {
        match self {
            ProviderKind::Vad => "silero_onnx",
            ProviderKind::Asr => "zipformer_sherpa",
            ProviderKind::Llm => "openai",
            ProviderKind::Tts => "zerotts_onnx",
        }
    }
}

#[derive(Clone, Debug, PartialEq, Eq)]
pub enum ProviderLoadError {
    UnsupportedAdapter { kind: ProviderKind, adapter: String },
    MissingArtifact(String),
    Initialize(ProviderKind),
    ModelAdapterMismatch { model: String, expected: ProviderKind, actual: String },
    /// The provider's configuration does not allow it to be built.
    Configuration(String),
    /// The provider itself failed to load.
    Provider(String),
}

/// Looks up the compiled factory for an adapter name; there is no runtime plugin loading.
pub fn registered_adapter(kind: ProviderKind, adapter: &str) -> (r: Result<(), ProviderLoadError>)
    ensures
        r is Ok <==> adapter@ == compiled_adapter_name(kind),
        r matches Err(e) ==> (e matches ProviderLoadError::UnsupportedAdapter { kind: k, adapter: a }
            && k == kind && a@ == adapter@),
{
    if text_eq(adapter, kind.compiled_adapter()) {
        Ok(())
    } else {
        Err(ProviderLoadError::UnsupportedAdapter { kind, adapter: adapter.to_owned() })
    }
}

/// A resolved model must have been declared for the adapter that loads it.
pub fn validate_model_adapter(model: &ResolvedModel, expected: ProviderKind) -> (r: Result<
    (),
    ProviderLoadError,
>)
    ensures
        r is Ok <==> model.spec_adapter() == compiled_adapter_name(expected),
        r matches Err(e) ==> (e matches ProviderLoadError::ModelAdapterMismatch {
            model: m,
            expected: x,
            actual: a,
        } && m@ == model.spec_identity() && x == expected && a@ == model.spec_adapter()),
{
    if text_eq(model.adapter(), expected.compiled_adapter()) {
        Ok(())
    } else {
        Err(
            ProviderLoadError::ModelAdapterMismatch {
                model: model.identity().to_owned(),
                expected,
                actual: model.adapter().to_owned(),
            },
        )
    }
}

/// The installed path of a required artifact role of a resolved model.
pub fn required(model: &ResolvedModel, role: &str) -> (r: Result<String, ProviderLoadError>)
    ensures
        match resolved_artifact_path(model.spec_artifacts(), role@) {
            Some(p) => r matches Ok(s) && s@ == p,
            None => r matches Err(e) && e matches ProviderLoadError::MissingArtifact(x) && x@
                == role@,
        },
{
    match model.artifact(role) {
        Some(path) => Ok(path.to_owned()),
        None => Err(ProviderLoadError::MissingArtifact(role.to_owned())),
    }
}

/// A finished recognition.
#[derive(Clone, Debug, PartialEq, Eq)]
pub struct AsrResult {
    text: String,
}

impl AsrResult {
    pub fn new(text: String) -> (r: Self)
        ensures
            r.spec_text() == text@,
    {
        AsrResult { text }
    }

    pub closed spec fn spec_text(&self) -> Seq<char> {
        self.text@
    }

    pub fn text(&self) -> (s: &str)
        ensures
            s@ == self.spec_text(),
    {
        self.text.as_str()
    }
}

#[derive(Clone, Debug, PartialEq, Eq)]
pub enum AsrEvent {
    Partial(String),
}

/// Provider-wide limits on concurrently open streams.
#[derive(Clone, Copy, Debug, PartialEq, Eq)]
pub struct ProviderCapacityLimits {
    pub max_asr_streams: usize,
    pub max_vad_sessions: usize,
}

impl Default for ProviderCapacityLimits {
    fn default() -> (l: Self)
        ensures
            l.max_asr_streams == 8,
            l.max_vad_sessions == 8,
    {
        ProviderCapacityLimits { max_asr_streams: 8, max_vad_sessions: 8 }
    }
}

/// Which kind of stream a capacity lease holds.
#[derive(Clone, Copy, Debug, PartialEq, Eq, Structural)]
pub enum CapacityLease {
    Asr,
    Vad,
}

/// The provider-wide count of open ASR streams and VAD sessions, kept within their limits.
#[derive(Debug)]
pub struct ProviderCapacity {
    limits: ProviderCapacityLimits,
    asr_streams: usize,
    vad_sessions: usize,
}

impl ProviderCapacity {
    #[verifier::type_invariant]
    spec fn within_limits(self) -> bool {
        self.asr_streams <= self.limits.max_asr_streams && self.vad_sessions
            <= self.limits.max_vad_sessions
    }

    pub closed spec fn spec_limits(&self) -> ProviderCapacityLimits {
        self.limits
    }

    /// Streams of `kind` held now.
    pub closed spec fn spec_held(&self, kind: CapacityLease) -> nat {
        match kind {
            CapacityLease::Asr => self.asr_streams as nat,
            CapacityLease::Vad => self.vad_sessions as nat,
        }
    }

    /// The limit on streams of `kind`.
    pub open spec fn spec_limit(&self, kind: CapacityLease) -> nat {
        match kind {
            CapacityLease::Asr => self.spec_limits().max_asr_streams as nat,
            CapacityLease::Vad => self.spec_limits().max_vad_sessions as nat,
        }
    }

    /// Nothing held yet.
    pub fn new(limits: ProviderCapacityLimits) -> (c: Self)
        ensures
            c.spec_limits() == limits,
            c.spec_held(CapacityLease::Asr) == 0,
            c.spec_held(CapacityLease::Vad) == 0,
    {
        ProviderCapacity { limits, asr_streams: 0, vad_sessions: 0 }
    }

    /// Streams of `kind` held now; never above the limit.
    pub fn held(&self, kind: CapacityLease) -> (n: usize)
        ensures
            n == self.spec_held(kind),
            n <= self.spec_limit(kind),
    {
        proof {
            use_type_invariant(self);
        }
        match kind {
            CapacityLease::Asr => self.asr_streams,
            CapacityLease::Vad => self.vad_sessions,
        }
    }

    /// Takes one ASR stream of capacity, refused once every stream is held.
    pub fn acquire_asr(&mut self) -> (r: Result<CapacityLease, AsrError>)
        ensures
            final(self).spec_limits() == old(self).spec_limits(),
            final(self).spec_held(CapacityLease::Vad) == old(self).spec_held(CapacityLease::Vad),
            old(self).spec_held(CapacityLease::Asr) < old(self).spec_limit(CapacityLease::Asr) ==> r
                == Ok::<CapacityLease, AsrError>(CapacityLease::Asr) && final(self).spec_held(
                CapacityLease::Asr,
            ) == old(self).spec_held(CapacityLease::Asr) + 1,
            old(self).spec_held(CapacityLease::Asr) >= old(self).spec_limit(CapacityLease::Asr)
                ==> (r matches Err(AsrError::Failed(m)) && m@ == "ASR stream capacity exhausted"@)
                && final(self).spec_held(CapacityLease::Asr) == old(self).spec_held(CapacityLease::Asr),
    {
        proof {
            use_type_invariant(&*self);
        }
        if self.asr_streams == self.limits.max_asr_streams {
            return Err(AsrError::Failed("ASR stream capacity exhausted".to_owned()));
        }
        self.asr_streams = self.asr_streams + 1;
        Ok(CapacityLease::Asr)
    }

    /// Takes one VAD session of capacity, refused once every session is held.
    pub fn acquire_vad(&mut self) -> (r: Result<CapacityLease, VadError>)
        ensures
            final(self).spec_limits() == old(self).spec_limits(),
            final(self).spec_held(CapacityLease::Asr) == old(self).spec_held(CapacityLease::Asr),
            old(self).spec_held(CapacityLease::Vad) < old(self).spec_limit(CapacityLease::Vad) ==> r
                == Ok::<CapacityLease, VadError>(CapacityLease::Vad) && final(self).spec_held(
                CapacityLease::Vad,
            ) == old(self).spec_held(CapacityLease::Vad) + 1,
            old(self).spec_held(CapacityLease::Vad) >= old(self).spec_limit(CapacityLease::Vad)
                ==> (r matches Err(VadError::Failed(m)) && m@ == "VAD session capacity exhausted"@)
                && final(self).spec_held(CapacityLease::Vad) == old(self).spec_held(CapacityLease::Vad),
    {
        proof {
            use_type_invariant(&*self);
        }
        if self.vad_sessions == self.limits.max_vad_sessions {
            return Err(VadError::Failed("VAD session capacity exhausted".to_owned()));
        }
        self.vad_sessions = self.vad_sessions + 1;
        Ok(CapacityLease::Vad)
    }

    /// Gives back the capacity a lease held.
    pub fn release(&mut self, lease: CapacityLease)
        requires
            old(self).spec_held(lease) > 0,
        ensures
            final(self).spec_limits() == old(self).spec_limits(),
            final(self).spec_held(lease) == old(self).spec_held(lease) - 1,
            lease == CapacityLease::Asr ==> final(self).spec_held(CapacityLease::Vad) == old(
                self,
            ).spec_held(CapacityLease::Vad),
            lease == CapacityLease::Vad ==> final(self).spec_held(CapacityLease::Asr) == old(
                self,
            ).spec_held(CapacityLease::Asr),
    {
        proof {
            use_type_invariant(&*self);
        }
        match lease {
            CapacityLease::Asr => self.asr_streams = self.asr_streams - 1,
            CapacityLease::Vad => self.vad_sessions = self.vad_sessions - 1,
        }
    }
}

/// The adapters supplied to the worker runtimes.
#[derive(Clone, Copy, Debug, PartialEq, Eq)]
pub struct ProviderCapabilities {
    pub vad_adapter: &'static str,
    pub asr_adapter: &'static str,
}

#[derive(Clone, Debug, PartialEq, Eq)]
pub enum TtsError {
    Failed,
    InvalidWarmupPcm,
    IncompatibleContract(String),
    TemporaryAudio(String),
}

/// A TTS provider that cannot synthesize.
pub struct UnavailableTts;

impl UnavailableTts {
    pub fn adapter(&self) -> (s: &'static str)
        ensures
            s@ == "unavailable"@,
    {
        "unavailable"
    }

    /// Every synthesis request fails.
    pub fn synthesize(&self, text: &str) -> (r: Result<(), TtsError>)
        ensures
            r == Err::<(), TtsError>(TtsError::Failed),
    {
        Err(TtsError::Failed)
    }
}

} // verus!
