//! What each compiled provider factory checks before it loads its native runtime, and the
//! exact files and options it loads with.
use vstd::prelude::*;
use crate::config::{
    AsrProviderConfig, LlmProviderConfig, RuntimeConfig, TtsProviderConfig, VadProviderConfig,
    ZeroTtsDeliveryMode, ZeroTtsOnnxConfig,
};
use crate::models::{resolved_artifact_path, ResolvedModel};
use crate::providers::{
    compiled_adapter_name, required, validate_model_adapter, ProviderKind, ProviderLoadError,
};
use crate::unicode::{chars_of, text_eq, trim, trim_chars};

verus! {

/// A configuration error with exactly this message.
pub open spec fn configuration_error(r: ProviderLoadError, message: Seq<char>) -> bool {
    r matches ProviderLoadError::Configuration(m) && m@ == message
}

/// A missing-artifact error for this role.
pub open spec fn missing_error(r: ProviderLoadError, role: Seq<char>) -> bool {
    r matches ProviderLoadError::MissingArtifact(m) && m@ == role
}

/// An adapter-mismatch error for this model and kind.
pub open spec fn mismatch_error(r: ProviderLoadError, model: ResolvedModel, kind: ProviderKind) -> bool {
    r matches ProviderLoadError::ModelAdapterMismatch { model: m, expected: x, actual: a }
        && m@ == model.spec_identity() && x == kind && a@ == model.spec_adapter()
}

/// The logical model the VAD configuration names.
pub fn vad_model_identity(config: &VadProviderConfig) -> (r: Result<&str, ProviderLoadError>)
    ensures
        match config.silero_onnx {
            Some(o) => r matches Ok(m) && m@ == o.model@,
            None => r matches Err(e) && configuration_error(e, "silero_onnx options are required"@),
        },
{
    match &config.silero_onnx {
        Some(o) => Ok(o.model.as_str()),
        None => Err(ProviderLoadError::Configuration("silero_onnx options are required".to_owned())),
    }
}

/// The logical model the ASR configuration names.
pub fn asr_model_identity(config: &AsrProviderConfig) -> (r: Result<&str, ProviderLoadError>)
    ensures
        match config.zipformer_sherpa {
            Some(o) => r matches Ok(m) && m@ == o.model@,
            None => r matches Err(e) && configuration_error(
                e,
                "zipformer_sherpa options are required"@,
            ),
        },
{
    match &config.zipformer_sherpa {
        Some(o) => Ok(o.model.as_str()),
        None => Err(
            ProviderLoadError::Configuration("zipformer_sherpa options are required".to_owned()),
        ),
    }
}

/// The logical model the TTS configuration names.
pub fn tts_model_identity(config: &TtsProviderConfig) -> (r: Result<&str, ProviderLoadError>)
    ensures
        match config.zerotts_onnx {
            Some(o) => r matches Ok(m) && m@ == o.model@,
            None => r matches Err(e) && configuration_error(e, "zerotts_onnx options are required"@),
        },
{
    match &config.zerotts_onnx {
        Some(o) => Ok(o.model.as_str()),
        None => Err(ProviderLoadError::Configuration("zerotts_onnx options are required".to_owned())),
    }
}

/// What the Silero VAD loader is given.
#[derive(Clone, Debug, PartialEq, Eq)]
pub struct SileroRecipe {
    pub model_path: String,
    pub onnx_library: String,
    pub num_threads: i32,
}

/// Checks a Silero VAD build: the model must be for this adapter, options must be
/// configured, and the `vad` artifact resolved.
pub fn silero_recipe(config: &VadProviderConfig, runtime: &RuntimeConfig, model: &ResolvedModel) -> (r: Result<SileroRecipe, ProviderLoadError>)
    ensures
        model.spec_adapter() != compiled_adapter_name(ProviderKind::Vad) ==> (r matches Err(e)
            && mismatch_error(e, *model, ProviderKind::Vad)),
        model.spec_adapter() == compiled_adapter_name(ProviderKind::Vad) ==> match config.silero_onnx {
            None => r matches Err(e) && configuration_error(e, "silero_onnx options are required"@),
            Some(o) => match resolved_artifact_path(model.spec_artifacts(), "vad"@) {
                None => r matches Err(e) && missing_error(e, "vad"@),
                Some(p) => r matches Ok(x) && x.model_path@ == p && x.onnx_library@
                    == runtime.onnx.library@ && x.num_threads == o.num_threads,
            },
        },
{
    validate_model_adapter(model, ProviderKind::Vad)?;
    let options = match &config.silero_onnx {
        Some(o) => o,
        None => {
            return Err(
                ProviderLoadError::Configuration("silero_onnx options are required".to_owned()),
            )
        },
    };
    let model_path = required(model, "vad")?;
    Ok(
        SileroRecipe {
            model_path,
            onnx_library: runtime.onnx.library.clone(),
            num_threads: options.num_threads,
        },
    )
}

/// What the Zipformer recognizer is configured with.
#[derive(Clone, Debug, PartialEq, Eq)]
pub struct ZipformerRecipe {
    pub encoder: String,
    pub decoder: String,
    pub joiner: String,
    pub tokens: String,
    pub num_threads: i32,
    pub decoding_method: String,
}

/// Checks a Zipformer ASR build: the model must be for this adapter, options must be
/// configured, and the encoder, decoder, joiner and tokens resolved, in that order.
pub fn zipformer_recipe(config: &AsrProviderConfig, model: &ResolvedModel) -> (r: Result<ZipformerRecipe, ProviderLoadError>)
    ensures
        model.spec_adapter() != compiled_adapter_name(ProviderKind::Asr) ==> (r matches Err(e)
            && mismatch_error(e, *model, ProviderKind::Asr)),
        model.spec_adapter() == compiled_adapter_name(ProviderKind::Asr) ==> match config.zipformer_sherpa {
            None => r matches Err(e) && configuration_error(
                e,
                "zipformer_sherpa options are required"@,
            ),
            Some(o) => {
                let a = model.spec_artifacts();
                match (
                    resolved_artifact_path(a, "encoder"@),
                    resolved_artifact_path(a, "decoder"@),
                    resolved_artifact_path(a, "joiner"@),
                    resolved_artifact_path(a, "tokens"@),
                ) {
                    (None, _, _, _) => r matches Err(e) && missing_error(e, "encoder"@),
                    (Some(_), None, _, _) => r matches Err(e) && missing_error(e, "decoder"@),
                    (Some(_), Some(_), None, _) => r matches Err(e) && missing_error(e, "joiner"@),
                    (Some(_), Some(_), Some(_), None) => r matches Err(e) && missing_error(
                        e,
                        "tokens"@,
                    ),
                    (Some(enc), Some(dec), Some(joi), Some(tok)) => r matches Ok(x) && x.encoder@
                        == enc && x.decoder@ == dec && x.joiner@ == joi && x.tokens@ == tok
                        && x.num_threads == o.num_threads && x.decoding_method@
                        == o.decoding_method@,
                }
            },
        },
{
    validate_model_adapter(model, ProviderKind::Asr)?;
    let options = match &config.zipformer_sherpa {
        Some(o) => o,
        None => {
            return Err(
                ProviderLoadError::Configuration(
                    "zipformer_sherpa options are required".to_owned(),
                ),
            )
        },
    };
    let encoder = required(model, "encoder")?;
    let decoder = required(model, "decoder")?;
    let joiner = required(model, "joiner")?;
    let tokens = required(model, "tokens")?;
    Ok(
        ZipformerRecipe {
            encoder,
            decoder,
            joiner,
            tokens,
            num_threads: options.num_threads,
            decoding_method: options.decoding_method.clone(),
        },
    )
}

/// What the OpenAI client is built with.
#[derive(Clone, Debug, PartialEq, Eq)]
pub struct OpenAiRecipe<'a> {
    pub api_key: &'a str,
    pub base_url: &'a str,
    pub model: &'a str,
    pub timeout_seconds: u64,
}

/// `ms` in whole seconds, rounded up.
pub open spec fn seconds_rounded_up(ms: u64) -> int {
    (ms + 999) / 1000
}

/// Checks an OpenAI LLM build: options must be configured and the model non-blank; the
/// timeout is passed in whole seconds, rounded up.
pub fn openai_recipe(config: &LlmProviderConfig) -> (r: Result<OpenAiRecipe<'_>, ProviderLoadError>)
    ensures
        match config.openai {
            None => r matches Err(e) && configuration_error(e, "openai options are required"@),
            Some(o) => if trim(o.model@).len() == 0 {
                r matches Err(e) && configuration_error(e, "OpenAI model is required"@)
            } else {
                r matches Ok(x) && x.api_key@ == o.api_key.spec_exposed() && x.base_url@
                    == o.base_url.text@ && x.model@ == o.model@ && x.timeout_seconds
                    == seconds_rounded_up(o.timeout_ms)
            },
        },
{
    let options = match &config.openai {
        Some(o) => o,
        None => {
            return Err(ProviderLoadError::Configuration("openai options are required".to_owned()))
        },
    };
    if trim_chars(&chars_of(options.model.as_str())).len() == 0 {
        return Err(ProviderLoadError::Configuration("OpenAI model is required".to_owned()));
    }
    let ms = options.timeout_ms;
    let timeout_seconds = ms / 1000 + if ms % 1000 != 0 {
        1
    } else {
        0
    };
    Ok(
        OpenAiRecipe {
            api_key: options.api_key.expose(),
            base_url: options.base_url.text.as_str(),
            model: options.model.as_str(),
            timeout_seconds,
        },
    )
}

/// The artifact roles ZeroTTS needs, in the order they are checked.
pub open spec fn zerotts_roles() -> Seq<Seq<char>> {
    seq![
        "config"@,
        "tokenizer"@,
        "null_voice"@,
        "voices_index"@,
        "voice"@,
        "text_encoder"@,
        "prefix_step"@,
        "local_frame_decode"@,
        "codec_decode_full"@,
        "codec_decode_step"@,
        "codec_shared_data"@,
        "codec_metadata"@,
        "codec_license"@,
        "silence_frame"@,
    ]
}

/// The first of `roles` the model does not resolve.
pub open spec fn first_missing(a: Seq<(Seq<char>, Seq<char>)>, roles: Seq<Seq<char>>) -> Option<Seq<char>>
    decreases roles.len(),
{
    if roles.len() == 0 {
        None
    } else if resolved_artifact_path(a, roles[0]) is None {
        Some(roles[0])
    } else {
        first_missing(a, roles.drop_first())
    }
}

pub proof fn lemma_first_missing_none(a: Seq<(Seq<char>, Seq<char>)>, roles: Seq<Seq<char>>)
    requires
        first_missing(a, roles) is None,
    ensures
        forall|i: int| 0 <= i < roles.len() ==> #[trigger] resolved_artifact_path(a, roles[i]) is Some,
    decreases roles.len(),
{
    if roles.len() > 0 {
        lemma_first_missing_none(a, roles.drop_first());
        assert forall|i: int| 0 <= i < roles.len() implies #[trigger] resolved_artifact_path(a, roles[i]) is Some by {
            if i > 0 {
                assert(roles[i] == roles.drop_first()[i - 1]);
            }
        }
    }
}

/// The files and options the ZeroTTS runtime is loaded with.
#[derive(Clone, Debug, PartialEq, Eq)]
pub struct ZeroTtsRecipe {
    pub config: String,
    pub tokenizer: String,
    pub voice: String,
    pub text_encoder: String,
    pub prefix_step: String,
    pub local_frame_decode: String,
    pub codec_decode_full: String,
    pub codec_decode_step: String,
    pub codec_shared_data: String,
    pub codec_metadata: String,
    pub silence_frame: String,
    pub onnx_library: String,
    pub num_threads: i32,
    pub delivery_mode: ZeroTtsDeliveryMode,
}

/// The path a resolved role maps to.
pub open spec fn role_path(model: ResolvedModel, role: Seq<char>) -> Seq<char> {
    resolved_artifact_path(model.spec_artifacts(), role).unwrap()
}

/// Checks a ZeroTTS build: the model must be for this adapter, the configuration must name
/// model `zerotts_default`, voice `maichi` and a positive thread count, the resolved model
/// must be that model, and every required role must resolve.
pub fn zerotts_recipe(config: &ZeroTtsOnnxConfig, runtime: &RuntimeConfig, model: &ResolvedModel) -> (r: Result<ZeroTtsRecipe, ProviderLoadError>)
    ensures
        model.spec_adapter() != compiled_adapter_name(ProviderKind::Tts) ==> (r matches Err(e)
            && mismatch_error(e, *model, ProviderKind::Tts)),
        model.spec_adapter() == compiled_adapter_name(ProviderKind::Tts) ==> if !(config.model@
            == "zerotts_default"@ && config.voice@ == "maichi"@ && config.num_threads > 0) {
            r matches Err(e) && configuration_error(
                e,
                "ZeroTTS requires model `zerotts_default`, voice `maichi`, and positive thread count"@,
            )
        } else if model.spec_identity() != config.model@ {
            r matches Err(e) && configuration_error(
                e,
                "ZeroTTS resolved model does not match configured logical model"@,
            )
        } else {
            match first_missing(model.spec_artifacts(), zerotts_roles()) {
                Some(role) => r matches Err(e) && missing_error(e, role),
                None => r matches Ok(x) && x.config@ == role_path(*model, "config"@)
                    && x.tokenizer@ == role_path(*model, "tokenizer"@) && x.voice@ == role_path(
                    *model,
                    "voice"@,
                ) && x.text_encoder@ == role_path(*model, "text_encoder"@) && x.prefix_step@
                    == role_path(*model, "prefix_step"@) && x.local_frame_decode@ == role_path(
                    *model,
                    "local_frame_decode"@,
                ) && x.codec_decode_full@ == role_path(*model, "codec_decode_full"@)
                    && x.codec_decode_step@ == role_path(*model, "codec_decode_step"@)
                    && x.codec_shared_data@ == role_path(*model, "codec_shared_data"@)
                    && x.codec_metadata@ == role_path(*model, "codec_metadata"@)
                    && x.silence_frame@ == role_path(*model, "silence_frame"@) && x.onnx_library@
                    == runtime.onnx.library@ && x.num_threads == config.num_threads
                    && x.delivery_mode == config.delivery_mode,
            }
        },
{
    validate_model_adapter(model, ProviderKind::Tts)?;
    if !text_eq(config.model.as_str(), "zerotts_default") || !text_eq(config.voice.as_str(), "maichi")
        || config.num_threads <= 0 {
        return Err(
            ProviderLoadError::Configuration(
                "ZeroTTS requires model `zerotts_default`, voice `maichi`, and positive thread count".to_owned(),
            ),
        );
    }
    if !text_eq(model.identity(), config.model.as_str()) {
        return Err(
            ProviderLoadError::Configuration(
                "ZeroTTS resolved model does not match configured logical model".to_owned(),
            ),
        );
    }
    let roles = vec![
        "config",
        "tokenizer",
        "null_voice",
        "voices_index",
        "voice",
        "text_encoder",
        "prefix_step",
        "local_frame_decode",
        "codec_decode_full",
        "codec_decode_step",
        "codec_shared_data",
        "codec_metadata",
        "codec_license",
        "silence_frame",
    ];
    let ghost all = roles@.map_values(|s: &str| s@);
    assert(all =~= zerotts_roles());
    let mut i: usize = 0;
    assert(all.skip(0) =~= all);
    while i < roles.len()
        invariant
            i <= roles@.len(),
            all == roles@.map_values(|s: &str| s@),
            all == zerotts_roles(),
            model.spec_adapter() == compiled_adapter_name(ProviderKind::Tts),
            config.model@ == "zerotts_default"@ && config.voice@ == "maichi"@ && config.num_threads
                > 0,
            model.spec_identity() == config.model@,
            first_missing(model.spec_artifacts(), all) == first_missing(
                model.spec_artifacts(),
                all.skip(i as int),
            ),
        decreases roles.len() - i,
    {
        assert(all.skip(i as int).drop_first() =~= all.skip(i + 1));
        assert(all.skip(i as int)[0] == roles@[i as int]@);
        required(model, roles[i])?;
        i = i + 1;
    }
    assert(all.skip(i as int).len() == 0);
    proof {
        lemma_first_missing_none(model.spec_artifacts(), all);
        let a = model.spec_artifacts();
        assert(resolved_artifact_path(a, all[1]) is Some);
        assert(resolved_artifact_path(a, all[4]) is Some);
        assert(resolved_artifact_path(a, all[5]) is Some);
        assert(resolved_artifact_path(a, all[6]) is Some);
        assert(resolved_artifact_path(a, all[7]) is Some);
        assert(resolved_artifact_path(a, all[8]) is Some);
        assert(resolved_artifact_path(a, all[9]) is Some);
        assert(resolved_artifact_path(a, all[10]) is Some);
        assert(resolved_artifact_path(a, all[11]) is Some);
        assert(resolved_artifact_path(a, all[13]) is Some);
    }
    let config_path = required(model, "config")?;
    let tokenizer = required(model, "tokenizer")?;
    let voice = required(model, "voice")?;
    let text_encoder = required(model, "text_encoder")?;
    let prefix_step = required(model, "prefix_step")?;
    let local_frame_decode = required(model, "local_frame_decode")?;
    let codec_decode_full = required(model, "codec_decode_full")?;
    let codec_decode_step = required(model, "codec_decode_step")?;
    let codec_shared_data = required(model, "codec_shared_data")?;
    let codec_metadata = required(model, "codec_metadata")?;
    let silence_frame = required(model, "silence_frame")?;
    Ok(
        ZeroTtsRecipe {
            config: config_path,
            tokenizer,
            voice,
            text_encoder,
            prefix_step,
            local_frame_decode,
            codec_decode_full,
            codec_decode_step,
            codec_shared_data,
            codec_metadata,
            silence_frame,
            onnx_library: runtime.onnx.library.clone(),
            num_threads: config.num_threads,
            delivery_mode: config.delivery_mode,
        },
    )
}

} // verus!
