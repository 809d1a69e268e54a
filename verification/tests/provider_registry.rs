use voice_agent_server::config::{
    AsrProviderConfig, LlmProviderConfig, RuntimeConfig, VadProviderConfig, ZeroTtsOnnxConfig,
};
use voice_agent_server::models::ResolvedModel;
use voice_agent_server::providers::{
    AsrError, CapacityLease, ProviderCapacity, ProviderCapacityLimits, ProviderKind,
    ProviderLoadError, VadError,
};
use voice_agent_server::registry::{
    asr_model_identity, openai_recipe, silero_recipe, zerotts_recipe, zipformer_recipe,
};

fn model(identity: &str, adapter: &str, artifacts: &[(&str, &str)]) -> ResolvedModel {
    ResolvedModel::new(
        identity.into(),
        adapter.into(),
        artifacts
            .iter()
            .map(|(role, path)| (role.to_string(), path.to_string()))
            .collect(),
    )
}

#[test]
fn zipformer_factory_rejects_a_resolved_model_missing_a_required_role() {
    let model = model(
        "zipformer_vi_streaming",
        "zipformer_sherpa",
        &[("encoder", "encoder.onnx")],
    );
    let result = zipformer_recipe(&AsrProviderConfig::default(), &model);
    assert!(matches!(result, Err(ProviderLoadError::MissingArtifact(role)) if role == "decoder"));
}

#[test]
fn factories_reject_a_resolved_model_for_another_adapter() {
    let model = model("silero_vad_v5", "silero_onnx", &[]);
    let result = zipformer_recipe(&AsrProviderConfig::default(), &model);
    assert!(matches!(
        result,
        Err(ProviderLoadError::ModelAdapterMismatch { .. })
    ));
}

#[test]
fn zipformer_recipe_takes_every_role() {
    let model = model(
        "zipformer_vi_streaming",
        "zipformer_sherpa",
        &[
            ("tokens", "t.txt"),
            ("joiner", "j.onnx"),
            ("decoder", "d.onnx"),
            ("encoder", "e.onnx"),
        ],
    );
    let recipe = zipformer_recipe(&AsrProviderConfig::default(), &model).unwrap();
    assert_eq!(recipe.encoder, "e.onnx");
    assert_eq!(recipe.decoder, "d.onnx");
    assert_eq!(recipe.joiner, "j.onnx");
    assert_eq!(recipe.tokens, "t.txt");
    assert_eq!(recipe.decoding_method, "greedy_search");
    let mut no_options = AsrProviderConfig::default();
    no_options.zipformer_sherpa = None;
    assert_eq!(
        zipformer_recipe(&no_options, &model),
        Err(ProviderLoadError::Configuration(
            "zipformer_sherpa options are required".into()
        ))
    );
    assert_eq!(
        asr_model_identity(&no_options),
        Err(ProviderLoadError::Configuration(
            "zipformer_sherpa options are required".into()
        ))
    );
    assert_eq!(
        asr_model_identity(&AsrProviderConfig::default()),
        Ok("zipformer_vi_streaming")
    );
}

#[test]
fn silero_recipe_needs_the_vad_artifact() {
    let runtime = RuntimeConfig::default();
    let missing = model("silero_vad_v5", "silero_onnx", &[]);
    assert_eq!(
        silero_recipe(&VadProviderConfig::default(), &runtime, &missing),
        Err(ProviderLoadError::MissingArtifact("vad".into()))
    );
    let present = model("silero_vad_v5", "silero_onnx", &[("vad", "silero.onnx")]);
    let recipe = silero_recipe(&VadProviderConfig::default(), &runtime, &present).unwrap();
    assert_eq!(recipe.model_path, "silero.onnx");
    assert_eq!(recipe.onnx_library, runtime.onnx.library);
    let wrong = model("silero_vad_v5", "zerotts_onnx", &[]);
    assert_eq!(
        silero_recipe(&VadProviderConfig::default(), &runtime, &wrong),
        Err(ProviderLoadError::ModelAdapterMismatch {
            model: "silero_vad_v5".into(),
            expected: ProviderKind::Vad,
            actual: "zerotts_onnx".into()
        })
    );
}

#[test]
fn openai_timeout_is_rounded_up_to_seconds() {
    let mut config = LlmProviderConfig::default();
    config.openai.as_mut().unwrap().timeout_ms = 1_001;
    assert_eq!(openai_recipe(&config).unwrap().timeout_seconds, 2);
    config.openai.as_mut().unwrap().timeout_ms = 3_000;
    assert_eq!(openai_recipe(&config).unwrap().timeout_seconds, 3);
    config.openai.as_mut().unwrap().model = "  ".into();
    assert_eq!(
        openai_recipe(&config),
        Err(ProviderLoadError::Configuration("OpenAI model is required".into()))
    );
    config.openai = None;
    assert_eq!(
        openai_recipe(&config),
        Err(ProviderLoadError::Configuration("openai options are required".into()))
    );
}

#[test]
fn zerotts_needs_its_configuration_and_all_roles() {
    let runtime = RuntimeConfig::default();
    let roles = [
        "config",
        "tokenizer",
        "null_voice",
        "voices_index",
        "voice",
        "text_encoder",
        "prefix_step",
        "local_frame_decode",
        "codec_decode_full",
        "codec_decode_step",
        "codec_shared_data",
        "codec_metadata",
        "codec_license",
        "silence_frame",
    ];
    let artifacts: Vec<(&str, &str)> = roles.iter().map(|role| (*role, *role)).collect();
    let full = model("zerotts_default", "zerotts_onnx", &artifacts);
    let config = ZeroTtsOnnxConfig::default();
    let recipe = zerotts_recipe(&config, &runtime, &full).unwrap();
    assert_eq!(recipe.codec_metadata, "codec_metadata");
    assert_eq!(recipe.silence_frame, "silence_frame");
    let partial = model("zerotts_default", "zerotts_onnx", &artifacts[..12]);
    assert_eq!(
        zerotts_recipe(&config, &runtime, &partial),
        Err(ProviderLoadError::MissingArtifact("codec_license".into()))
    );
    let other = model("zerotts_other", "zerotts_onnx", &artifacts);
    assert_eq!(
        zerotts_recipe(&config, &runtime, &other),
        Err(ProviderLoadError::Configuration(
            "ZeroTTS resolved model does not match configured logical model".into()
        ))
    );
    let mut bad = ZeroTtsOnnxConfig::default();
    bad.voice = "other".into();
    assert!(matches!(
        zerotts_recipe(&bad, &runtime, &full),
        Err(ProviderLoadError::Configuration(_))
    ));
}

#[test]
fn provider_capacity_refuses_beyond_its_limits_and_recovers_on_release() {
    let mut capacity = ProviderCapacity::new(ProviderCapacityLimits { max_asr_streams: 1, max_vad_sessions: 2 });
    assert_eq!(capacity.acquire_asr(), Ok(CapacityLease::Asr));
    assert_eq!(
        capacity.acquire_asr(),
        Err(AsrError::Failed("ASR stream capacity exhausted".into()))
    );
    assert_eq!(capacity.acquire_vad(), Ok(CapacityLease::Vad));
    assert_eq!(capacity.acquire_vad(), Ok(CapacityLease::Vad));
    assert_eq!(
        capacity.acquire_vad(),
        Err(VadError::Failed("VAD session capacity exhausted".into()))
    );
    assert_eq!(capacity.held(CapacityLease::Asr), 1);
    assert_eq!(capacity.held(CapacityLease::Vad), 2);
    capacity.release(CapacityLease::Asr);
    assert_eq!(capacity.held(CapacityLease::Asr), 0);
    assert_eq!(capacity.acquire_asr(), Ok(CapacityLease::Asr));
    let mut none = ProviderCapacity::new(ProviderCapacityLimits { max_asr_streams: 0, max_vad_sessions: 0 });
    assert!(none.acquire_asr().is_err());
    assert!(none.acquire_vad().is_err());
    assert_eq!(ProviderCapacityLimits::default(), ProviderCapacityLimits { max_asr_streams: 8, max_vad_sessions: 8 });
}
