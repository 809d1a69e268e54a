use voice_agent_server::config::{
    default_hello_timeout_ms, AppConfig, AudioConfig, AuthConfig, BargeInConfig, ConfigError,
    ConfigRule, DeploymentConfig, LimitsConfig, LlmConfig, ProvidersConfig, RuntimeConfig,
    ServerConfig, SpeechOutputConfig, TtsConfig, WebUrl, WebsocketConfig, WorkersConfig,
    ZeroTtsDeliveryMode, ZeroTtsOnnxConfig,
};

fn shipped(scheme: &str) -> AppConfig {
    AppConfig {
        server: ServerConfig {
            public_ws_url: WebUrl {
                scheme: scheme.to_owned(),
                host: Some("127.0.0.1".to_owned()),
                text: format!("{scheme}://127.0.0.1:8000/ws"),
            },
            hello_timeout_ms: default_hello_timeout_ms(),
        },
        auth: AuthConfig::default(),
        audio: AudioConfig::default(),
        websocket: WebsocketConfig::default(),
        limits: LimitsConfig::default(),
        providers: ProvidersConfig::default(),
        workers: WorkersConfig::default(),
        deployment: DeploymentConfig::default(),
        runtime: RuntimeConfig::default(),
        llm: LlmConfig::default(),
        tts: TtsConfig::default(),
        speech_output: SpeechOutputConfig::default(),
        barge_in: BargeInConfig::default(),
    }
}

#[test]
fn the_shipped_defaults_validate() {
    assert_eq!(shipped("ws").validate(true), Ok(()));
    assert_eq!(shipped("wss").validate(true), Ok(()));
    assert_eq!(
        shipped("http").validate(true),
        Err(ConfigError::Validation(ConfigRule::PublicUrlScheme))
    );
    assert_eq!(
        shipped("ws").validate(false),
        Err(ConfigError::Validation(ConfigRule::VadSegmentation))
    );
    let mut config = shipped("ws");
    config.limits.tts_concurrency = 3;
    assert_eq!(
        config.validate(true),
        Err(ConfigError::Validation(ConfigRule::TtsConcurrency))
    );
}

#[test]
fn stream_delivery_is_default_and_file_remains_selectable() {
    assert_eq!(ZeroTtsDeliveryMode::default(), ZeroTtsDeliveryMode::Stream);
    assert_eq!(
        ZeroTtsOnnxConfig::default().delivery_mode,
        ZeroTtsDeliveryMode::Stream
    );
    let selected = ZeroTtsOnnxConfig {
        delivery_mode: ZeroTtsDeliveryMode::File,
        ..ZeroTtsOnnxConfig::default()
    };
    assert_eq!(selected.delivery_mode, ZeroTtsDeliveryMode::File);
}
