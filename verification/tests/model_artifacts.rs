use voice_agent_server::artifacts::{
    digest_matches, hash, read_varint, sentencepiece_tokens, transform_bytes,
    validate_relative_path,
};
use voice_agent_server::models::{
    install_start, prepared_source, select_model, verify_bytes, Artifact, InstallStart, Model,
    ModelError,
};

fn unsupported(text: &str) -> ModelError {
    ModelError::UnsupportedTransform(text.into())
}

#[test]
fn varint_reads_single_and_multi_byte_values() {
    let mut offset = 0;
    assert_eq!(read_varint(&[0x05], &mut offset), Ok(5));
    assert_eq!(offset, 1);
    let mut offset = 1;
    assert_eq!(read_varint(&[0xff, 0xac, 0x02, 0x07], &mut offset), Ok(300));
    assert_eq!(offset, 3);
}

#[test]
fn varint_refuses_truncated_and_overlong_input() {
    let mut offset = 0;
    assert_eq!(
        read_varint(&[0x80], &mut offset),
        Err(unsupported("sentencepiece_tokens_v1"))
    );
    let mut offset = 0;
    assert_eq!(
        read_varint(&[0xff; 11], &mut offset),
        Err(unsupported("sentencepiece_tokens_v1"))
    );
    assert_eq!(offset, 10);
}

fn piece_record(piece: &[u8]) -> Vec<u8> {
    let mut entry = vec![0x0a, piece.len() as u8];
    entry.extend_from_slice(piece);
    entry.extend_from_slice(&[0x15, 0, 0, 0, 0]);
    let mut record = vec![0x0a, entry.len() as u8];
    record.extend_from_slice(&entry);
    record
}

#[test]
fn sentencepiece_pieces_become_numbered_lines() {
    let mut model = piece_record("▁xin".as_bytes());
    model.extend_from_slice(&[0x12, 0x02, 0x08, 0x01]);
    model.extend_from_slice(&piece_record(b"chao"));
    assert_eq!(
        sentencepiece_tokens(&model).unwrap(),
        "▁xin 0\nchao 1\n".as_bytes()
    );
}

#[test]
fn sentencepiece_refuses_malformed_models() {
    let error = Err(unsupported("sentencepiece_tokens_v1"));
    assert_eq!(sentencepiece_tokens(&[]), error);
    assert_eq!(sentencepiece_tokens(&[0x12, 0x01, 0x00]), error);
    assert_eq!(sentencepiece_tokens(&[0x0a, 0x05, 0x0a]), error);
    assert_eq!(sentencepiece_tokens(&[0x0a, 0x03, 0x12, 0x01, b'a']), error);
    assert_eq!(sentencepiece_tokens(&[0x0a, 0x03, 0x0a, 0x01, 0xff]), error);
}

#[test]
fn declared_transforms() {
    assert_eq!(transform_bytes(vec![1, 2, 3], "identity"), Ok(vec![1, 2, 3]));
    assert_eq!(transform_bytes(vec![1, 2, 3], "strip_prefix:2"), Ok(vec![3]));
    assert_eq!(transform_bytes(vec![1, 2, 3], "strip_prefix:+3"), Ok(vec![]));
    assert_eq!(
        transform_bytes(vec![1, 2, 3], "strip_prefix:4"),
        Err(unsupported("strip_prefix:4"))
    );
    assert_eq!(
        transform_bytes(vec![1, 2, 3], "strip_prefix:x"),
        Err(unsupported("strip_prefix:x"))
    );
    assert_eq!(
        transform_bytes(vec![1], "strip_prefix:"),
        Err(unsupported("strip_prefix:"))
    );
    assert_eq!(transform_bytes(vec![1], "gzip"), Err(unsupported("gzip")));
    assert_eq!(
        transform_bytes(vec![1], "sentencepiece_tokens_v1"),
        Err(unsupported("sentencepiece_tokens_v1"))
    );
}

#[test]
fn sha256_hex_digest() {
    assert_eq!(
        hash(b"abc"),
        "ba7816bf8f01cfea414140de5dae2223b00361a396177a9cb410ff61f20015ad"
    );
    assert!(digest_matches(
        b"",
        "e3b0c44298fc1c149afbf4c8996fb92427ae41e4649b934ca495991b7852b855"
    ));
    assert!(!digest_matches(b"", "E3B0"));
    assert_eq!(
        verify_bytes(b"abc", "00", "models/a.bin"),
        Err(ModelError::HashMismatch {
            path: "models/a.bin".into()
        })
    );
}

#[test]
fn install_paths_must_be_plain_relative() {
    assert_eq!(validate_relative_path("models/vad/silero.onnx"), Ok(()));
    assert_eq!(validate_relative_path("a/./b"), Ok(()));
    assert_eq!(validate_relative_path("a//b/"), Ok(()));
    assert_eq!(validate_relative_path(".hidden/x"), Ok(()));
    for unsafe_path in ["/etc/passwd", "../x", "a/../b", "./a", ".", "a/.."] {
        assert_eq!(
            validate_relative_path(unsafe_path),
            Err(ModelError::UnsafePath(unsafe_path.into()))
        );
    }
}

fn model(identity: &str, adapter: &str, revision: &str) -> Model {
    Model {
        identity: identity.into(),
        adapter: adapter.into(),
        source: "hf".into(),
        revision: revision.into(),
        license: "MIT".into(),
        artifacts: Vec::new(),
    }
}

#[test]
fn first_matching_manifest_model_is_selected() {
    let models = vec![
        model("vad", "other", "1"),
        model("vad", "silero_onnx", "2"),
        model("vad", "silero_onnx", "3"),
    ];
    let chosen = select_model(models.clone(), "vad", "silero_onnx").unwrap();
    assert_eq!(chosen.revision, "2");
    assert_eq!(
        select_model(models, "asr", "silero_onnx").unwrap_err(),
        ModelError::UnknownModel("asr".into())
    );
}

fn artifact(source: &[u8], installed: &[u8], transform: &str) -> Artifact {
    Artifact {
        role: "model".into(),
        remote: "https://example.invalid/model.bin".into(),
        install_path: "silero/model.onnx".into(),
        source_sha256: hash(source),
        sha256: hash(installed),
        transform: transform.into(),
    }
}

#[test]
fn a_verified_install_is_kept_and_offline_refuses_fetching() {
    let a = artifact(b"source", b"installed", "identity");
    assert_eq!(install_start(&a, Some(b"installed"), true), InstallStart::UseInstalled);
    assert_eq!(install_start(&a, Some(b"stale"), false), InstallStart::Fetch);
    assert_eq!(install_start(&a, None, false), InstallStart::Fetch);
    assert_eq!(
        install_start(&a, None, true),
        InstallStart::Refused(ModelError::Offline("silero/model.onnx".into()))
    );
}

#[test]
fn fetched_sources_are_checked_then_transformed() {
    let a = artifact(b"\x01\x02\x03", b"\x02\x03", "strip_prefix:1");
    assert_eq!(prepared_source(&a, b"\x01\x02\x03".to_vec(), "/m/model.onnx.part"), Ok(b"\x02\x03".to_vec()));
    assert_eq!(
        prepared_source(&a, b"tampered".to_vec(), "/m/model.onnx.part"),
        Err(ModelError::HashMismatch { path: "/m/model.onnx.part".into() })
    );
    let odd = artifact(b"abc", b"abc", "rot13");
    assert_eq!(prepared_source(&odd, b"abc".to_vec(), "p"), Err(unsupported("rot13")));
    assert_eq!(verify_bytes(b"\x02\x03", &a.sha256, "/m/model.onnx.transform"), Ok(()));
}
