use mlvm::errors::ErrorKind;
use mlvm::extract::{prepare_payload, ArchiveKind, Unpackable};
use mlvm::Runtime;

#[test]
fn zip_payload_passes_through() {
    let bytes = vec![0x50u8, 0x4b, 0x03, 0x04, 9, 9];
    match prepare_payload(bytes.clone(), ArchiveKind::Zip, Runtime::Bun, "v1.0.0").unwrap() {
        Unpackable::Zip { bytes: b } => assert_eq!(b, bytes),
        other => panic!("wrong payload shape: {:?}", other),
    }
}

#[test]
fn tar_gz_payload_passes_through() {
    let bytes = vec![0x1fu8, 0x8b, 8, 0, 1, 2, 3];
    match prepare_payload(bytes.clone(), ArchiveKind::TarGz, Runtime::Node, "v18.17.1").unwrap() {
        Unpackable::TarGz { bytes: b } => assert_eq!(b, bytes),
        other => panic!("wrong payload shape: {:?}", other),
    }
}

#[test]
fn zstd_payload_is_decompressed() {
    let plain = b"pretend this is a tar stream".to_vec();
    let frame = zstd::stream::encode_all(&plain[..], 0).unwrap();
    assert_ne!(frame, plain);
    match prepare_payload(frame, ArchiveKind::TarZst, Runtime::Python, "3.11.9").unwrap() {
        Unpackable::Tar { bytes } => assert_eq!(bytes, plain),
        other => panic!("wrong payload shape: {:?}", other),
    }
}

#[test]
fn malformed_zstd_frame_is_a_format_error() {
    let garbage = vec![1u8, 2, 3, 4, 5];
    let e = prepare_payload(garbage, ArchiveKind::TarZst, Runtime::Python, "3.11.9").unwrap_err();
    assert_eq!(e.kind, ErrorKind::Format);
    assert_eq!(e.runtime, Runtime::Python);
    assert_eq!(e.version, "3.11.9");
}
