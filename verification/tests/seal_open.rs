use sealpack::cipher::encrypt;
use sealpack::compressor::encode;
use sealpack::envelope::{serialize_envelope, wrap};
use sealpack::error::PipelineError;
use sealpack::key::derive_key;
use sealpack::pipeline::{open, seal, seal_with_level};

fn pseudo_random_bytes(n: usize, seed: u64) -> Vec<u8> {
    let mut state = seed;
    let mut out = Vec::with_capacity(n);
    for _ in 0..n {
        state = state
            .wrapping_mul(6364136223846793005)
            .wrapping_add(1442695040888963407);
        out.push((state >> 33) as u8);
    }
    out
}

#[test]
fn round_trip_ascii() {
    let x = b"the quick brown fox jumps over the lazy dog";
    let artifact = seal(x, "a passphrase").unwrap();
    assert_eq!(open(&artifact, "a passphrase").unwrap(), x.to_vec());
}

#[test]
fn round_trip_binary_non_utf8() {
    let mut x: Vec<u8> = Vec::new();
    for round in 0..4usize {
        for b in 0..=255u8 {
            x.push(b ^ (round as u8));
        }
    }
    let artifact = seal(&x, "binary safe").unwrap();
    assert_eq!(open(&artifact, "binary safe").unwrap(), x);
}

#[test]
fn round_trip_empty() {
    let artifact = seal(b"", "anything").unwrap();
    assert_eq!(open(&artifact, "anything").unwrap(), Vec::<u8>::new());
}

#[test]
fn round_trip_at_lower_compression_levels() {
    let x = b"compressible compressible compressible data";
    for level in [0u32, 1, 5, 9] {
        let artifact = seal_with_level(x, "p", level).unwrap();
        assert_eq!(open(&artifact, "p").unwrap(), x.to_vec());
    }
}

#[test]
fn round_trip_large_pseudo_random() {
    let x = pseudo_random_bytes(10 * 1024 * 1024, 1);
    let artifact = seal(&x, "correct horse").unwrap();
    // pseudo-random input is incompressible: the artifact stays within the
    // container's block overhead plus the fixed envelope and cipher overhead
    assert!(artifact.len() <= x.len() + x.len() / 16 + 4096);
    assert_eq!(open(&artifact, "correct horse").unwrap(), x);
}

#[test]
fn artifact_size_is_compressed_size_plus_fixed_overhead() {
    let x = pseudo_random_bytes(100_000, 7);
    let artifact = seal(&x, "p").unwrap();
    let compressed = encode(&x);
    // 8-byte envelope prefix, 24-byte nonce, 16-byte tag
    assert_eq!(artifact.len(), compressed.len() + 8 + 24 + 16);
}

#[test]
fn concrete_scenario_hello_world() {
    let x = b"hello world";
    assert_eq!(x.len(), 11);
    let p = "correct horse";
    let artifact = seal(x, p).unwrap();
    assert!(artifact.len() > 0);
    assert_eq!(open(&artifact, p).unwrap(), x.to_vec());
    assert_eq!(
        open(&artifact, "wrong").unwrap_err(),
        PipelineError::Authentication
    );
    let truncated = &artifact[..artifact.len() - 1];
    let e = open(truncated, p).unwrap_err();
    assert!(matches!(
        e,
        PipelineError::Format | PipelineError::Authentication
    ));
}

#[test]
fn tamper_detection_on_every_byte() {
    let p = "correct horse";
    let artifact = seal(b"hello world", p).unwrap();
    for i in 0..artifact.len() {
        let mut tampered = artifact.clone();
        tampered[i] ^= 0xff;
        assert_eq!(
            open(&tampered, p).unwrap_err(),
            PipelineError::Authentication
        );
    }
}

#[test]
fn tamper_detection_single_bit() {
    let p = "correct horse";
    let artifact = seal(b"hello world", p).unwrap();
    let mut tampered = artifact.clone();
    let mid = artifact.len() / 2;
    tampered[mid] ^= 0x01;
    assert_eq!(
        open(&tampered, p).unwrap_err(),
        PipelineError::Authentication
    );
}

#[test]
fn wrong_key_rejection() {
    let artifact = seal(b"secret data", "p1").unwrap();
    assert_eq!(
        open(&artifact, "p2").unwrap_err(),
        PipelineError::Authentication
    );
}

#[test]
fn open_rejects_short_artifact() {
    assert_eq!(open(&[1, 2, 3], "p").unwrap_err(), PipelineError::Format);
    assert_eq!(open(&[], "p").unwrap_err(), PipelineError::Format);
}

#[test]
fn open_rejects_garbage_artifact() {
    assert_eq!(
        open(&[0u8; 64], "p").unwrap_err(),
        PipelineError::Authentication
    );
}

#[test]
fn open_reports_codec_error_for_invalid_container() {
    let k = derive_key("p");
    let envelope_bytes = serialize_envelope(wrap(b"definitely not gzip".to_vec()));
    let artifact = encrypt(&k, &envelope_bytes).unwrap();
    assert_eq!(open(&artifact, "p").unwrap_err(), PipelineError::Codec);
}

#[test]
fn open_reports_format_error_for_invalid_envelope() {
    let k = derive_key("p");
    let artifact = encrypt(&k, b"xyz").unwrap();
    assert_eq!(open(&artifact, "p").unwrap_err(), PipelineError::Format);
}
