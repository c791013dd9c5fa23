use vstd::prelude::*;

use crate::cipher;
use crate::compressor;
use crate::envelope;
use crate::error::PipelineError;
use crate::key;

verus! {

/// What opening an artifact under a passphrase yields: the original bytes,
/// or the exact failure of the first stage that rejects it — a malformed
/// sealed message or envelope is a format error, a tag that does not verify
/// is an authentication error, a malformed container is a codec error.
pub open spec fn open_spec(artifact: Seq<u8>, passphrase: Seq<char>) -> Result<
    Seq<u8>,
    PipelineError,
> {
    if artifact.len() < cipher::NONCE_LEN {
        Err(PipelineError::Format)
    } else {
        match cipher::decrypt_of(key::sha256_of(passphrase), artifact) {
            Option::None => Err(PipelineError::Authentication),
            Option::Some(envelope_bytes) => match envelope::env_decode(envelope_bytes) {
                Option::None => Err(PipelineError::Format),
                Option::Some(content) => match compressor::gunzip_of(content) {
                    Option::None => Err(PipelineError::Codec),
                    Option::Some(raw) => Ok(raw),
                },
            },
        }
    }
}

/// The round-trip law behind seal: an artifact that decrypts, under a
/// passphrase's key, to the envelope of a container that decompresses to
/// some bytes opens to exactly those bytes.
pub proof fn lemma_open_spec_of_sealed(
    artifact: Seq<u8>,
    passphrase: Seq<char>,
    compressed: Seq<u8>,
    raw: Seq<u8>,
)
    requires
        artifact.len() >= cipher::NONCE_LEN,
        compressed.len() <= u64::MAX,
        cipher::decrypt_of(key::sha256_of(passphrase), artifact) == Some(
            envelope::env_encode(compressed),
        ),
        compressor::gunzip_of(compressed) == Some(raw),
    ensures
        open_spec(artifact, passphrase) == Ok::<Seq<u8>, PipelineError>(raw),
{
    envelope::lemma_envelope_round_trip(compressed);
}

/// Compress, envelope, and encrypt, at the given compression effort: the
/// sealed artifact opens back, under the same passphrase, to exactly the
/// input bytes. Compression and enveloping are total; only the cipher stage
/// can fail, and such a failure is an internal fault, not an input's.
pub fn seal_with_level(raw: &[u8], passphrase: &str, level: u32) -> (r: Result<
    Vec<u8>,
    PipelineError,
>)
    requires
        level <= compressor::MAX_COMPRESSION_LEVEL,
    ensures
        match r {
            Ok(artifact) => open_spec(artifact@, passphrase@) == Ok::<Seq<u8>, PipelineError>(
                raw@,
            ),
            Err(e) => e == PipelineError::Internal,
        },
{
    let derived = key::derive_key(passphrase);
    let compressed = compressor::encode_with_level(raw, level);
    let ghost compressed_view = compressed@;
    let compressed_len = compressed.len();
    let env = envelope::wrap(compressed);
    let envelope_bytes = envelope::serialize_envelope(env);
    match cipher::encrypt(&derived, envelope_bytes.as_slice()) {
        Ok(artifact) => {
            proof {
                // the length of a vector's view fits in usize, so it fits
                // in the 64-bit length prefix
                assert(compressed_view.len() == compressed_len);
                lemma_open_spec_of_sealed(artifact@, passphrase@, compressed_view, raw@);
            }
            Ok(artifact)
        },
        Err(e) => Err(e),
    }
}

/// Seal at maximum compression effort.
pub fn seal(raw: &[u8], passphrase: &str) -> (r: Result<Vec<u8>, PipelineError>)
    ensures
        match r {
            Ok(artifact) => open_spec(artifact@, passphrase@) == Ok::<Seq<u8>, PipelineError>(
                raw@,
            ),
            Err(e) => e == PipelineError::Internal,
        },
{
    seal_with_level(raw, passphrase, compressor::MAX_COMPRESSION_LEVEL)
}

/// Decrypt, authenticate, unwrap, and decompress an artifact: the result is
/// exactly what open_spec states, success and failure alike.
pub fn open(artifact: &[u8], passphrase: &str) -> (r: Result<Vec<u8>, PipelineError>)
    ensures
        match r {
            Ok(raw) => open_spec(artifact@, passphrase@) == Ok::<Seq<u8>, PipelineError>(raw@),
            Err(e) => open_spec(artifact@, passphrase@) == Err::<Seq<u8>, PipelineError>(e),
        },
{
    let derived = key::derive_key(passphrase);
    let envelope_bytes = match cipher::decrypt(&derived, artifact) {
        Ok(p) => p,
        Err(e) => {
            return Err(e);
        },
    };
    let env = match envelope::deserialize_envelope(envelope_bytes.as_slice()) {
        Ok(env) => env,
        Err(e) => {
            return Err(e);
        },
    };
    match compressor::decode(env.content.as_slice()) {
        Ok(raw) => Ok(raw),
        Err(e) => Err(e),
    }
}

} // verus!
