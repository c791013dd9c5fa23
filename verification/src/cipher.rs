use vstd::prelude::*;

use serde_encrypt::encrypt::plain_message_shared_key::PlainMessageSharedKey;
use serde_encrypt::shared_key::SharedKey;
use serde_encrypt::EncryptedMessage;
use serde_encrypt_core::encrypt::plain_message_shared_key::PlainMessageSharedKeyCore;

use crate::error::PipelineError;
use crate::key::SymmetricKey;

verus! {

/// The nonce that prefixes a serialized sealed message.
pub const NONCE_LEN: usize = 24;

/// The authentication tag appended to the ciphertext.
pub const TAG_LEN: usize = 16;

/// What decrypting a sealed message under a key yields: the plaintext when
/// the integrity tag verifies, nothing otherwise; a function of the key and
/// the message bytes alone.
pub uninterp spec fn decrypt_of(key: Seq<u8>, message: Seq<u8>) -> Option<Seq<u8>>;

/// Relies on serde_encrypt's shared-key encryption (XChaCha20-Poly1305): the
/// serialized message is a fresh 24-byte nonce followed by the ciphertext and
/// its 16-byte tag, and decrypting it under the same key returns exactly the
/// plaintext.
#[verifier::external_body]
fn encrypt_bytes(key: &SymmetricKey, plaintext: &[u8]) -> (r: Result<Vec<u8>, PipelineError>)
    ensures
        match r {
            Ok(message) => message@.len() == plaintext@.len() + NONCE_LEN + TAG_LEN
                && decrypt_of(key@, message@) == Some(plaintext@),
            Err(e) => e == PipelineError::Internal,
        },
{
    let shared_key = SharedKey::new(key.bytes);
    let plain = PlainMessageSharedKey::new(plaintext.to_vec());
    match plain.encrypt(&shared_key) {
        Ok(message) => Ok(message.serialize()),
        Err(_) => Err(PipelineError::Internal),
    }
}

/// Relies on serde_encrypt's EncryptedMessage::deserialize, which rejects
/// exactly the inputs shorter than the 24-byte nonce, and on
/// XChaCha20-Poly1305 decryption, which verifies the tag before returning
/// any plaintext.
#[verifier::external_body]
fn decrypt_bytes(key: &SymmetricKey, message: &[u8]) -> (r: Result<Vec<u8>, PipelineError>)
    ensures
        match r {
            Ok(plaintext) => message@.len() >= NONCE_LEN
                && decrypt_of(key@, message@) == Some(plaintext@),
            Err(e) => if message@.len() < NONCE_LEN {
                e == PipelineError::Format
            } else {
                decrypt_of(key@, message@) is None && e == PipelineError::Authentication
            },
        },
{
    let parsed = match EncryptedMessage::deserialize(message.to_vec()) {
        Ok(m) => m,
        Err(_) => return Err(PipelineError::Format),
    };
    let shared_key = SharedKey::new(key.bytes);
    match PlainMessageSharedKey::decrypt(&parsed, &shared_key) {
        Ok(plain) => Ok(plain.into_vec()),
        Err(_) => Err(PipelineError::Authentication),
    }
}

/// Encrypt a plaintext under a symmetric key into one self-contained sealed
/// message, nonce and tag included.
pub fn encrypt(key: &SymmetricKey, plaintext: &[u8]) -> (r: Result<Vec<u8>, PipelineError>)
    ensures
        match r {
            Ok(message) => message@.len() == plaintext@.len() + NONCE_LEN + TAG_LEN
                && decrypt_of(key@, message@) == Some(plaintext@),
            Err(e) => e == PipelineError::Internal,
        },
{
    encrypt_bytes(key, plaintext)
}

/// Decrypt a sealed message, authenticating it first: a message without a
/// full nonce is malformed, and one whose tag does not verify is rejected
/// without returning any plaintext.
pub fn decrypt(key: &SymmetricKey, message: &[u8]) -> (r: Result<Vec<u8>, PipelineError>)
    ensures
        match r {
            Ok(plaintext) => message@.len() >= NONCE_LEN
                && decrypt_of(key@, message@) == Some(plaintext@),
            Err(e) => if message@.len() < NONCE_LEN {
                e == PipelineError::Format
            } else {
                decrypt_of(key@, message@) is None && e == PipelineError::Authentication
            },
        },
{
    decrypt_bytes(key, message)
}

} // verus!
