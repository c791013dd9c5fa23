use vstd::prelude::*;

verus! {

/// The SHA-256 digest of the UTF-8 encoding of a passphrase.
pub uninterp spec fn sha256_of(passphrase: Seq<char>) -> Seq<u8>;

/// A 32-byte symmetric key, derived from a passphrase and never persisted.
pub struct SymmetricKey {
    pub bytes: [u8; 32],
}

impl View for SymmetricKey {
    type V = Seq<u8>;

    open spec fn view(&self) -> Seq<u8> {
        self.bytes@
    }
}

/// Relies on ring::digest::Context with SHA256: the digest of the input's
/// UTF-8 bytes, 32 bytes long and a function of the input alone.
#[verifier::external_body]
fn sha256_utf8(passphrase: &str) -> (digest: [u8; 32])
    ensures
        digest@ == sha256_of(passphrase@),
{
    let mut context = ring::digest::Context::new(&ring::digest::SHA256);
    context.update(passphrase.as_bytes());
    context
        .finish()
        .as_ref()
        .try_into()
        .expect("a SHA-256 digest is 32 bytes")
}

/// Hash a passphrase down to the fixed-width symmetric key.
pub fn derive_key(passphrase: &str) -> (key: SymmetricKey)
    ensures
        key@ == sha256_of(passphrase@),
        key@.len() == 32,
{
    SymmetricKey { bytes: sha256_utf8(passphrase) }
}

/// Key derivation is deterministic: equal passphrases derive equal keys.
pub proof fn lemma_derive_key_deterministic(p1: Seq<char>, p2: Seq<char>)
    requires
        p1 == p2,
    ensures
        sha256_of(p1) == sha256_of(p2),
{
}

} // verus!
