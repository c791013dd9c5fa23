use vstd::prelude::*;

use crate::error::PipelineError;

verus! {

/// The typed record that is serialized and then encrypted; its one field
/// holds a compressed payload.
#[derive(Debug)]
pub struct Envelope {
    pub content: Vec<u8>,
}

impl View for Envelope {
    type V = Seq<u8>;

    open spec fn view(&self) -> Seq<u8> {
        self.content@
    }
}

/// The value of 8 bytes read as a little-endian 64-bit integer.
pub open spec fn le64(b: Seq<u8>) -> u64
    recommends
        b.len() >= 8,
{
    (b[0] as u64) | ((b[1] as u64) << 8) | ((b[2] as u64) << 16) | ((b[3] as u64) << 24)
        | ((b[4] as u64) << 32) | ((b[5] as u64) << 40) | ((b[6] as u64) << 48)
        | ((b[7] as u64) << 56)
}

/// A 64-bit value written as 8 little-endian bytes.
pub open spec fn le64_bytes(n: u64) -> Seq<u8> {
    seq![
        (n & 0xff) as u8,
        ((n >> 8) & 0xff) as u8,
        ((n >> 16) & 0xff) as u8,
        ((n >> 24) & 0xff) as u8,
        ((n >> 32) & 0xff) as u8,
        ((n >> 40) & 0xff) as u8,
        ((n >> 48) & 0xff) as u8,
        ((n >> 56) & 0xff) as u8,
    ]
}

/// Reading the little-endian bytes of a value back gives the value.
pub proof fn lemma_le64_round_trip(n: u64)
    ensures
        le64(le64_bytes(n)) == n,
{
    assert(((n & 0xff) as u8 as u64) | ((((n >> 8) & 0xff) as u8 as u64) << 8)
        | ((((n >> 16) & 0xff) as u8 as u64) << 16) | ((((n >> 24) & 0xff) as u8 as u64) << 24)
        | ((((n >> 32) & 0xff) as u8 as u64) << 32) | ((((n >> 40) & 0xff) as u8 as u64) << 40)
        | ((((n >> 48) & 0xff) as u8 as u64) << 48) | ((((n >> 56) & 0xff) as u8 as u64) << 56)
        == n) by (bit_vector);
}

/// A serialized envelope: the content's length as 8 little-endian bytes,
/// then the content itself.
pub open spec fn env_encode(content: Seq<u8>) -> Seq<u8> {
    le64_bytes(content.len() as u64) + content
}

/// What deserializing yields: the content, exactly when the length prefix
/// accounts for every remaining byte.
pub open spec fn env_decode(bytes: Seq<u8>) -> Option<Seq<u8>> {
    if bytes.len() >= 8 && le64(bytes.subrange(0, 8)) == (bytes.len() - 8) as u64 {
        Some(bytes.subrange(8, bytes.len() as int))
    } else {
        None
    }
}

/// Serializing an envelope and deserializing the bytes is lossless.
pub proof fn lemma_envelope_round_trip(content: Seq<u8>)
    requires
        content.len() <= u64::MAX,
    ensures
        env_decode(env_encode(content)) == Some(content),
{
    let bytes = env_encode(content);
    lemma_le64_round_trip(content.len() as u64);
    assert(bytes.subrange(0, 8) =~= le64_bytes(content.len() as u64));
    assert(bytes.subrange(8, bytes.len() as int) =~= content);
}

/// Wrap a compressed payload in the typed envelope record.
pub fn wrap(payload: Vec<u8>) -> (env: Envelope)
    ensures
        env@ == payload@,
{
    Envelope { content: payload }
}

/// Serialize an envelope into its length-prefixed byte form.
pub fn serialize_envelope(env: Envelope) -> (bytes: Vec<u8>)
    ensures
        bytes@ == env_encode(env@),
{
    let n = env.content.len() as u64;
    let mut bytes: Vec<u8> = Vec::new();
    bytes.push((n & 0xff) as u8);
    bytes.push(((n >> 8) & 0xff) as u8);
    bytes.push(((n >> 16) & 0xff) as u8);
    bytes.push(((n >> 24) & 0xff) as u8);
    bytes.push(((n >> 32) & 0xff) as u8);
    bytes.push(((n >> 40) & 0xff) as u8);
    bytes.push(((n >> 48) & 0xff) as u8);
    bytes.push(((n >> 56) & 0xff) as u8);
    let mut content = env.content;
    bytes.append(&mut content);
    proof {
        assert(bytes@ =~= env_encode(env@));
    }
    bytes
}

/// Deserialize an envelope, rejecting any byte sequence that is not exactly
/// a length-prefixed content.
pub fn deserialize_envelope(bytes: &[u8]) -> (r: Result<Envelope, PipelineError>)
    ensures
        match r {
            Ok(env) => env_decode(bytes@) == Some(env@),
            Err(e) => env_decode(bytes@) is None && e == PipelineError::Format,
        },
{
    if bytes.len() < 8 {
        return Err(PipelineError::Format);
    }
    let n: u64 = (*vstd::slice::slice_index_get(bytes, 0) as u64)
        | ((*vstd::slice::slice_index_get(bytes, 1) as u64) << 8)
        | ((*vstd::slice::slice_index_get(bytes, 2) as u64) << 16)
        | ((*vstd::slice::slice_index_get(bytes, 3) as u64) << 24)
        | ((*vstd::slice::slice_index_get(bytes, 4) as u64) << 32)
        | ((*vstd::slice::slice_index_get(bytes, 5) as u64) << 40)
        | ((*vstd::slice::slice_index_get(bytes, 6) as u64) << 48)
        | ((*vstd::slice::slice_index_get(bytes, 7) as u64) << 56);
    proof {
        assert(bytes@.subrange(0, 8) =~= seq![
            bytes@[0], bytes@[1], bytes@[2], bytes@[3],
            bytes@[4], bytes@[5], bytes@[6], bytes@[7],
        ]);
    }
    let rest = bytes.len() - 8;
    if n != rest as u64 {
        return Err(PipelineError::Format);
    }
    let content = vstd::slice::slice_to_vec(vstd::slice::slice_subrange(bytes, 8, bytes.len()));
    Ok(Envelope { content })
}

} // verus!
