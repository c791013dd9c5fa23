use vstd::prelude::*;

use std::io::Write;

use crate::error::PipelineError;

verus! {

/// The strongest compression effort the encoder accepts.
pub const MAX_COMPRESSION_LEVEL: u32 = 9;

/// What decoding a byte sequence as a multi-member gzip container yields:
/// the concatenated decompressed bytes, or nothing when the container is
/// malformed; a function of the container bytes alone.
pub uninterp spec fn gunzip_of(container: Seq<u8>) -> Option<Seq<u8>>;

/// Relies on bgzip::BGZFWriter: it writes a BGZF container — a sequence of
/// self-delimiting gzip members — that a multi-member gzip decoder
/// decompresses back to exactly the bytes written. Compressing into an
/// in-memory buffer cannot fail: every level up to 9 is a valid deflate
/// level, and the writer's only error source is its output, here a Vec.
/// Because members are self-delimiting, appending any stream that decodes on
/// its own yields a container that decodes to the concatenation.
#[verifier::external_body]
fn bgzf_compress(data: &[u8], level: u32) -> (container: Vec<u8>)
    requires
        level <= 9,
    ensures
        gunzip_of(container@) == Some(data@),
        forall|rest: Seq<u8>|
            gunzip_of(rest) is Some ==> #[trigger] gunzip_of(container@ + rest) == Some(
                data@ + gunzip_of(rest)->Some_0,
            ),
{
    let compression = bgzip::Compression::new(level).expect("levels 0 through 9 are accepted");
    let mut container = Vec::new();
    let mut writer = bgzip::BGZFWriter::new(&mut container, compression);
    writer.write_all(data).expect("writing into a Vec cannot fail");
    writer.close().expect("closing into a Vec cannot fail");
    container
}

/// Relies on flate2::bufread::MultiGzDecoder: it decodes a multi-member gzip
/// container to its concatenated contents and rejects a malformed one; the
/// outcome is a function of the container bytes alone.
#[verifier::external_body]
fn gzip_decompress(container: &[u8]) -> (r: Result<Vec<u8>, PipelineError>)
    ensures
        match r {
            Ok(data) => gunzip_of(container@) == Some(data@),
            Err(e) => gunzip_of(container@) is None && e == PipelineError::Codec,
        },
{
    let mut reader = flate2::bufread::MultiGzDecoder::new(container);
    let mut data = Vec::new();
    match std::io::Read::read_to_end(&mut reader, &mut data) {
        Ok(_) => Ok(data),
        Err(_) => Err(PipelineError::Codec),
    }
}

/// Compress into a self-delimiting container at the given effort; every
/// input, the empty one included, yields a valid container that decodes
/// back to it, and other valid streams may be appended after it.
pub fn encode_with_level(data: &[u8], level: u32) -> (container: Vec<u8>)
    requires
        level <= MAX_COMPRESSION_LEVEL,
    ensures
        gunzip_of(container@) == Some(data@),
        forall|rest: Seq<u8>|
            gunzip_of(rest) is Some ==> #[trigger] gunzip_of(container@ + rest) == Some(
                data@ + gunzip_of(rest)->Some_0,
            ),
{
    bgzf_compress(data, level)
}

/// Compress into a self-delimiting container at maximum effort.
pub fn encode(data: &[u8]) -> (container: Vec<u8>)
    ensures
        gunzip_of(container@) == Some(data@),
        forall|rest: Seq<u8>|
            gunzip_of(rest) is Some ==> #[trigger] gunzip_of(container@ + rest) == Some(
                data@ + gunzip_of(rest)->Some_0,
            ),
{
    encode_with_level(data, MAX_COMPRESSION_LEVEL)
}

/// Decompress a container, rejecting a malformed one.
pub fn decode(container: &[u8]) -> (r: Result<Vec<u8>, PipelineError>)
    ensures
        match r {
            Ok(data) => gunzip_of(container@) == Some(data@),
            Err(e) => gunzip_of(container@) is None && e == PipelineError::Codec,
        },
{
    gzip_decompress(container)
}

} // verus!
