use vstd::prelude::*;

verus! {

/// The failures the codec pipeline can report.
#[derive(Clone, Copy, Debug, PartialEq, Eq, Structural)]
pub enum PipelineError {
    /// A serialized record does not match its expected structural shape.
    Format,
    /// The integrity tag did not verify: tampering, corruption, or a wrong key.
    Authentication,
    /// The compressed container is malformed or truncated.
    Codec,
    /// The encryption stage failed while assembling an artifact.
    Internal,
}

} // verus!
