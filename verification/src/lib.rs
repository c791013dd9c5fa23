//! Compress-then-encrypt codec: a passphrase-derived key seals a compressed,
//! enveloped payload into one authenticated artifact, and opens it back.

pub mod cipher;
pub mod compressor;
pub mod envelope;
pub mod error;
pub mod key;
pub mod pipeline;
