//! What can go wrong on the way from a message to its payload.

use vstd::prelude::*;
use crate::message::compression::MessageCompression;

verus! {

/// The failures of the library.
#[derive(Debug, PartialEq, Eq)]
pub enum Error {
    /// A logger could not be made, because the local hostname could not be
    /// determined.
    LoggerCreateFailed,
    /// A message could not be rendered: it holds an additional field whose
    /// name stands for a reserved GELF field. The name is kept.
    EncodingFailed(String),
    /// The encoder or the decoder of the given compression failed.
    CompressionFailed(MessageCompression),
}

} // verus!
