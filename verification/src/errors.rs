//! Errors of the framing layer.

use vstd::prelude::*;

verus! {

/// Declares `std::io::Error` to the verifier so that it can travel through
/// results; relied on only as an opaque value handed back by a failed read
/// or write.
#[verifier::external_type_specification]
#[verifier::external_body]
pub struct ExIoError(std::io::Error);

/// An error returned by a decode or encode call.
#[derive(Debug)]
pub enum PcapError {
    /// Slice decode ran out of bytes; the payload is the exact number of
    /// additional bytes needed.  The caller may buffer more input and retry
    /// the same call from the start.
    IncompleteBuffer(usize),
    /// A structural invariant of the wire format is violated: a misaligned
    /// or too small length, disagreeing leading and trailing lengths, or an
    /// unrecognized section-header magic number.  Fatal for the block.
    InvalidField(&'static str),
    /// An underlying read or write failed; fatal for the current attempt.
    Io(std::io::Error),
}

} // verus!
