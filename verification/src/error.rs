//! The error type used throughout this crate.

use vstd::prelude::*;
use crate::flags::UnsafeMmapFlags;

verus! {

/// What went wrong while decoding a kernel-exposed region record.
#[derive(Clone, Copy, Debug, PartialEq, Eq, Structural)]
pub enum DecodeKind {
    /// A numeric field could not be decoded.
    Number,
    /// A text field, such as a backing path, held malformed bytes.
    Text,
    /// A record was shorter than its declared or required length.
    Truncated,
}

/// The error type.
///
/// Terminal and transition operations surface the first failing
/// operating-system call as [`Error::Io`]; enumerators surface a malformed
/// kernel record as [`Error::Decode`] on the affected item rather than
/// ending the sequence; a gated operation invoked without its attestation
/// fails with [`Error::UnsafeFlagNeeded`]; and an enumeration primitive
/// that reports an unexpected fatal status surfaces it as
/// [`Error::PlatformFault`].
#[derive(Clone, Copy, Debug, PartialEq, Eq, Structural)]
pub enum Error {
    /// The given set of unsafe flags must be attested to call this function.
    UnsafeFlagNeeded(UnsafeMmapFlags),
    /// An operating-system call failed; the payload is its error number.
    Io(i32),
    /// A kernel-exposed region record could not be decoded.
    Decode(DecodeKind),
    /// An opaque platform status code that is not an expected
    /// "no more data" signal.
    PlatformFault(i32),
}

} // verus!
