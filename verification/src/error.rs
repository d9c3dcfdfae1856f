use crate::return_code::ReturnCode;
use vstd::prelude::*;

verus! {

/// What can go wrong while building or decoding a protocol value.
#[derive(Clone, Copy, Debug, PartialEq, Eq, Structural)]
pub enum Error {
    /// A domain number outside `1..=16`.
    InvalidDomain,
    /// The provider could not turn a capability bitfield into names; the
    /// status is the one it reported.
    Provider(ReturnCode),
    /// A name that the provider reported is not UTF-8.
    InvalidUtf8,
    /// A payload too long for the two length bytes of a frame.
    PayloadTooLong,
    /// Fewer bytes than the frame they start says it has.
    Truncated,
}

} // verus!
