//! Why a field or a packet could not be built.
use vstd::prelude::*;

verus! {

/// A validation failure. None of them is retried or recovered internally.
#[derive(Debug, Clone, Copy, PartialEq, Eq, Structural)]
pub enum SPPError {
    /// The data field is longer than the largest data field.
    MaxDataSizeExedded,
    /// The data field is shorter than one octet, or no user data was given.
    MinDataLen,
    /// The application process identifier is not 11 bits long; holds the
    /// length that was given.
    APIDLenMismatch(usize),
    /// The sequence count or packet name is not 14 bits long.
    SequenceControlLenMismatch,
    /// The identification announces a secondary header, but none, or an empty
    /// one, was given.
    SecondaryHeaderNotPresent,
    /// The identification or the sequence control was not given.
    MandatoryFieldNotPresent,
}

} // verus!
