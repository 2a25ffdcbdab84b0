//! The failure taxonomy: decode errors and encode errors. Neither direction
//! ever substitutes a default value; every failure propagates to the caller.

use vstd::prelude::*;

verus! {

/// A stored value could not be interpreted as the requested host type.
#[derive(Clone, Copy, Debug, PartialEq, Eq, Structural)]
pub enum DecodeError {
    /// The read operation does not match the cell's storage class: the
    /// dedicated misuse error for a decode reaching a cell of the wrong
    /// class. Storage-class coercion is the backend's own business and is
    /// not reimplemented here.
    StorageClassMismatch,
    /// A text cell does not hold valid UTF-8.
    InvalidText,
}

/// The sink rejected a value. The sink modelled here accepts every value, so
/// none of the codecs in this crate ever returns it; it is part of the encode
/// contract for sinks that impose size limits.
#[derive(Clone, Copy, Debug, PartialEq, Eq, Structural)]
pub enum EncodeError {
    /// The sink refused to take the value.
    SinkRejected,
}

} // verus!
