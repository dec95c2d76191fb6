//! Fixed-point 3-axis coordinate bookkeeping and a streaming emitter that
//! renders positions as textual move commands in the G-code dialect.
//!
//! Coordinates are kept as scaled 64-bit integers (scale factor 2^16) so that
//! repeated addition and subtraction stay exact, each of the three axes being
//! independently optional. A writer owns an abstract text sink and emits one
//! move-command line per call, with a fixed token order and fixed decimal
//! widths.

use vstd::prelude::*;

pub mod position;
pub mod render;
pub mod writer;

pub use crate::position::{GCodeOffset, GCodePosition, FIXED_SCALE};
pub use crate::writer::{GCodeOptions, GCodeSink, GCodeWriter, StringSink};

verus! {

/// The closed set of failure kinds attached to every fallible operation.
#[derive(Clone, Copy, Debug, PartialEq, Eq)]
pub enum GCodeError {
    /// Generic I/O error: the underlying destination failed to accept a write
    /// or a flush.
    IOError,
    /// Value out of range: a scaled value would not fit a 64-bit signed
    /// integer.
    OutOfRangeError,
}

/// `std::io::Error`, which vstd gives no specification, declared so that the
/// error of a failed destination can be converted; the library never looks
/// inside a value of it.
#[verifier::external_type_specification]
#[verifier::external_body]
pub struct ExIoError(std::io::Error);

impl From<std::io::Error> for GCodeError {
    /// Every failure of the underlying destination maps to the generic I/O
    /// error kind.
    fn from(value: std::io::Error) -> (r: Self)
        ensures
            r == GCodeError::IOError,
    {
        GCodeError::IOError
    }
}

impl vstd::std_specs::convert::FromSpecImpl<std::io::Error> for GCodeError {
    open spec fn obeys_from_spec() -> bool {
        true
    }

    open spec fn from_spec(v: std::io::Error) -> GCodeError {
        GCodeError::IOError
    }
}

impl GCodeError {
    /// A human-readable name of the error kind.
    pub fn describe(&self) -> (r: String)
        ensures
            self is IOError ==> r@ == "GCodeError::IOError"@,
            self is OutOfRangeError ==> r@ == "GCodeError::OutOfRangeError"@,
    {
        match self {
            GCodeError::IOError => String::from_str("GCodeError::IOError"),
            GCodeError::OutOfRangeError => String::from_str("GCodeError::OutOfRangeError"),
        }
    }
}

} // verus!
