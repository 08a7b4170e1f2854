//! What can go wrong in an exchange with the sensor.
use crate::message::ParseError;
use vstd::prelude::*;
use vstd::std_specs::convert::FromSpecImpl;

verus! {

/// Why a read of an exact number of bytes failed.
#[derive(Debug, PartialEq, Eq)]
pub enum ReadExactError<E> {
    /// The stream ended before the bytes were complete.
    UnexpectedEof,
    /// The serial interface reported an error.
    Other(E),
}

/// Error type for operations on the SDS011 sensor. `E` is the error type of
/// the serial interface.
#[derive(Debug, PartialEq, Eq)]
pub enum SDS011Error<E> {
    /// A received message could not be decoded.
    ParseError(ParseError),
    /// The serial interface returned an error while reading.
    ReadError(E),
    /// The serial interface returned an error while writing.
    WriteError(E),
    /// Encountered an EOF while reading.
    UnexpectedEof,
    /// The received message was not expected in the current sensor state.
    UnexpectedType,
    /// The requested operation failed.
    OperationFailed,
    /// The given parameters were invalid.
    Invalid,
}

impl<E> From<ParseError> for SDS011Error<E> {
    fn from(error: ParseError) -> (r: Self) {
        SDS011Error::ParseError(error)
    }
}

impl<E> FromSpecImpl<ParseError> for SDS011Error<E> {
    open spec fn obeys_from_spec() -> bool {
        true
    }

    open spec fn from_spec(error: ParseError) -> Self {
        SDS011Error::ParseError(error)
    }
}

} // verus!
