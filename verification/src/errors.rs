use vstd::prelude::*;
use crate::reading::DecodeError;

verus! {

/// Relies on btleplug::Error, the transport's error type: its values are
/// carried through the library's error kinds opaquely, keeping their full
/// diagnostic detail, and are never reinterpreted.
#[verifier::external_type_specification]
#[verifier::external_body]
pub struct ExBtleplugError(btleplug::Error);

/// Failure to set up discovery or passive scanning. `CharacteristicNotFound`
/// carries the text of the identifier that was missing; `BTLEError` carries
/// the underlying transport failure unchanged.
#[derive(Debug)]
pub enum ConnectionError {
    AdapterUnavaliable,
    DeviceNotFound,
    CharacteristicNotFound(String),
    BTLEError(btleplug::Error),
}

/// Failure of a session operation: a payload that could not be decoded, or
/// an underlying transport failure, carried unchanged.
#[derive(Debug)]
pub enum DeviceError {
    IOError(DecodeError),
    BTLEError(btleplug::Error),
}

impl From<DecodeError> for DeviceError {
    /// A decode failure surfaces as the session's `IOError` kind.
    fn from(e: DecodeError) -> (r: DeviceError) {
        DeviceError::IOError(e)
    }
}

impl vstd::std_specs::convert::FromSpecImpl<DecodeError> for DeviceError {
    open spec fn obeys_from_spec() -> bool {
        true
    }

    open spec fn from_spec(e: DecodeError) -> DeviceError {
        DeviceError::IOError(e)
    }
}

} // verus!
