use vstd::prelude::*;

verus! {

/// Everything that can go wrong inside the protocol core. Transport
/// failures stay with the I/O layer that performs the bus calls; the
/// variants here are the protocol's own failure modes.
#[derive(Clone, Copy, Debug, PartialEq, Eq, Structural)]
pub enum BandError {
    /// The device's object tree lacks a required service or characteristic.
    MissingServicesOrChars,
    /// An operation needs resolved characteristics; call `initialize` first.
    NotInitialized,
    /// The device sent a timestamp with impossible calendar fields.
    InvalidTime,
    /// The device sent text that is not valid UTF-8.
    Utf8Error,
    /// The operation needs a successful authentication first.
    RequiresAuth,
    /// The device rejected the authentication key.
    InvalidAuthKey,
    /// A band-lock PIN must be four digits, each between 1 and 4.
    InvalidLockPin,
}

pub open spec fn spec_error_message(e: BandError) -> Seq<char> {
    match e {
        BandError::MissingServicesOrChars => "Device is missing required BLE services or characteristics"@,
        BandError::NotInitialized => "Device connection is not initialized"@,
        BandError::InvalidTime => "Device sent an invalid time"@,
        BandError::Utf8Error => "Device sent invalid UTF-8 text"@,
        BandError::RequiresAuth => "The operation requires authentication"@,
        BandError::InvalidAuthKey => "Invalid auth key"@,
        BandError::InvalidLockPin => "Invalid band lock PIN (must be 4 digits from 1-4)"@,
    }
}

impl BandError {
    /// A human-readable description of the error.
    pub fn message(&self) -> (r: &'static str)
        ensures
            r@ == spec_error_message(*self),
    {
        match self {
            BandError::MissingServicesOrChars => "Device is missing required BLE services or characteristics",
            BandError::NotInitialized => "Device connection is not initialized",
            BandError::InvalidTime => "Device sent an invalid time",
            BandError::Utf8Error => "Device sent invalid UTF-8 text",
            BandError::RequiresAuth => "The operation requires authentication",
            BandError::InvalidAuthKey => "Invalid auth key",
            BandError::InvalidLockPin => "Invalid band lock PIN (must be 4 digits from 1-4)",
        }
    }
}

} // verus!
