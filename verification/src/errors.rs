//! Error kinds of the monitor, and their stable numeric codes.

use vstd::prelude::*;

verus! {

/// Everything that can go wrong in the engine or in the platform glue
/// around it.
///
/// State-machine misuse and configuration errors are returned synchronously
/// by the violating operation; a per-sensor read failure is absorbed into an
/// offline reading and never aborts a tick.
#[derive(Clone, Copy, Debug, PartialEq, Eq, Structural)]
pub enum Error {
    /// Initialization failed.
    InitFailed,
    /// Operation on an uninitialized instance.
    NotInitialized,
    /// Sampling already running.
    AlreadyRunning,
    /// Sampling not running.
    NotRunning,
    /// Invalid sampling frequency.
    InvalidFrequency,
    /// No power sensors found.
    NoSensors,
    /// Error accessing sensor files.
    FileAccess,
    /// Memory allocation error.
    Memory,
    /// Thread creation or management error.
    Thread,
    /// Any other numeric code.
    Unknown(i32),
}

/// The numeric code of each error kind.
pub open spec fn spec_error_code(e: Error) -> i32 {
    match e {
        Error::InitFailed => -1i32,
        Error::NotInitialized => -2i32,
        Error::AlreadyRunning => -3i32,
        Error::NotRunning => -4i32,
        Error::InvalidFrequency => -5i32,
        Error::NoSensors => -6i32,
        Error::FileAccess => -7i32,
        Error::Memory => -8i32,
        Error::Thread => -9i32,
        Error::Unknown(code) => code,
    }
}

/// The error kind a numeric code stands for. Codes -1 to -9 map to their
/// named kinds; every other code is kept verbatim as `Unknown`.
pub open spec fn spec_error_from_code(code: i32) -> Error {
    if code == -1 {
        Error::InitFailed
    } else if code == -2 {
        Error::NotInitialized
    } else if code == -3 {
        Error::AlreadyRunning
    } else if code == -4 {
        Error::NotRunning
    } else if code == -5 {
        Error::InvalidFrequency
    } else if code == -6 {
        Error::NoSensors
    } else if code == -7 {
        Error::FileAccess
    } else if code == -8 {
        Error::Memory
    } else if code == -9 {
        Error::Thread
    } else {
        Error::Unknown(code)
    }
}

impl From<Error> for i32 {
    fn from(error: Error) -> (r: i32) {
        match error {
            Error::InitFailed => -1,
            Error::NotInitialized => -2,
            Error::AlreadyRunning => -3,
            Error::NotRunning => -4,
            Error::InvalidFrequency => -5,
            Error::NoSensors => -6,
            Error::FileAccess => -7,
            Error::Memory => -8,
            Error::Thread => -9,
            Error::Unknown(code) => code,
        }
    }
}

impl vstd::std_specs::convert::FromSpecImpl<Error> for i32 {
    open spec fn obeys_from_spec() -> bool {
        true
    }

    open spec fn from_spec(e: Error) -> i32 {
        spec_error_code(e)
    }
}

impl From<i32> for Error {
    fn from(code: i32) -> (r: Error) {
        match code {
            -1 => Error::InitFailed,
            -2 => Error::NotInitialized,
            -3 => Error::AlreadyRunning,
            -4 => Error::NotRunning,
            -5 => Error::InvalidFrequency,
            -6 => Error::NoSensors,
            -7 => Error::FileAccess,
            -8 => Error::Memory,
            -9 => Error::Thread,
            _ => Error::Unknown(code),
        }
    }
}

impl vstd::std_specs::convert::FromSpecImpl<i32> for Error {
    open spec fn obeys_from_spec() -> bool {
        true
    }

    open spec fn from_spec(code: i32) -> Error {
        spec_error_from_code(code)
    }
}

} // verus!
