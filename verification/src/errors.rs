//! The adapter's error types.
//!
//! Registering an event source can fail in the OS, and preparing the
//! registry entries can fail before any OS call is made (an executable path
//! that cannot become a wide string) or inside the registry itself. Each
//! failure keeps what its origin reported: the OS error code for a failed
//! registration, a description for a registry failure.

use vstd::prelude::*;
use vstd::string::StringExecFns;

verus! {

/// What can go wrong while registering an event source or preparing its
/// registry entries.
#[derive(Debug)]
pub enum Error {
    /// The running executable's path could not be determined, or it cannot
    /// be encoded as a registry string.
    ExePathNotFound,
    /// The OS refused to register the event source; holds the HRESULT code
    /// the OS reported.
    RegisterSourceFailed(i32),
    /// A registry key could not be opened, created or deleted; holds a
    /// description of the failure.
    RegKey(String),
    /// A registry value could not be written; holds a description of the
    /// failure.
    RegValue(String),
}

/// What can go wrong while initialising the global logger.
#[derive(Debug)]
pub enum InitError {
    /// The event-log adapter could not be created.
    Create(Error),
    /// The `log` facade refused the logger because one was already set.
    SetLogger,
}

impl From<Error> for InitError {
    fn from(e: Error) -> (r: InitError) {
        InitError::Create(e)
    }
}

impl vstd::std_specs::convert::FromSpecImpl<Error> for InitError {
    open spec fn obeys_from_spec() -> bool {
        true
    }

    open spec fn from_spec(e: Error) -> InitError {
        InitError::Create(e)
    }
}

impl Error {
    /// A short description of the failure.
    pub fn message(&self) -> (r: String)
        ensures
            r@ == match self {
                Error::ExePathNotFound => "Could not determine executable path"@,
                Error::RegisterSourceFailed(_) => "Call to RegisterEventSource failed"@,
                Error::RegKey(_) => "Failed to modify registry key"@,
                Error::RegValue(_) => "Failed to modify registry value"@,
            },
    {
        match self {
            Error::ExePathNotFound => String::from_str("Could not determine executable path"),
            Error::RegisterSourceFailed(_) => String::from_str("Call to RegisterEventSource failed"),
            Error::RegKey(_) => String::from_str("Failed to modify registry key"),
            Error::RegValue(_) => String::from_str("Failed to modify registry value"),
        }
    }
}

impl InitError {
    /// A short description of the failure.
    pub fn message(&self) -> (r: String)
        ensures
            r@ == match self {
                InitError::Create(_) => "Failed to create logger"@,
                InitError::SetLogger => "Failed to set logger"@,
            },
    {
        match self {
            InitError::Create(_) => String::from_str("Failed to create logger"),
            InitError::SetLogger => String::from_str("Failed to set logger"),
        }
    }
}

} // verus!
