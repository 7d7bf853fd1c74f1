//! The ways an operation of the client fails.

use vstd::prelude::*;

verus! {

/// Why a key was refused before anything was sent.
#[derive(Debug, Clone, Copy, PartialEq, Eq, Structural)]
pub enum InputFault {
    /// The virtual-key code is not covered by the translation.
    UnknownKey,
    /// The key's usage id has no scan code.
    UnmappedKey,
}

/// The step at which the system refused.
#[derive(Debug, Clone, Copy, PartialEq, Eq, Structural)]
pub enum OpenStage {
    /// Opening the object directory; the code is a status.
    Directory,
    /// Listing the object directory; the code is a status.
    Listing,
    /// Opening the device; the code is the system's last error.
    Device,
}

/// Why the device could not be opened.
#[derive(Debug, Clone, Copy, PartialEq, Eq, Structural)]
pub enum InitFault {
    /// No object of the directory carries the driver's name fragment.
    NotFound,
    /// The system refused to open the directory, to list it, or to open the
    /// device: `stage` says which, and `code` is the status or error code
    /// it gave.
    PermissionOrOpenFailure { stage: OpenStage, code: i32 },
}

/// The failure of a device-control request; `code` is the result code the
/// system gave, or [`crate::session::E_HANDLE`] where the session had no
/// handle to make the request on.
#[derive(Debug, Clone, Copy, PartialEq, Eq, Structural)]
pub struct TransportFailure {
    pub code: i32,
}

/// The failure of a public operation.
#[derive(Debug, Clone, Copy, PartialEq, Eq, Structural)]
pub enum Error {
    /// The driver's device link is absent.
    NotFound,
    /// The system refused to open the directory, to list it, or to open the
    /// device: `stage` says which, and `code` is the status or error code
    /// it gave.
    PermissionOrOpenFailure { stage: OpenStage, code: i32 },
    /// A key outside the supported domain.
    InvalidInput(InputFault),
    /// A request failed, and the attempt to open the device again failed
    /// too: `transport` is the failure of the request, `reinit` the reason
    /// the device could not be opened.
    ReinitFailure { transport: TransportFailure, reinit: InitFault },
}

impl InitFault {
    /// The fault as the error of an initialization that was asked for.
    pub open spec fn as_error(self) -> Error {
        match self {
            InitFault::NotFound => Error::NotFound,
            InitFault::PermissionOrOpenFailure { stage, code } => Error::PermissionOrOpenFailure {
                stage,
                code,
            },
        }
    }

    /// The fault as the error of an initialization that was asked for.
    pub fn to_error(self) -> (error: Error)
        ensures
            error == self.as_error(),
    {
        match self {
            InitFault::NotFound => Error::NotFound,
            InitFault::PermissionOrOpenFailure { stage, code } => Error::PermissionOrOpenFailure {
                stage,
                code,
            },
        }
    }
}

} // verus!
