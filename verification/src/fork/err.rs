//! The ways in which the fork protocol and the process handle fail.

use crate::errno::OsError;
use vstd::prelude::*;

verus! {

/// A failed operation on the master side of a pseudo-terminal pair, with the
/// system's error behind it.
#[derive(Clone, Copy, Debug, PartialEq, Eq, Structural)]
pub enum MasterError {
    /// The multiplexer device could not be opened.
    BadDescriptor(OsError),
    /// Access to the slave could not be granted.
    GrantptError(OsError),
    /// The slave could not be unlocked.
    UnlockptError(OsError),
    /// The system had no path for the slave.
    PtsnameError(OsError),
}

/// A failed operation on the slave side of a pseudo-terminal pair, with the system's
/// error behind it.
#[derive(Clone, Copy, Debug, PartialEq, Eq, Structural)]
pub enum SlaveError {
    /// The slave device could not be opened.
    BadDescriptor(OsError),
    /// The slave could not be duplicated onto a standard stream.
    Dup2Error(OsError),
}

/// The errors of the fork protocol and of the process handle.
#[derive(Clone, Copy, Debug, PartialEq, Eq, Structural)]
pub enum ForkError {
    /// The fork itself failed.
    Failure,
    /// The child could not become a session leader.
    SetsidFail,
    /// Waiting for the child failed.
    WaitpidFail,
    /// A parent-only operation was asked of the child's handle.
    IsChild,
    /// A child-only operation was asked of the parent's handle.
    IsFather,
    /// An operation on the master failed.
    BadMaster(MasterError),
    /// An operation on the slave failed.
    BadSlave(SlaveError),
}

impl MasterError {
    /// The system's error behind the failure.
    pub open spec fn cause(self) -> OsError {
        match self {
            MasterError::BadDescriptor(e) => e,
            MasterError::GrantptError(e) => e,
            MasterError::UnlockptError(e) => e,
            MasterError::PtsnameError(e) => e,
        }
    }

    /// The system's error behind the failure.
    pub fn os_error(&self) -> (e: OsError)
        ensures
            e == self.cause(),
    {
        match self {
            MasterError::BadDescriptor(e) => *e,
            MasterError::GrantptError(e) => *e,
            MasterError::UnlockptError(e) => *e,
            MasterError::PtsnameError(e) => *e,
        }
    }
}

impl SlaveError {
    /// The system's error behind the failure.
    pub open spec fn cause(self) -> OsError {
        match self {
            SlaveError::BadDescriptor(e) => e,
            SlaveError::Dup2Error(e) => e,
        }
    }

    /// The system's error behind the failure.
    pub fn os_error(&self) -> (e: OsError)
        ensures
            e == self.cause(),
    {
        match self {
            SlaveError::BadDescriptor(e) => *e,
            SlaveError::Dup2Error(e) => *e,
        }
    }
}

impl ForkError {
    /// The system's error behind the failure, where the failure carries one.
    pub open spec fn cause(self) -> Option<OsError> {
        match self {
            ForkError::BadMaster(e) => Some(e.cause()),
            ForkError::BadSlave(e) => Some(e.cause()),
            _ => None,
        }
    }

    /// The system's error behind the failure, where the failure carries one.
    pub fn os_error(&self) -> (e: Option<OsError>)
        ensures
            e == self.cause(),
    {
        match self {
            ForkError::BadMaster(e) => Some(e.os_error()),
            ForkError::BadSlave(e) => Some(e.os_error()),
            _ => None,
        }
    }
}

} // verus!
