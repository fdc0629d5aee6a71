//! The two ends of a pseudo-terminal pair, and the verdict on each operation on them.
//!
//! The driver makes the call; the functions here judge what came back.

use super::err::{MasterError, SlaveError};
use crate::call::{Reply, Stream};
use crate::errno::OsError;
use vstd::prelude::*;

verus! {

/// The controlling end of a pseudo-terminal pair.
///
/// Exactly one handle to a master owes the system the closing of its descriptor:
/// the one that allocation made. A handle made by [`Master::share`] refers to the
/// same descriptor and owes nothing.
#[derive(Debug, PartialEq, Eq, Structural)]
pub struct Master {
    /// The descriptor of the master.
    pub fd: i32,
    /// Whether this handle still owes the closing of the descriptor.
    pub owner: bool,
}

/// The terminal-facing end of a pseudo-terminal pair.
#[derive(Debug, PartialEq, Eq, Structural)]
pub struct Slave {
    /// The descriptor of the slave.
    pub fd: i32,
}

impl Master {
    /// The master that the opening of the multiplexer allocated, or the failure.
    pub open spec fn allocated(reply: Reply) -> Result<Master, MasterError> {
        if reply.failed() {
            Err(MasterError::BadDescriptor(reply.cause()))
        } else {
            Ok(Master { fd: reply.value, owner: true })
        }
    }

    /// The verdict on a grant.
    pub open spec fn granted(reply: Reply) -> Result<i32, MasterError> {
        if reply.failed() {
            Err(MasterError::GrantptError(reply.cause()))
        } else {
            Ok(reply.value)
        }
    }

    /// The verdict on an unlock.
    pub open spec fn unlocked(reply: Reply) -> Result<i32, MasterError> {
        if reply.failed() {
            Err(MasterError::UnlockptError(reply.cause()))
        } else {
            Ok(reply.value)
        }
    }

    /// The verdict on the lookup of the slave's path.
    pub open spec fn named(name: Option<Vec<u8>>, errno: i32) -> Result<Vec<u8>, MasterError> {
        match name {
            Some(n) => Ok(n),
            None => Err(MasterError::PtsnameError(OsError { errno })),
        }
    }

    /// A handle to the same descriptor that owes no closing.
    pub open spec fn shared(self) -> Master {
        Master { fd: self.fd, owner: false }
    }

    /// Judges the opening of the multiplexer device: the reply holds the new
    /// master's descriptor, or the failure.
    pub fn new(reply: Reply) -> (res: Result<Master, MasterError>)
        ensures
            res == Master::allocated(reply),
    {
        match reply.result() {
            Err(cause) => Err(MasterError::BadDescriptor(cause)),
            Ok(fd) => Ok(Master { fd, owner: true }),
        }
    }

    /// Judges the grant of access to this master's slave.
    pub fn grantpt(&self, reply: Reply) -> (res: Result<i32, MasterError>)
        ensures
            res == Master::granted(reply),
    {
        match reply.result() {
            Err(cause) => Err(MasterError::GrantptError(cause)),
            Ok(c) => Ok(c),
        }
    }

    /// Judges the unlocking of this master's slave.
    pub fn unlockpt(&self, reply: Reply) -> (res: Result<i32, MasterError>)
        ensures
            res == Master::unlocked(reply),
    {
        match reply.result() {
            Err(cause) => Err(MasterError::UnlockptError(cause)),
            Ok(c) => Ok(c),
        }
    }

    /// Judges the lookup of the path of this master's slave: the system handed
    /// back the path, or none and the error number behind that.
    pub fn ptsname(&self, name: Option<Vec<u8>>, errno: i32) -> (res: Result<Vec<u8>, MasterError>)
        ensures
            res == Master::named(name, errno),
    {
        match name {
            Some(n) => Ok(n),
            None => Err(MasterError::PtsnameError(OsError { errno })),
        }
    }

    /// The descriptor of the master.
    pub fn as_raw_fd(&self) -> (fd: i32)
        ensures
            fd == self.fd,
    {
        self.fd
    }

    /// A second handle to the same descriptor. It owes no closing: that stays with
    /// the handle it was made from.
    pub fn share(&self) -> (view: Master)
        ensures
            view == self.shared(),
    {
        Master { fd: self.fd, owner: false }
    }

    /// Gives up the duty to close. The first call on the owning handle returns the
    /// descriptor that the caller must now close; every other call returns nothing.
    pub fn release(&mut self) -> (fd: Option<i32>)
        ensures
            final(self).fd == old(self).fd,
            !final(self).owner,
            fd == (if old(self).owner { Some(old(self).fd) } else { None::<i32> }),
    {
        if self.owner {
            self.owner = false;
            Some(self.fd)
        } else {
            None
        }
    }
}

impl Slave {
    /// The slave that the opening of its path gave, or the failure.
    pub open spec fn opened(reply: Reply) -> Result<Slave, SlaveError> {
        if reply.failed() {
            Err(SlaveError::BadDescriptor(reply.cause()))
        } else {
            Ok(Slave { fd: reply.value })
        }
    }

    /// The verdict on a duplication onto a standard stream.
    pub open spec fn duplicated(reply: Reply) -> Result<i32, SlaveError> {
        if reply.failed() {
            Err(SlaveError::Dup2Error(reply.cause()))
        } else {
            Ok(reply.value)
        }
    }

    /// Judges the opening of the slave device: the reply holds the slave's
    /// descriptor, or the failure.
    pub fn new(reply: Reply) -> (res: Result<Slave, SlaveError>)
        ensures
            res == Slave::opened(reply),
    {
        match reply.result() {
            Err(cause) => Err(SlaveError::BadDescriptor(cause)),
            Ok(fd) => Ok(Slave { fd }),
        }
    }

    /// Judges the duplication of this slave onto `stream`.
    pub fn dup2(&self, stream: Stream, reply: Reply) -> (res: Result<i32, SlaveError>)
        ensures
            res == Slave::duplicated(reply),
    {
        match reply.result() {
            Err(cause) => Err(SlaveError::Dup2Error(cause)),
            Ok(d) => Ok(d),
        }
    }

    /// The descriptor of the slave.
    pub fn as_raw_fd(&self) -> (fd: i32)
        ensures
            fd == self.fd,
    {
        self.fd
    }
}

} // verus!
