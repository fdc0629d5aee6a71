//! The fork protocol and the handle that it ends in.
//!
//! The protocol allocates a master, grants and unlocks its slave, and forks. The
//! parent keeps the master and the child's process id. The child looks up the
//! slave's path, becomes a session leader, opens the slave and rewires its three
//! standard streams to it. A failure at any point ends the protocol: no later call
//! is asked for.

pub mod err;
pub mod laws;
pub mod pty;

pub use self::err::{ForkError, MasterError, SlaveError};
pub use self::pty::{Master, Slave};

use crate::call::{c_path, c_string_bytes, Event, EventView, Reply, Request, RequestView, Stream};
use crate::errno::OsError;
use vstd::prelude::*;
use vstd::string::StringSliceAdditionalSpecFns;

verus! {

/// The path of the system's pseudo-terminal multiplexer.
pub const DEFAULT_PTMX: &'static str = "/dev/ptmx";

/// The bytes of [`DEFAULT_PTMX`].
pub open spec fn default_ptmx_bytes() -> Seq<u8> {
    seq![0x2fu8, 0x64u8, 0x65u8, 0x76u8, 0x2fu8, 0x70u8, 0x74u8, 0x6du8, 0x78u8]
}

/// The handle that a completed fork leaves in each of the two processes.
#[derive(Debug, PartialEq, Eq, Structural)]
pub enum Fork {
    /// The parent's side: the child's process id and the master.
    Father(i32, Master),
    /// The child's side: the slave.
    Child(Slave),
}

/// The fork protocol at one of its stages.
#[derive(Debug, PartialEq, Eq)]
pub enum Protocol {
    /// Nothing has been done; the multiplexer at `path` is to be opened.
    Start { path: Vec<u8> },
    /// The master is allocated; access to its slave is to be granted.
    MasterAllocated { master: Master },
    /// Access is granted; the slave is to be unlocked.
    MasterGranted { master: Master },
    /// The master is ready; the process is to be forked.
    MasterReady { master: Master },
    /// In the child: the slave's path is to be looked up.
    Forked { master: Master },
    /// In the child: the slave's path is known; the process is to become a session
    /// leader.
    Named { name: Vec<u8> },
    /// In the child: the process leads its session; the slave is to be opened.
    Leader { name: Vec<u8> },
    /// In the child: the slave is open; `stream` is to be rewired to it.
    Wiring { slave: Slave, stream: Stream },
    /// The protocol has ended well, in the handle of this side of the fork.
    Done { fork: Fork },
    /// The protocol has ended in a failure. A failure on the way to the fork leaves
    /// the master behind: it is open, and its closing is still owed.
    Failed { error: ForkError, master: Option<Master> },
}

/// A [`Protocol`] as a mathematical value.
pub enum Stage {
    Start { path: Seq<u8> },
    MasterAllocated { master: Master },
    MasterGranted { master: Master },
    MasterReady { master: Master },
    Forked { master: Master },
    Named { name: Seq<u8> },
    Leader { name: Seq<u8> },
    Wiring { slave: Slave, stream: Stream },
    Done { fork: Fork },
    Failed { error: ForkError, master: Option<Master> },
}

impl View for Protocol {
    type V = Stage;

    open spec fn view(&self) -> Stage {
        match *self {
            Protocol::Start { path } => Stage::Start { path: path@ },
            Protocol::MasterAllocated { master } => Stage::MasterAllocated { master },
            Protocol::MasterGranted { master } => Stage::MasterGranted { master },
            Protocol::MasterReady { master } => Stage::MasterReady { master },
            Protocol::Forked { master } => Stage::Forked { master },
            Protocol::Named { name } => Stage::Named { name: name@ },
            Protocol::Leader { name } => Stage::Leader { name: name@ },
            Protocol::Wiring { slave, stream } => Stage::Wiring { slave, stream },
            Protocol::Done { fork } => Stage::Done { fork },
            Protocol::Failed { error, master } => Stage::Failed { error, master },
        }
    }
}

impl Stage {
    /// The stage at which the protocol begins.
    pub open spec fn start(path: Seq<u8>) -> Stage {
        Stage::Start { path }
    }

    /// The stage at which the child's part of the protocol proceeds once the
    /// slave's path is known.
    pub open spec fn from_pts(name: Seq<u8>) -> Stage {
        Stage::Named { name }
    }

    /// The call that the stage asks for.
    pub open spec fn request(self) -> RequestView {
        match self {
            Stage::Start { path } => RequestView::Open { path },
            Stage::MasterAllocated { master } => RequestView::Grant { fd: master.fd },
            Stage::MasterGranted { master } => RequestView::Unlock { fd: master.fd },
            Stage::MasterReady { master } => RequestView::Fork,
            Stage::Forked { master } => RequestView::SlaveName { fd: master.fd },
            Stage::Named { name } => RequestView::Setsid,
            Stage::Leader { name } => RequestView::Open { path: name },
            Stage::Wiring { slave, stream } => RequestView::Dup { fd: slave.fd, stream },
            Stage::Done { fork } => RequestView::Nothing,
            Stage::Failed { error, master } => RequestView::Nothing,
        }
    }

    /// Whether `event` has the shape of an answer to the call that the stage asks for.
    pub open spec fn hears(self, event: EventView) -> bool {
        match self {
            Stage::Done { fork } => false,
            Stage::Failed { error, master } => false,
            Stage::Forked { master } => event is Named,
            _ => event is Returned,
        }
    }

    /// Whether `event` reports that the call that the stage asks for has failed.
    pub open spec fn fails_on(self, event: EventView) -> bool {
        self.hears(event) && match event {
            EventView::Returned(reply) => reply.failed(),
            EventView::Named { name, errno } => name is None,
        }
    }

    /// The stage after `reply` has answered the stage's call. Only the stages that
    /// ask for an integer-returning call move. A failure on the way to the fork
    /// leaves the master behind; a failure in the child leaves nothing that the
    /// protocol owes.
    pub open spec fn returned(self, reply: Reply) -> Stage {
        match self {
            Stage::Start { path } => match Master::allocated(reply) {
                Err(cause) => Stage::Failed { error: ForkError::BadMaster(cause), master: None },
                Ok(master) => Stage::MasterAllocated { master },
            },
            Stage::MasterAllocated { master } => match Master::granted(reply) {
                Err(cause) => Stage::Failed {
                    error: ForkError::BadMaster(cause),
                    master: Some(master),
                },
                Ok(_) => Stage::MasterGranted { master },
            },
            Stage::MasterGranted { master } => match Master::unlocked(reply) {
                Err(cause) => Stage::Failed {
                    error: ForkError::BadMaster(cause),
                    master: Some(master),
                },
                Ok(_) => Stage::MasterReady { master },
            },
            Stage::MasterReady { master } => if reply.value == -1 {
                Stage::Failed { error: ForkError::Failure, master: Some(master) }
            } else if reply.value == 0 {
                Stage::Forked { master }
            } else {
                Stage::Done { fork: Fork::Father(reply.value, master) }
            },
            Stage::Named { name } => if reply.failed() {
                Stage::Failed { error: ForkError::SetsidFail, master: None }
            } else {
                Stage::Leader { name }
            },
            Stage::Leader { name } => match Slave::opened(reply) {
                Err(cause) => Stage::Failed { error: ForkError::BadSlave(cause), master: None },
                Ok(slave) => Stage::Wiring { slave, stream: Stream::Stdin },
            },
            Stage::Wiring { slave, stream } => match Slave::duplicated(reply) {
                Err(cause) => Stage::Failed { error: ForkError::BadSlave(cause), master: None },
                Ok(_) => match stream.following() {
                    Some(following) => Stage::Wiring { slave, stream: following },
                    None => Stage::Done { fork: Fork::Child(slave) },
                },
            },
            Stage::Forked { master } => self,
            Stage::Done { fork } => self,
            Stage::Failed { error, master } => self,
        }
    }

    /// The stage after the lookup of the slave's path has come back. Only the stage
    /// that asks for the lookup moves.
    pub open spec fn named(self, name: Option<Seq<u8>>, errno: i32) -> Stage {
        match self {
            Stage::Forked { master } => match name {
                Some(n) => Stage::from_pts(n),
                None => Stage::Failed {
                    error: ForkError::BadMaster(MasterError::PtsnameError(OsError { errno })),
                    master: None,
                },
            },
            _ => self,
        }
    }

    /// The stage after `event`. An event that is no answer to the stage's call
    /// leaves the stage as it is.
    pub open spec fn step(self, event: EventView) -> Stage {
        match event {
            EventView::Returned(reply) => self.returned(reply),
            EventView::Named { name, errno } => self.named(name, errno),
        }
    }

    /// What the protocol has ended in, once it has ended.
    pub open spec fn outcome(self) -> Option<Result<Fork, ForkError>> {
        match self {
            Stage::Done { fork } => Some(Ok(fork)),
            Stage::Failed { error, master } => Some(Err(error)),
            _ => None,
        }
    }

    /// The descriptor that the protocol, once it has ended, still owes the system
    /// the closing of: the master that a failure has left behind, or what the
    /// handle owes. A protocol that has not ended holds its master for the calls to
    /// come.
    pub open spec fn owes(self) -> Option<i32> {
        match self {
            Stage::Done { fork } => fork.owes(),
            Stage::Failed { error, master: Some(master) } => if master.owner {
                Some(master.fd)
            } else {
                None
            },
            _ => None,
        }
    }

    /// The protocol once it owes nothing.
    pub open spec fn released(self) -> Stage {
        match self {
            Stage::Done { fork } => Stage::Done { fork: fork.released() },
            Stage::Failed { error, master: Some(master) } => Stage::Failed {
                error,
                master: Some(Master { fd: master.fd, owner: false }),
            },
            _ => self,
        }
    }
}

impl Protocol {
    /// The call that the driver is to make next.
    pub fn request(&self) -> (request: Request)
        ensures
            request@ == self@.request(),
    {
        match self {
            Protocol::Start { path } => Request::Open { path: path.clone() },
            Protocol::MasterAllocated { master } => Request::Grant { fd: master.as_raw_fd() },
            Protocol::MasterGranted { master } => Request::Unlock { fd: master.as_raw_fd() },
            Protocol::MasterReady { .. } => Request::Fork,
            Protocol::Forked { master } => Request::SlaveName { fd: master.as_raw_fd() },
            Protocol::Named { .. } => Request::Setsid,
            Protocol::Leader { name } => Request::Open { path: name.clone() },
            Protocol::Wiring { slave, stream } => Request::Dup {
                fd: slave.as_raw_fd(),
                stream: *stream,
            },
            Protocol::Done { .. } => Request::Nothing,
            Protocol::Failed { .. } => Request::Nothing,
        }
    }

    /// Moves the protocol on by what the driver reports of the call it was asked to
    /// make. A report that is no answer to that call changes nothing.
    pub fn step(self, event: Event) -> (next: Protocol)
        ensures
            next@ == self@.step(event@),
    {
        match event {
            Event::Returned(reply) => self.returned(reply),
            Event::Named { name, errno } => self.named(name, errno),
        }
    }

    /// Moves the protocol on by the reply to an integer-returning call.
    pub fn returned(self, reply: Reply) -> (next: Protocol)
        ensures
            next@ == self@.returned(reply),
    {
        match self {
            Protocol::Start { .. } => match Master::new(reply) {
                Err(cause) => Protocol::Failed { error: ForkError::BadMaster(cause), master: None },
                Ok(master) => Protocol::MasterAllocated { master },
            },
            Protocol::MasterAllocated { master } => match master.grantpt(reply) {
                Err(cause) => Protocol::Failed {
                    error: ForkError::BadMaster(cause),
                    master: Some(master),
                },
                Ok(_) => Protocol::MasterGranted { master },
            },
            Protocol::MasterGranted { master } => match master.unlockpt(reply) {
                Err(cause) => Protocol::Failed {
                    error: ForkError::BadMaster(cause),
                    master: Some(master),
                },
                Ok(_) => Protocol::MasterReady { master },
            },
            Protocol::MasterReady { master } => match reply.value {
                -1 => Protocol::Failed { error: ForkError::Failure, master: Some(master) },
                0 => Protocol::Forked { master },
                pid => Protocol::Done { fork: Fork::Father(pid, master) },
            },
            Protocol::Named { name } => if reply.value == -1 {
                Protocol::Failed { error: ForkError::SetsidFail, master: None }
            } else {
                Protocol::Leader { name }
            },
            Protocol::Leader { .. } => match Slave::new(reply) {
                Err(cause) => Protocol::Failed { error: ForkError::BadSlave(cause), master: None },
                Ok(slave) => Protocol::Wiring { slave, stream: Stream::Stdin },
            },
            Protocol::Wiring { slave, stream } => match slave.dup2(stream, reply) {
                Err(cause) => Protocol::Failed { error: ForkError::BadSlave(cause), master: None },
                Ok(_) => match stream.next() {
                    Some(following) => Protocol::Wiring { slave, stream: following },
                    None => Protocol::Done { fork: Fork::Child(slave) },
                },
            },
            other => other,
        }
    }

    /// Moves the protocol on by the outcome of the lookup of the slave's path.
    pub fn named(self, name: Option<Vec<u8>>, errno: i32) -> (next: Protocol)
        ensures
            next@ == self@.named(
                match name {
                    Some(n) => Some(n@),
                    None => None,
                },
                errno,
            ),
    {
        match self {
            Protocol::Forked { master } => match master.ptsname(name, errno) {
                Err(cause) => Protocol::Failed { error: ForkError::BadMaster(cause), master: None },
                Ok(n) => Fork::from_pts(n),
            },
            other => other,
        }
    }

    /// Whether the protocol has ended.
    pub fn is_done(&self) -> (done: bool)
        ensures
            done == (self@.outcome() is Some),
            done == (self@.request() is Nothing),
    {
        match self {
            Protocol::Done { .. } => true,
            Protocol::Failed { .. } => true,
            _ => false,
        }
    }

    /// Ends the protocol's hold on what it has left open. What is returned is the
    /// descriptor that the caller must now close: the master that a failure on the
    /// way to the fork has left behind, or the master of the parent's handle where
    /// the protocol is given up with the handle still in it. Any later call returns
    /// nothing, and so does a call on a protocol that has not ended.
    pub fn release(&mut self) -> (fd: Option<i32>)
        ensures
            fd == old(self)@.owes(),
            final(self)@ == old(self)@.released(),
            final(self)@.owes() is None,
    {
        match self {
            Protocol::Done { fork } => fork.release(),
            Protocol::Failed { master: Some(master), .. } => master.release(),
            _ => None,
        }
    }

    /// Gives up what a failure has left open. What is returned is the descriptor
    /// that the caller must now close: the master, the first time, on a protocol
    /// that has failed on the way to the fork. A protocol that has ended well keeps
    /// its handle as it is, and one that has not ended keeps what it holds: nothing
    /// is returned for either.
    pub fn abandon(&mut self) -> (fd: Option<i32>)
        ensures
            fd == (if old(self)@ is Failed {
                old(self)@.owes()
            } else {
                None::<i32>
            }),
            final(self)@ == (if old(self)@ is Failed {
                old(self)@.released()
            } else {
                old(self)@
            }),
    {
        match self {
            Protocol::Failed { master: Some(master), .. } => master.release(),
            _ => None,
        }
    }

    /// What the protocol has ended in; nothing while it has not ended. The handle
    /// takes with it what it owes. The master that a failure has left behind is not
    /// handed on: it is to be released before.
    pub fn finish(self) -> (outcome: Option<Result<Fork, ForkError>>)
        ensures
            outcome == self@.outcome(),
    {
        match self {
            Protocol::Done { fork } => Some(Ok(fork)),
            Protocol::Failed { error, .. } => Some(Err(error)),
            _ => None,
        }
    }
}

/// The wait for a child to change state.
#[derive(Clone, Copy, Debug, PartialEq, Eq)]
pub enum Wait {
    /// The child `pid` has not been seen to change state; it is to be waited for.
    Pending { pid: i32 },
    /// The wait is over.
    Done { outcome: Result<i32, ForkError> },
}

impl Wait {
    /// The call that the wait asks for: a wait for its own child, and nothing once
    /// it is over.
    pub open spec fn asks(self) -> RequestView {
        match self {
            Wait::Pending { pid } => RequestView::Wait { pid },
            Wait::Done { outcome } => RequestView::Nothing,
        }
    }

    /// The wait after `reply` has answered its call: a reply of 0 says that the
    /// child has not changed state, and the wait goes on; a failure ends it in
    /// `WaitpidFail`; any other reply ends it in the child's process id.
    pub open spec fn heard(self, reply: Reply) -> Wait {
        match self {
            Wait::Pending { pid } => if reply.value == 0 {
                self
            } else if reply.value == -1 {
                Wait::Done { outcome: Err(ForkError::WaitpidFail) }
            } else {
                Wait::Done { outcome: Ok(pid) }
            },
            Wait::Done { outcome } => self,
        }
    }

    /// The call that the driver is to make next.
    pub fn request(&self) -> (request: Request)
        ensures
            request@ == self.asks(),
    {
        match self {
            Wait::Pending { pid } => Request::Wait { pid: *pid },
            Wait::Done { .. } => Request::Nothing,
        }
    }

    /// Moves the wait on by the reply to the call it asked for.
    pub fn step(self, reply: Reply) -> (next: Wait)
        ensures
            next == self.heard(reply),
    {
        match self {
            Wait::Pending { pid } => match reply.value {
                0 => Wait::Pending { pid },
                -1 => Wait::Done { outcome: Err(ForkError::WaitpidFail) },
                _ => Wait::Done { outcome: Ok(pid) },
            },
            done => done,
        }
    }

    /// What the wait has ended in; nothing while it goes on.
    pub fn finish(&self) -> (outcome: Option<Result<i32, ForkError>>)
        ensures
            outcome == (match *self {
                Wait::Pending { pid } => None,
                Wait::Done { outcome } => Some(outcome),
            }),
    {
        match self {
            Wait::Pending { .. } => None,
            Wait::Done { outcome } => Some(*outcome),
        }
    }
}

impl Fork {
    /// The wait that the handle begins with: for its child on the parent's side;
    /// over at once, in `IsChild`, on the child's side.
    pub open spec fn waiting(self) -> Wait {
        match self {
            Fork::Father(pid, master) => Wait::Pending { pid },
            Fork::Child(slave) => Wait::Done { outcome: Err(ForkError::IsChild) },
        }
    }

    /// The descriptor that the handle still owes the system the closing of.
    pub open spec fn owes(self) -> Option<i32> {
        match self {
            Fork::Father(pid, master) => if master.owner {
                Some(master.fd)
            } else {
                None
            },
            Fork::Child(slave) => None,
        }
    }

    /// The handle once it owes nothing.
    pub open spec fn released(self) -> Fork {
        match self {
            Fork::Father(pid, master) => Fork::Father(pid, Master { fd: master.fd, owner: false }),
            Fork::Child(slave) => self,
        }
    }

    /// Begins to wait until the child has terminated. On the child's side there is
    /// nothing to wait for: the wait is over before any call is asked for.
    pub fn wait(&self) -> (wait: Wait)
        ensures
            wait == self.waiting(),
    {
        match self {
            Fork::Child(_) => Wait::Done { outcome: Err(ForkError::IsChild) },
            Fork::Father(pid, _) => Wait::Pending { pid: *pid },
        }
    }

    /// On the parent's side, a second handle to the master; it owes no closing.
    pub fn is_father(&self) -> (res: Result<Master, ForkError>)
        ensures
            res == (match *self {
                Fork::Father(pid, master) => Ok::<Master, ForkError>(master.shared()),
                Fork::Child(slave) => Err(ForkError::IsChild),
            }),
    {
        match self {
            Fork::Child(_) => Err(ForkError::IsChild),
            Fork::Father(_, master) => Ok(master.share()),
        }
    }

    /// On the child's side, the slave.
    pub fn is_child(&self) -> (res: Result<&Slave, ForkError>)
        ensures
            res == (match *self {
                Fork::Father(pid, master) => Err::<&Slave, ForkError>(ForkError::IsFather),
                Fork::Child(slave) => Ok(&slave),
            }),
    {
        match self {
            Fork::Father(_, _) => Err(ForkError::IsFather),
            Fork::Child(slave) => Ok(slave),
        }
    }

    /// Ends the handle's hold on its descriptor. What is returned is the descriptor
    /// that the caller must now close: the master's, the first time, on the
    /// parent's side. Any later call, and any call on the child's side, returns
    /// nothing.
    pub fn release(&mut self) -> (fd: Option<i32>)
        ensures
            fd == old(self).owes(),
            *final(self) == old(self).released(),
            final(self).owes() is None,
    {
        match self {
            Fork::Father(_, master) => master.release(),
            Fork::Child(_) => None,
        }
    }

    /// Begins the fork protocol on the multiplexer device at `path`. A path with a
    /// zero byte in it cannot be handed to the system and counts as the empty path.
    pub fn new(path: &str) -> (protocol: Protocol)
        ensures
            protocol@ == Stage::start(c_string_bytes(path.spec_bytes())),
    {
        Protocol::Start { path: c_path(path) }
    }

    /// The child's part of the protocol from the point where the slave's path is
    /// known: the process is to become a session leader, then to open the slave at
    /// `name` and to rewire its standard streams.
    fn from_pts(name: Vec<u8>) -> (protocol: Protocol)
        ensures
            protocol@ == Stage::from_pts(name@),
    {
        Protocol::Named { name }
    }

    /// Begins the fork protocol on the system's own multiplexer device.
    pub fn from_ptmx() -> (protocol: Protocol)
        ensures
            protocol@ == Stage::start(default_ptmx_bytes()),
    {
        proof {
            reveal_strlit("/dev/ptmx");
            vstd::string::is_ascii_spec_bytes(DEFAULT_PTMX);
            assert(vstd::string::is_ascii(DEFAULT_PTMX));
            assert(DEFAULT_PTMX.spec_bytes() =~= default_ptmx_bytes());
            assert(!default_ptmx_bytes().contains(0u8));
        }
        Fork::new(DEFAULT_PTMX)
    }
}

} // verus!
