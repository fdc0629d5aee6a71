//! The plain way to fork onto a pseudo-terminal: one protocol whose every failure is
//! the system's own error, and a child record with its process id and, in the
//! parent, the master side of the terminal.

pub mod laws;

use crate::call::{Event, EventView, Reply, Request, RequestView, Stream};
use crate::errno::{errno_text, judged, to_result, to_result_with, OsError};
use vstd::prelude::*;

verus! {

/// What a wait on the child's own side is refused with.
pub const IS_CHILD: &'static str = "Is a child process";

/// The master side of a child's pseudo-terminal.
///
/// Exactly one handle to a terminal owes the system the closing of its descriptor:
/// the one that the fork has made. A handle made by [`ChildPTY::share`] refers to the
/// same descriptor and owes nothing.
#[derive(Debug, PartialEq, Eq, Structural)]
pub struct ChildPTY {
    /// The descriptor of the master.
    pub fd: i32,
    /// Whether this handle still owes the closing of the descriptor.
    pub owner: bool,
}

/// A forked child: its process id, which is 0 in the child itself, and in the
/// parent the child's terminal.
#[derive(Debug, PartialEq, Eq)]
pub struct Child {
    pub pid: i32,
    pub pty: Option<ChildPTY>,
}

/// The ways in which the wait for a child fails.
#[derive(Clone, Copy, Debug, PartialEq, Eq, Structural)]
pub enum WaitError {
    /// The wait was asked of the child itself.
    IsChild,
    /// The system's wait failed.
    Failed(OsError),
}

impl ChildPTY {
    /// The number of bytes that a read has delivered, from the value that the
    /// system's read returned. A failed read counts as the end of the input.
    pub open spec fn delivered(returned: i64) -> usize {
        if returned == -1 {
            0
        } else {
            returned as usize
        }
    }

    /// The verdict on a write, from the value that the system's write returned and
    /// the error number that the system held then: the number of bytes written, or
    /// the error behind the failure.
    pub open spec fn wrote(returned: i64, errno: i32) -> Result<usize, OsError> {
        match judged(returned, errno) {
            Ok(n) => Ok(n as usize),
            Err(e) => Err(e),
        }
    }

    /// A handle to the same descriptor that owes no closing.
    pub open spec fn shared(self) -> ChildPTY {
        ChildPTY { fd: self.fd, owner: false }
    }

    /// The call that the closing of this handle asks for: the closing of its
    /// descriptor where the handle owes it, and nothing otherwise.
    pub open spec fn closing(self) -> RequestView {
        if self.owner {
            RequestView::Close { fd: self.fd }
        } else {
            RequestView::Nothing
        }
    }

    /// A second handle to the same descriptor. It owes no closing: that stays with
    /// the handle it was made from.
    pub fn share(&self) -> (view: ChildPTY)
        ensures
            view == self.shared(),
    {
        ChildPTY { fd: self.fd, owner: false }
    }

    /// Closes the terminal. The first call on the owning handle asks for the
    /// closing of the descriptor; every other call asks for nothing, so that no
    /// descriptor is closed twice.
    pub fn close(&mut self) -> (request: Request)
        ensures
            request@ == old(self).closing(),
            *final(self) == old(self).shared(),
    {
        if self.owner {
            self.owner = false;
            Request::Close { fd: self.fd }
        } else {
            Request::Nothing
        }
    }

    /// The descriptor of the master.
    pub fn as_raw_fd(&self) -> (fd: i32)
        ensures
            fd == self.fd,
    {
        self.fd
    }

    /// Judges a read from the terminal by the value that the system's read
    /// returned: the number of bytes read, and none where the read failed.
    pub fn read(&self, returned: i64) -> (res: Result<usize, OsError>)
        ensures
            res == Ok::<usize, OsError>(ChildPTY::delivered(returned)),
    {
        match to_result(returned) {
            Ok(nread) => Ok(nread as usize),
            Err(_) => Ok(0),
        }
    }

    /// Judges a write to the terminal by the value that the system's write returned
    /// and the error number that the system held then.
    pub fn write_with(&self, returned: i64, errno: i32) -> (res: Result<usize, OsError>)
        ensures
            res == ChildPTY::wrote(returned, errno),
    {
        match to_result_with(returned, errno) {
            Ok(ret) => Ok(ret as usize),
            Err(e) => Err(e),
        }
    }

    /// Judges a write to the terminal by the value that the system's write
    /// returned: the number of bytes written, or the system's error where the write
    /// failed.
    pub fn write(&self, returned: i64) -> (res: Result<usize, OsError>)
        ensures
            res is Err <==> returned == -1,
            res matches Ok(n) ==> n == returned as usize,
            exists|errno: i32| res == ChildPTY::wrote(returned, errno),
    {
        let errno = if returned == -1 {
            OsError::last().errno
        } else {
            0
        };
        let res = self.write_with(returned, errno);
        assert(res == ChildPTY::wrote(returned, errno));
        res
    }

    /// Flushes the terminal: there is nothing buffered, so nothing is done.
    pub fn flush(&self) -> (res: Result<(), OsError>)
        ensures
            res is Ok,
    {
        Ok(())
    }
}

/// The plain fork protocol at one of its stages.
#[derive(Debug, PartialEq, Eq)]
pub enum PtyFork {
    /// Nothing has been done; a master is to be opened.
    Start,
    /// The master is open; access to its slave is to be granted.
    Opened { master: i32 },
    /// Access is granted; the slave is to be unlocked.
    Granted { master: i32 },
    /// The master is ready; the process is to be forked.
    Ready { master: i32 },
    /// In the child: the slave's path is to be looked up.
    Forked { master: i32 },
    /// In the child: the path is known; the master, of no use here, is to be closed.
    Named { master: i32, name: Vec<u8> },
    /// In the child: the process is to become a session leader.
    Detached { name: Vec<u8> },
    /// In the child: the slave is to be opened.
    Leader { name: Vec<u8> },
    /// In the child: `stream` is to be rewired to the slave.
    Wiring { slave: i32, stream: Stream },
    /// In the child: the streams are rewired; the slave's own descriptor is to be
    /// closed.
    Wired { slave: i32 },
    /// The protocol has ended well, in the child's record.
    Done { child: Child },
    /// The protocol has ended in the system's error. `left` is the descriptor that
    /// the protocol had open and had not yet asked to close when it failed: its
    /// closing is still owed.
    Failed { error: OsError, left: Option<i32> },
}

/// A [`PtyFork`] as a mathematical value.
pub enum PtyForkStage {
    Start,
    Opened { master: i32 },
    Granted { master: i32 },
    Ready { master: i32 },
    Forked { master: i32 },
    Named { master: i32, name: Seq<u8> },
    Detached { name: Seq<u8> },
    Leader { name: Seq<u8> },
    Wiring { slave: i32, stream: Stream },
    Wired { slave: i32 },
    Done { child: Child },
    Failed { error: OsError, left: Option<i32> },
}

impl View for PtyFork {
    type V = PtyForkStage;

    open spec fn view(&self) -> PtyForkStage {
        match *self {
            PtyFork::Start => PtyForkStage::Start,
            PtyFork::Opened { master } => PtyForkStage::Opened { master },
            PtyFork::Granted { master } => PtyForkStage::Granted { master },
            PtyFork::Ready { master } => PtyForkStage::Ready { master },
            PtyFork::Forked { master } => PtyForkStage::Forked { master },
            PtyFork::Named { master, name } => PtyForkStage::Named { master, name: name@ },
            PtyFork::Detached { name } => PtyForkStage::Detached { name: name@ },
            PtyFork::Leader { name } => PtyForkStage::Leader { name: name@ },
            PtyFork::Wiring { slave, stream } => PtyForkStage::Wiring { slave, stream },
            PtyFork::Wired { slave } => PtyForkStage::Wired { slave },
            PtyFork::Done { child } => PtyForkStage::Done { child },
            PtyFork::Failed { error, left } => PtyForkStage::Failed { error, left },
        }
    }
}

impl PtyForkStage {
    /// The call that the stage asks for.
    pub open spec fn request(self) -> RequestView {
        match self {
            PtyForkStage::Start => RequestView::OpenPt,
            PtyForkStage::Opened { master } => RequestView::Grant { fd: master },
            PtyForkStage::Granted { master } => RequestView::Unlock { fd: master },
            PtyForkStage::Ready { master } => RequestView::Fork,
            PtyForkStage::Forked { master } => RequestView::SlaveName { fd: master },
            PtyForkStage::Named { master, name } => RequestView::Close { fd: master },
            PtyForkStage::Detached { name } => RequestView::Setsid,
            PtyForkStage::Leader { name } => RequestView::Open { path: name },
            PtyForkStage::Wiring { slave, stream } => RequestView::Dup { fd: slave, stream },
            PtyForkStage::Wired { slave } => RequestView::Close { fd: slave },
            PtyForkStage::Done { child } => RequestView::Nothing,
            PtyForkStage::Failed { error, left } => RequestView::Nothing,
        }
    }

    /// The descriptor that the stage has open and has not yet asked to close: the
    /// master up to the point where the child closes it, the slave while the child
    /// rewires its streams.
    pub open spec fn holds(self) -> Option<i32> {
        match self {
            PtyForkStage::Opened { master } => Some(master),
            PtyForkStage::Granted { master } => Some(master),
            PtyForkStage::Ready { master } => Some(master),
            PtyForkStage::Forked { master } => Some(master),
            PtyForkStage::Wiring { slave, stream } => Some(slave),
            _ => None,
        }
    }

    /// The stage in which a failure with `error` ends the protocol: what the stage
    /// holds is left behind.
    pub open spec fn fail(self, error: OsError) -> PtyForkStage {
        PtyForkStage::Failed { error, left: self.holds() }
    }

    /// The stage that follows on the parent's way to the fork when the stage's call
    /// has returned `value` and has not failed: the master is opened, granted,
    /// unlocked.
    pub open spec fn open_ptm(self, value: i32) -> PtyForkStage {
        match self {
            PtyForkStage::Start => PtyForkStage::Opened { master: value },
            PtyForkStage::Opened { master } => PtyForkStage::Granted { master },
            PtyForkStage::Granted { master } => PtyForkStage::Ready { master },
            _ => self,
        }
    }

    /// The stage that follows in the child when the stage's call has returned
    /// `value` and has not failed: the master is closed, the session is led, the
    /// slave is opened, the three streams are rewired in their order, the slave's
    /// own descriptor is closed.
    pub open spec fn attach_pts(self, value: i32) -> PtyForkStage {
        match self {
            PtyForkStage::Named { master, name } => PtyForkStage::Detached { name },
            PtyForkStage::Detached { name } => PtyForkStage::Leader { name },
            PtyForkStage::Leader { name } => PtyForkStage::Wiring {
                slave: value,
                stream: Stream::Stdin,
            },
            PtyForkStage::Wiring { slave, stream } => match stream.following() {
                Some(following) => PtyForkStage::Wiring { slave, stream: following },
                None => PtyForkStage::Wired { slave },
            },
            PtyForkStage::Wired { slave } => PtyForkStage::Done {
                child: Child { pid: 0, pty: None },
            },
            _ => self,
        }
    }

    /// The stage that follows when the stage's call has returned `value` and has
    /// not failed. The fork's own value decides the side: 0 is the child, anything
    /// else is the child's process id in the parent, where the protocol ends with
    /// the terminal that owes the closing of the master.
    pub open spec fn proceed(self, value: i32) -> PtyForkStage {
        match self {
            PtyForkStage::Start => self.open_ptm(value),
            PtyForkStage::Opened { master } => self.open_ptm(value),
            PtyForkStage::Granted { master } => self.open_ptm(value),
            PtyForkStage::Ready { master } => if value == 0 {
                PtyForkStage::Forked { master }
            } else {
                PtyForkStage::Done {
                    child: Child { pid: value, pty: Some(ChildPTY { fd: master, owner: true }) },
                }
            },
            PtyForkStage::Forked { master } => self,
            PtyForkStage::Done { child } => self,
            PtyForkStage::Failed { error, left } => self,
            _ => self.attach_pts(value),
        }
    }

    /// The stage after `event`. Every failed call ends the protocol in the system's
    /// error, and leaves behind the descriptor that the stage held. An event that
    /// is no answer to the stage's call leaves the stage as it is.
    pub open spec fn step(self, event: EventView) -> PtyForkStage {
        match self {
            PtyForkStage::Done { child } => self,
            PtyForkStage::Failed { error, left } => self,
            PtyForkStage::Forked { master } => match event {
                EventView::Named { name: Some(name), errno } => PtyForkStage::Named {
                    master,
                    name,
                },
                EventView::Named { name: None, errno } => self.fail(OsError { errno }),
                EventView::Returned(reply) => self,
            },
            _ => match event {
                EventView::Returned(reply) => match reply.as_result() {
                    Err(cause) => self.fail(cause),
                    Ok(value) => self.proceed(value),
                },
                EventView::Named { name, errno } => self,
            },
        }
    }

    /// What the protocol has ended in, once it has ended.
    pub open spec fn outcome(self) -> Option<Result<Child, OsError>> {
        match self {
            PtyForkStage::Done { child } => Some(Ok(child)),
            PtyForkStage::Failed { error, left } => Some(Err(error)),
            _ => None,
        }
    }

    /// The descriptor that the protocol, once it has ended, still owes the system
    /// the closing of: what a failure has left behind, or what the child's record
    /// owes. A protocol that has not ended holds its descriptors for the calls to
    /// come.
    pub open spec fn owes(self) -> Option<i32> {
        match self {
            PtyForkStage::Done { child } => child.owes(),
            PtyForkStage::Failed { error, left } => left,
            _ => None,
        }
    }

    /// The protocol once it owes nothing.
    pub open spec fn released(self) -> PtyForkStage {
        match self {
            PtyForkStage::Done { child } => PtyForkStage::Done { child: child.released() },
            PtyForkStage::Failed { error, left } => PtyForkStage::Failed { error, left: None },
            _ => self,
        }
    }
}

impl PtyFork {
    /// The call that the driver is to make next.
    pub fn request(&self) -> (request: Request)
        ensures
            request@ == self@.request(),
    {
        match self {
            PtyFork::Start => Request::OpenPt,
            PtyFork::Opened { master } => Request::Grant { fd: *master },
            PtyFork::Granted { master } => Request::Unlock { fd: *master },
            PtyFork::Ready { .. } => Request::Fork,
            PtyFork::Forked { master } => Request::SlaveName { fd: *master },
            PtyFork::Named { master, .. } => Request::Close { fd: *master },
            PtyFork::Detached { .. } => Request::Setsid,
            PtyFork::Leader { name } => Request::Open { path: name.clone() },
            PtyFork::Wiring { slave, stream } => Request::Dup { fd: *slave, stream: *stream },
            PtyFork::Wired { slave } => Request::Close { fd: *slave },
            PtyFork::Done { .. } => Request::Nothing,
            PtyFork::Failed { .. } => Request::Nothing,
        }
    }

    /// Moves the protocol on by what the driver reports of the call it was asked to
    /// make. A report that is no answer to that call changes nothing.
    pub fn step(self, event: Event) -> (next: PtyFork)
        ensures
            next@ == self@.step(event@),
    {
        match self {
            PtyFork::Done { child } => PtyFork::Done { child },
            PtyFork::Failed { error, left } => PtyFork::Failed { error, left },
            PtyFork::Forked { master } => match event {
                Event::Named { name: Some(name), .. } => PtyFork::Named { master, name },
                Event::Named { name: None, errno } => PtyFork::Failed {
                    error: OsError { errno },
                    left: Some(master),
                },
                Event::Returned(_) => PtyFork::Forked { master },
            },
            stage => match event {
                Event::Returned(reply) => match reply.result() {
                    Err(cause) => stage.fail(cause),
                    Ok(value) => stage.proceed(value),
                },
                Event::Named { .. } => stage,
            },
        }
    }

    /// Ends the protocol in `error`, leaving behind what the stage holds.
    fn fail(self, error: OsError) -> (next: PtyFork)
        ensures
            next@ == self@.fail(error),
    {
        let left = match self {
            PtyFork::Opened { master } => Some(master),
            PtyFork::Granted { master } => Some(master),
            PtyFork::Ready { master } => Some(master),
            PtyFork::Forked { master } => Some(master),
            PtyFork::Wiring { slave, .. } => Some(slave),
            _ => None,
        };
        PtyFork::Failed { error, left }
    }

    /// Moves the protocol on from a call that has returned `value` and has not
    /// failed.
    fn proceed(self, value: i32) -> (next: PtyFork)
        ensures
            next@ == self@.proceed(value),
    {
        match self {
            PtyFork::Start | PtyFork::Opened { .. } | PtyFork::Granted { .. } => self.open_ptm(
                value,
            ),
            PtyFork::Ready { master } => if value == 0 {
                PtyFork::Forked { master }
            } else {
                PtyFork::Done {
                    child: Child { pid: value, pty: Some(ChildPTY { fd: master, owner: true }) },
                }
            },
            PtyFork::Forked { master } => PtyFork::Forked { master },
            PtyFork::Done { child } => PtyFork::Done { child },
            PtyFork::Failed { error, left } => PtyFork::Failed { error, left },
            child => child.attach_pts(value),
        }
    }

    /// The parent's way to the fork: the master is opened, granted, unlocked.
    fn open_ptm(self, value: i32) -> (next: PtyFork)
        ensures
            next@ == self@.open_ptm(value),
    {
        match self {
            PtyFork::Start => PtyFork::Opened { master: value },
            PtyFork::Opened { master } => PtyFork::Granted { master },
            PtyFork::Granted { master } => PtyFork::Ready { master },
            other => other,
        }
    }

    /// The child's way from the slave's path to its new standard streams: the
    /// master is closed, the session is led, the slave is opened, the streams are
    /// rewired, the slave's own descriptor is closed.
    fn attach_pts(self, value: i32) -> (next: PtyFork)
        ensures
            next@ == self@.attach_pts(value),
    {
        match self {
            PtyFork::Named { name, .. } => PtyFork::Detached { name },
            PtyFork::Detached { name } => PtyFork::Leader { name },
            PtyFork::Leader { .. } => PtyFork::Wiring { slave: value, stream: Stream::Stdin },
            PtyFork::Wiring { slave, stream } => match stream.next() {
                Some(following) => PtyFork::Wiring { slave, stream: following },
                None => PtyFork::Wired { slave },
            },
            PtyFork::Wired { .. } => PtyFork::Done { child: Child { pid: 0, pty: None } },
            other => other,
        }
    }

    /// Whether the protocol has ended.
    pub fn is_done(&self) -> (done: bool)
        ensures
            done == (self@.outcome() is Some),
            done == (self@.request() is Nothing),
    {
        match self {
            PtyFork::Done { .. } => true,
            PtyFork::Failed { .. } => true,
            _ => false,
        }
    }

    /// Ends the protocol's hold on what it has left open. What is returned is the
    /// descriptor that the caller must now close: the one that a failure has left
    /// behind, or the terminal of the child's record where the protocol is given up
    /// with the record still in it. Any later call returns nothing, and so does a
    /// call on a protocol that has not ended.
    pub fn release(&mut self) -> (fd: Option<i32>)
        ensures
            fd == old(self)@.owes(),
            final(self)@ == old(self)@.released(),
            final(self)@.owes() is None,
    {
        match self {
            PtyFork::Done { child } => child.release(),
            PtyFork::Failed { left, .. } => left.take(),
            _ => None,
        }
    }

    /// Gives up what a failure has left open. What is returned is the descriptor
    /// that the caller must now close, the first time, on a protocol that has
    /// failed. A protocol that has ended well keeps its child's record as it is, and
    /// one that has not ended keeps what it holds: nothing is returned for either.
    pub fn abandon(&mut self) -> (fd: Option<i32>)
        ensures
            fd == (if old(self)@ is Failed {
                old(self)@.owes()
            } else {
                None::<i32>
            }),
            final(self)@ == (if old(self)@ is Failed {
                old(self)@.released()
            } else {
                old(self)@
            }),
    {
        match self {
            PtyFork::Failed { left, .. } => left.take(),
            _ => None,
        }
    }

    /// What the protocol has ended in; nothing while it has not ended. The child's
    /// record takes with it what it owes. The descriptor that a failure has left
    /// behind is not handed on: it is to be released before.
    pub fn finish(self) -> (outcome: Option<Result<Child, OsError>>)
        ensures
            outcome == self@.outcome(),
    {
        match self {
            PtyFork::Done { child } => Some(Ok(child)),
            PtyFork::Failed { error, .. } => Some(Err(error)),
            _ => None,
        }
    }
}

/// Begins to fork with a new pseudo-terminal. The protocol opens a master, grants
/// and unlocks its slave, and forks. The parent ends with the child's process id and
/// the master. The child looks up the slave's path, closes the master, becomes a
/// session leader, opens the slave, rewires its three standard streams to it and
/// closes the slave's own descriptor; it ends with the process id 0 and no terminal.
pub fn fork() -> (protocol: PtyFork)
    ensures
        protocol@ == PtyForkStage::Start,
{
    PtyFork::Start
}

/// The wait for a child to terminate, after which the child's terminal is closed.
#[derive(Clone, Copy, Debug, PartialEq, Eq)]
pub enum ChildWait {
    /// The child `pid` has not been seen to terminate; it is to be waited for.
    Pending { pid: i32 },
    /// The child has terminated; the descriptor of its terminal is to be closed.
    Closing { fd: i32 },
    /// The wait is over.
    Done { outcome: Result<(), WaitError> },
}

impl ChildWait {
    /// The call that the wait asks for.
    pub open spec fn asks(self) -> RequestView {
        match self {
            ChildWait::Pending { pid } => RequestView::Wait { pid },
            ChildWait::Closing { fd } => RequestView::Close { fd },
            ChildWait::Done { outcome } => RequestView::Nothing,
        }
    }

    /// Whether `reply` tells the wait that the child has changed state: the wait
    /// is waiting, and the reply is neither 0, which says that the child is still
    /// alive, nor a failure.
    pub open spec fn sees_change(self, reply: Reply) -> bool {
        self is Pending && reply.value != 0 && reply.value != -1
    }

    /// The wait after `reply` has answered its call, where `child` is the record
    /// that is waited for. While it waits, a reply of 0 says that the child is
    /// still alive, and the wait goes on; a failure ends it in the system's error;
    /// any other reply says that the child has changed state, and the terminal is
    /// closed next, where the record owes its closing. Whatever the closing
    /// returns, the wait is then over, and has gone well.
    pub open spec fn heard(self, reply: Reply, child: Child) -> ChildWait {
        match self {
            ChildWait::Pending { pid } => if reply.value == 0 {
                self
            } else if reply.value == -1 {
                ChildWait::Done { outcome: Err(WaitError::Failed(reply.cause())) }
            } else {
                match child.owes() {
                    Some(fd) => ChildWait::Closing { fd },
                    None => ChildWait::Done { outcome: Ok(()) },
                }
            },
            ChildWait::Closing { fd } => ChildWait::Done { outcome: Ok(()) },
            ChildWait::Done { outcome } => self,
        }
    }

    /// The record after `reply` has answered the wait's call. The record hands the
    /// closing of its terminal to the wait in the one step that sees the child
    /// change state. In every other step, and so when the wait fails, the record
    /// stays as it is and goes on owing what it owed.
    pub open spec fn leaves(self, reply: Reply, child: Child) -> Child {
        if self.sees_change(reply) {
            child.released()
        } else {
            child
        }
    }

    /// The call that the driver is to make next.
    pub fn request(&self) -> (request: Request)
        ensures
            request@ == self.asks(),
    {
        match self {
            ChildWait::Pending { pid } => Request::Wait { pid: *pid },
            ChildWait::Closing { fd } => Request::Close { fd: *fd },
            ChildWait::Done { .. } => Request::Nothing,
        }
    }

    /// Moves the wait on by the reply to the call it asked for. `child` is the
    /// record that is waited for: when the child is seen to change state, the
    /// closing of its terminal passes from the record to the wait.
    pub fn step(self, reply: Reply, child: &mut Child) -> (next: ChildWait)
        ensures
            next == self.heard(reply, *old(child)),
            *final(child) == self.leaves(reply, *old(child)),
    {
        match self {
            ChildWait::Pending { pid } => match reply.value {
                0 => ChildWait::Pending { pid },
                -1 => ChildWait::Done {
                    outcome: Err(WaitError::Failed(OsError { errno: reply.errno })),
                },
                _ => match child.release() {
                    Some(fd) => ChildWait::Closing { fd },
                    None => ChildWait::Done { outcome: Ok(()) },
                },
            },
            ChildWait::Closing { .. } => ChildWait::Done { outcome: Ok(()) },
            done => done,
        }
    }

    /// What the wait has ended in; nothing while it goes on. A failure is given as
    /// a text: the description of the system's error, or [`IS_CHILD`] where the wait
    /// was asked of the child itself.
    pub fn finish(&self) -> (outcome: Option<Result<(), &'static str>>)
        ensures
            match *self {
                ChildWait::Done { outcome: Ok(()) } => outcome == Some(
                    Ok::<(), &'static str>(()),
                ),
                ChildWait::Done { outcome: Err(WaitError::Failed(e)) } => outcome matches Some(
                    Err(text),
                ) && text@ == errno_text(e.errno),
                ChildWait::Done { outcome: Err(WaitError::IsChild) } => outcome matches Some(
                    Err(text),
                ) && text@ == IS_CHILD@,
                _ => outcome is None,
            },
    {
        match self {
            ChildWait::Done { outcome: Ok(()) } => Some(Ok(())),
            ChildWait::Done { outcome: Err(WaitError::Failed(e)) } => Some(Err(e.desc())),
            ChildWait::Done { outcome: Err(WaitError::IsChild) } => Some(Err(IS_CHILD)),
            _ => None,
        }
    }
}

impl Child {
    /// Whether this is the record that the fork has left in the child itself: the
    /// process id is 0, or there is no terminal.
    pub open spec fn in_child(self) -> bool {
        self.pid == 0 || self.pty is None
    }

    /// The descriptor that the record still owes the system the closing of.
    pub open spec fn owes(self) -> Option<i32> {
        match self.pty {
            Some(pty) => if pty.owner {
                Some(pty.fd)
            } else {
                None
            },
            None => None,
        }
    }

    /// The record once it owes nothing.
    pub open spec fn released(self) -> Child {
        match self.pty {
            Some(pty) => Child { pid: self.pid, pty: Some(pty.shared()) },
            None => self,
        }
    }

    /// The wait that the record begins with: over at once, in `IsChild`, in the
    /// child itself; for the child in the parent.
    pub open spec fn waiting(self) -> ChildWait {
        if self.in_child() {
            ChildWait::Done { outcome: Err(WaitError::IsChild) }
        } else {
            ChildWait::Pending { pid: self.pid }
        }
    }

    /// The child's process id: 0 in the child itself.
    pub fn pid(&self) -> (pid: i32)
        ensures
            pid == self.pid,
    {
        self.pid
    }

    /// A second handle to the child's terminal; there is none in the child itself.
    /// The handle owes no closing: that stays with the record.
    pub fn pty(&self) -> (pty: Option<ChildPTY>)
        ensures
            pty == (match self.pty {
                Some(own) => Some(own.shared()),
                None => None,
            }),
    {
        match &self.pty {
            Some(own) => Some(own.share()),
            None => None,
        }
    }

    /// Ends the record's hold on its terminal. What is returned is the descriptor
    /// that the caller must now close: the master's, the first time, in the parent.
    /// Any later call, and any call in the child, returns nothing.
    pub fn release(&mut self) -> (fd: Option<i32>)
        ensures
            fd == old(self).owes(),
            *final(self) == old(self).released(),
            final(self).owes() is None,
    {
        match &mut self.pty {
            Some(pty) => match pty.close() {
                Request::Close { fd } => Some(fd),
                _ => None,
            },
            None => None,
        }
    }

    /// Begins to wait until the child has terminated; its terminal is closed then.
    /// The record stays as it is: it goes on owing the closing of its terminal
    /// until a step of the wait sees the child change state. In the child itself
    /// there is nothing to wait for: the wait is over, in `IsChild`, before any
    /// call is asked for.
    pub fn wait(&self) -> (wait: ChildWait)
        ensures
            wait == self.waiting(),
    {
        if self.pid == 0 || self.pty.is_none() {
            ChildWait::Done { outcome: Err(WaitError::IsChild) }
        } else {
            ChildWait::Pending { pid: self.pid }
        }
    }
}

} // verus!
