//! What the library asks of the operating system, and what it hears back.

use crate::errno::{to_result, to_result_with, OsError};
use vstd::prelude::*;
use vstd::slice::slice_to_vec;
use vstd::string::StringSliceAdditionalSpecFns;

verus! {

/// What an integer-returning system call handed back: its return value, and the error
/// number that stood behind it. The error number counts only where the value
/// reports failure.
#[derive(Clone, Copy, Debug, PartialEq, Eq, Structural)]
pub struct Reply {
    pub value: i32,
    pub errno: i32,
}

impl Reply {
    /// Whether the call failed.
    pub open spec fn failed(self) -> bool {
        self.value == -1
    }

    /// The error behind a failed call.
    pub open spec fn cause(self) -> OsError {
        OsError { errno: self.errno }
    }

    /// The reply as a `Result`: the error behind a failure, the value otherwise.
    pub open spec fn as_result(self) -> Result<i32, OsError> {
        if self.failed() {
            Err(self.cause())
        } else {
            Ok(self.value)
        }
    }

    /// The reply of a call that has returned `value` while the system held the error
    /// number `errno`: the number is kept beside a failure, and is 0 otherwise.
    pub open spec fn recorded(value: i32, errno: i32) -> Reply {
        Reply { value, errno: if value == -1 { errno } else { 0 } }
    }

    /// Records the reply of a call that has returned `value` while the system held
    /// the error number `errno`.
    pub fn record(value: i32, errno: i32) -> (reply: Reply)
        ensures
            reply == Reply::recorded(value, errno),
    {
        match to_result_with(value, errno) {
            Ok(v) => Reply { value: v, errno: 0 },
            Err(e) => Reply { value, errno: e.errno },
        }
    }

    /// Records the reply of a call that has just returned `value`. Where the value
    /// reports failure the error number is read from the system; otherwise it is 0.
    pub fn observe(value: i32) -> (reply: Reply)
        ensures
            reply.value == value,
            value != -1 ==> reply.errno == 0,
            exists|errno: i32| reply == Reply::recorded(value, errno),
    {
        match to_result(value) {
            Ok(v) => {
                let reply = Reply::record(v, 0);
                assert(reply == Reply::recorded(value, 0));
                reply
            },
            Err(e) => {
                let reply = Reply::record(value, e.errno);
                assert(reply == Reply::recorded(value, e.errno));
                reply
            },
        }
    }

    /// The reply as a `Result`: the error behind a failure, the value otherwise.
    pub fn result(&self) -> (res: Result<i32, OsError>)
        ensures
            res == self.as_result(),
    {
        if self.value == -1 {
            Err(OsError { errno: self.errno })
        } else {
            Ok(self.value)
        }
    }
}

/// One of the three standard stream slots of a process.
#[derive(Clone, Copy, Debug, PartialEq, Eq, Structural)]
pub enum Stream {
    Stdin,
    Stdout,
    Stderr,
}

impl Stream {
    /// The descriptor number of the slot.
    pub open spec fn slot(self) -> int {
        match self {
            Stream::Stdin => 0,
            Stream::Stdout => 1,
            Stream::Stderr => 2,
        }
    }

    /// The slot that is rewired after this one, if any.
    pub open spec fn following(self) -> Option<Stream> {
        match self {
            Stream::Stdin => Some(Stream::Stdout),
            Stream::Stdout => Some(Stream::Stderr),
            Stream::Stderr => None,
        }
    }

    /// The descriptor number of the slot.
    pub fn fileno(&self) -> (fd: i32)
        ensures
            fd == self.slot(),
    {
        match self {
            Stream::Stdin => 0,
            Stream::Stdout => 1,
            Stream::Stderr => 2,
        }
    }

    /// The slot that is rewired after this one, if any.
    pub fn next(&self) -> (s: Option<Stream>)
        ensures
            s == self.following(),
    {
        match self {
            Stream::Stdin => Some(Stream::Stdout),
            Stream::Stdout => Some(Stream::Stderr),
            Stream::Stderr => None,
        }
    }
}

/// A call that the library asks its driver to make.
#[derive(Debug, PartialEq, Eq)]
pub enum Request {
    /// Open the device at `path` for reading and writing.
    Open { path: Vec<u8> },
    /// Open a new master through the system's own multiplexer.
    OpenPt,
    /// Grant access to the slave of the master `fd`.
    Grant { fd: i32 },
    /// Unlock the slave of the master `fd`.
    Unlock { fd: i32 },
    /// Fork the process.
    Fork,
    /// Look up the path of the slave of the master `fd`.
    SlaveName { fd: i32 },
    /// Make the process a session leader.
    Setsid,
    /// Make `stream` refer to what `fd` refers to.
    Dup { fd: i32, stream: Stream },
    /// Close the descriptor `fd`.
    Close { fd: i32 },
    /// Wait for the process `pid` to change state.
    Wait { pid: i32 },
    /// There is nothing left to do.
    Nothing,
}

/// A [`Request`] as a mathematical value.
pub enum RequestView {
    Open { path: Seq<u8> },
    OpenPt,
    Grant { fd: i32 },
    Unlock { fd: i32 },
    Fork,
    SlaveName { fd: i32 },
    Setsid,
    Dup { fd: i32, stream: Stream },
    Close { fd: i32 },
    Wait { pid: i32 },
    Nothing,
}

impl View for Request {
    type V = RequestView;

    open spec fn view(&self) -> RequestView {
        match *self {
            Request::Open { path } => RequestView::Open { path: path@ },
            Request::OpenPt => RequestView::OpenPt,
            Request::Grant { fd } => RequestView::Grant { fd },
            Request::Unlock { fd } => RequestView::Unlock { fd },
            Request::Fork => RequestView::Fork,
            Request::SlaveName { fd } => RequestView::SlaveName { fd },
            Request::Setsid => RequestView::Setsid,
            Request::Dup { fd, stream } => RequestView::Dup { fd, stream },
            Request::Close { fd } => RequestView::Close { fd },
            Request::Wait { pid } => RequestView::Wait { pid },
            Request::Nothing => RequestView::Nothing,
        }
    }
}

/// What the driver reports after it has made a call.
#[derive(Debug, PartialEq, Eq)]
pub enum Event {
    /// An integer-returning call came back.
    Returned(Reply),
    /// The lookup of a slave's path came back: with the path, or with none and the
    /// error number behind that.
    Named { name: Option<Vec<u8>>, errno: i32 },
}

/// An [`Event`] as a mathematical value.
pub enum EventView {
    Returned(Reply),
    Named { name: Option<Seq<u8>>, errno: i32 },
}

impl View for Event {
    type V = EventView;

    open spec fn view(&self) -> EventView {
        match *self {
            Event::Returned(reply) => EventView::Returned(reply),
            Event::Named { name, errno } => EventView::Named {
                name: match name {
                    Some(n) => Some(n@),
                    None => None,
                },
                errno,
            },
        }
    }
}

impl Event {
    /// Records that an integer-returning call has just returned `value`. Where the
    /// value reports failure the error number is read from the system.
    pub fn returned(value: i32) -> (event: Event)
        ensures
            event@ is Returned,
            event@->0.value == value,
            value != -1 ==> event@->0.errno == 0,
            exists|errno: i32| event == Event::Returned(Reply::recorded(value, errno)),
    {
        let reply = Reply::observe(value);
        let event = Event::Returned(reply);
        proof {
            let errno = choose|errno: i32| reply == Reply::recorded(value, errno);
            assert(event == Event::Returned(Reply::recorded(value, errno)));
        }
        event
    }

    /// The event of a lookup that has come back with `name` while the system held
    /// the error number `errno`: the number is kept where there is no name, and is 0
    /// otherwise.
    pub open spec fn looked_up(name: Option<Vec<u8>>, errno: i32) -> Event {
        Event::Named { name, errno: if name is None { errno } else { 0 } }
    }

    /// Records that the lookup of a slave's path has come back with `name` while the
    /// system held the error number `errno`.
    pub fn lookup(name: Option<Vec<u8>>, errno: i32) -> (event: Event)
        ensures
            event == Event::looked_up(name, errno),
    {
        match name {
            Some(n) => Event::Named { name: Some(n), errno: 0 },
            None => Event::Named { name: None, errno },
        }
    }

    /// Records that the lookup of a slave's path has just come back with `name`.
    /// Where there is none the error number is read from the system.
    pub fn named(name: Option<Vec<u8>>) -> (event: Event)
        ensures
            event matches Event::Named { name: n, errno } && n == name && (name is Some ==> errno
                == 0),
            exists|errno: i32| event == Event::looked_up(name, errno),
    {
        let errno = match name {
            Some(_) => 0,
            None => OsError::last().errno,
        };
        let event = Event::lookup(name, errno);
        assert(event == Event::looked_up(name, errno));
        event
    }
}

/// The bytes that stand for a path when it is handed to the system as a C string:
/// the path's own bytes, or none at all where a zero byte occurs among them.
pub open spec fn c_string_bytes(bytes: Seq<u8>) -> Seq<u8> {
    if bytes.contains(0u8) {
        Seq::empty()
    } else {
        bytes
    }
}

/// The bytes that stand for `path` when it is handed to the system as a C string.
pub fn c_path(path: &str) -> (bytes: Vec<u8>)
    ensures
        bytes@ == c_string_bytes(path.spec_bytes()),
{
    let raw = path.as_bytes();
    let mut i: usize = 0;
    while i < raw.len()
        invariant
            i <= raw@.len(),
            raw@ == path.spec_bytes(),
            forall|j: int| 0 <= j < i ==> raw@[j] != 0u8,
        decreases raw@.len() - i,
    {
        if raw[i] == 0 {
            assert(raw@.contains(0u8));
            return Vec::new();
        }
        i += 1;
    }
    slice_to_vec(raw)
}

} // verus!
