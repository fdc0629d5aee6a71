//! What holds of every run of the plain fork protocol and of every wait for a child.

use super::{Child, ChildPTY, ChildWait, PtyForkStage, WaitError};
use crate::call::{EventView, Reply, RequestView, Stream};
use vstd::prelude::*;

verus! {

/// The stage that the protocol reaches from `stage` when `events` arrive one after
/// the other.
pub open spec fn run(stage: PtyForkStage, events: Seq<EventView>) -> PtyForkStage
    decreases events.len(),
{
    if events.len() == 0 {
        stage
    } else {
        run(stage, events.drop_last()).step(events.last())
    }
}

/// The stage of a run from the start at the moment before event `i` arrives.
pub open spec fn at(events: Seq<EventView>, i: int) -> PtyForkStage {
    run(PtyForkStage::Start, events.take(i))
}

/// The wait that is reached, and the record that is left, when `replies` arrive one
/// after the other at the wait `wait` for the record `child`.
pub open spec fn waited(wait: ChildWait, child: Child, replies: Seq<Reply>) -> (ChildWait, Child)
    decreases replies.len(),
{
    if replies.len() == 0 {
        (wait, child)
    } else {
        let before = waited(wait, child, replies.drop_last());
        (before.0.heard(replies.last(), before.1), before.0.leaves(replies.last(), before.1))
    }
}

impl PtyForkStage {
    /// How many calls have been answered well when the protocol stands at this
    /// stage. A failure counts for nothing.
    pub open spec fn rank(self) -> int {
        match self {
            PtyForkStage::Start => 0,
            PtyForkStage::Opened { master } => 1,
            PtyForkStage::Granted { master } => 2,
            PtyForkStage::Ready { master } => 3,
            PtyForkStage::Forked { master } => 4,
            PtyForkStage::Named { master, name } => 5,
            PtyForkStage::Detached { name } => 6,
            PtyForkStage::Leader { name } => 7,
            PtyForkStage::Wiring { slave, stream } => 8 + stream.slot(),
            PtyForkStage::Wired { slave } => 11,
            PtyForkStage::Done { child } => if child.pty is Some {
                4
            } else {
                12
            },
            PtyForkStage::Failed { error, left } => 0,
        }
    }

    /// Whether `event` reports that the call that the stage asks for has failed.
    pub open spec fn fails_on(self, event: EventView) -> bool {
        self.outcome() is None && match event {
            EventView::Returned(reply) => !(self is Forked) && reply.failed(),
            EventView::Named { name, errno } => self is Forked && name is None,
        }
    }
}

/// Each event moves a run by one step.
pub proof fn lemma_at_next(events: Seq<EventView>, i: int)
    requires
        0 <= i < events.len(),
    ensures
        at(events, i + 1) == at(events, i).step(events[i]),
        at(events, 0) == PtyForkStage::Start,
{
    assert(events.take(i + 1).drop_last() =~= events.take(i));
    assert(events.take(i + 1).last() == events[i]);
    assert(events.take(0) =~= Seq::<EventView>::empty());
}

/// A failure ends the protocol, whatever the stage: when the call that a stage asks
/// for is reported to have failed, the protocol ends in the system's error at once,
/// stays there, asks for no further call, and owes the closing of the descriptor
/// that the stage had open and had not yet asked to close.
pub proof fn law_failure_ends(events: Seq<EventView>, j: int, k: int)
    requires
        0 <= j < k <= events.len(),
        at(events, j).fails_on(events[j]),
    ensures
        at(events, k) == at(events, j).step(events[j]),
        at(events, k) is Failed,
        at(events, k).owes() == at(events, j).holds(),
        at(events, k).request() is Nothing,
    decreases k - j,
{
    if k == j + 1 {
        lemma_at_next(events, j);
    } else {
        law_failure_ends(events, j, k - 1);
        lemma_at_next(events, k - 1);
    }
}

/// A run never goes back: as long as it has not failed, each of its stages stands at
/// least as far along the protocol as every stage before it.
pub proof fn law_never_back(events: Seq<EventView>, i: int, j: int)
    requires
        0 <= i <= j <= events.len(),
        !(at(events, j) is Failed),
    ensures
        at(events, i).rank() <= at(events, j).rank(),
        !(at(events, i) is Failed),
    decreases j - i,
{
    if i < j {
        lemma_at_next(events, j - 1);
        law_never_back(events, i, j - 1);
    }
}

/// If the master is opened but the grant fails, the protocol ends in the grant's
/// error with the master left to be closed, and neither the unlock nor the fork is
/// asked for at any moment of the run.
pub proof fn law_failed_grant_ends(events: Seq<EventView>, j: int, master: i32, reply: Reply)
    requires
        0 <= j < events.len(),
        at(events, j).request() == (RequestView::Grant { fd: master }),
        events[j] == EventView::Returned(reply),
        reply.failed(),
    ensures
        forall|k: int|
            j < k <= events.len() ==> #[trigger] at(events, k) == (PtyForkStage::Failed {
                error: reply.cause(),
                left: Some(master),
            }),
        forall|k: int|
            0 <= k <= events.len() ==> !((#[trigger] at(events, k)).request() is Unlock) && !(at(
                events,
                k,
            ).request() is Fork),
{
    assert forall|k: int| j < k <= events.len() implies #[trigger] at(events, k) == (
    PtyForkStage::Failed { error: reply.cause(), left: Some(master) }) by {
        law_failure_ends(events, j, k);
    }
    assert forall|k: int| 0 <= k <= events.len() implies !((#[trigger] at(
        events,
        k,
    )).request() is Unlock) && !(at(events, k).request() is Fork) by {
        if k <= j {
            law_never_back(events, k, j);
        }
    }
}

/// If the duplication onto standard input fails, the protocol ends in that error
/// with the slave left to be closed, and the duplication onto standard output or
/// onto standard error is not asked for at any moment of the run.
pub proof fn law_failed_stdin_ends(events: Seq<EventView>, j: int, slave: i32, reply: Reply)
    requires
        0 <= j < events.len(),
        at(events, j).request() == (RequestView::Dup { fd: slave, stream: Stream::Stdin }),
        events[j] == EventView::Returned(reply),
        reply.failed(),
    ensures
        forall|k: int|
            j < k <= events.len() ==> #[trigger] at(events, k) == (PtyForkStage::Failed {
                error: reply.cause(),
                left: Some(slave),
            }),
        forall|k: int|
            0 <= k <= events.len() ==> !((#[trigger] at(events, k)).request() matches RequestView::Dup {
                fd,
                stream,
            } && stream != Stream::Stdin),
{
    assert forall|k: int| j < k <= events.len() implies #[trigger] at(events, k) == (
    PtyForkStage::Failed { error: reply.cause(), left: Some(slave) }) by {
        law_failure_ends(events, j, k);
    }
    assert forall|k: int| 0 <= k <= events.len() implies !((#[trigger] at(
        events,
        k,
    )).request() matches RequestView::Dup { fd, stream } && stream != Stream::Stdin) by {
        if k <= j {
            law_never_back(events, k, j);
        }
    }
}

/// A failed call ends the plain protocol and leaves behind what the stage held: the
/// protocol ends in the system's error, asks for no further call, and owes the
/// closing of the descriptor that it had open and had not yet asked to close.
pub proof fn law_failure_leaves_descriptor(stage: PtyForkStage, reply: Reply)
    requires
        stage.outcome() is None,
        !(stage is Forked),
        reply.failed(),
    ensures
        stage.step(EventView::Returned(reply)) == (PtyForkStage::Failed {
            error: reply.cause(),
            left: stage.holds(),
        }),
        stage.step(EventView::Returned(reply)).owes() == stage.holds(),
        stage.step(EventView::Returned(reply)).request() is Nothing,
        stage.step(EventView::Returned(reply)).released().owes() is None,
{
}

/// In the child itself a wait fails with `IsChild` and never blocks: it is over
/// before anything is heard, asks for no call, stays so whatever is reported, and
/// leaves the record as it was.
pub proof fn law_child_never_waits(child: Child, replies: Seq<Reply>)
    requires
        child.in_child(),
    ensures
        child.waiting() == (ChildWait::Done { outcome: Err(WaitError::IsChild) }),
        child.waiting().asks() is Nothing,
        waited(child.waiting(), child, replies) == (child.waiting(), child),
    decreases replies.len(),
{
    if replies.len() > 0 {
        law_child_never_waits(child, replies.drop_last());
    }
}

/// While the child is reported to be alive, the wait goes on: no number of such
/// reports ends it, it keeps asking for its own child, and the record stays as it
/// is.
pub proof fn law_wait_goes_on(child: Child, replies: Seq<Reply>)
    requires
        !child.in_child(),
        forall|i: int| 0 <= i < replies.len() ==> (#[trigger] replies[i]).value == 0,
    ensures
        waited(child.waiting(), child, replies) == (ChildWait::Pending { pid: child.pid }, child),
    decreases replies.len(),
{
    if replies.len() > 0 {
        law_wait_goes_on(child, replies.drop_last());
    }
}

/// A wait that fails leaves the terminal with its owner. When the system's wait is
/// reported to have failed, after any number of reports that the child is alive,
/// the wait ends in the system's error and asks for no call, not for a closing
/// either; the record is unchanged and owes what it owed before.
pub proof fn law_failed_wait_leaves_record(child: Child, alive: Seq<Reply>, reply: Reply)
    requires
        !child.in_child(),
        forall|i: int| 0 <= i < alive.len() ==> (#[trigger] alive[i]).value == 0,
        reply.failed(),
    ensures
        waited(child.waiting(), child, alive.push(reply)) == (
            ChildWait::Done { outcome: Err(WaitError::Failed(reply.cause())) },
            child,
        ),
        waited(child.waiting(), child, alive.push(reply)).0.asks() is Nothing,
        waited(child.waiting(), child, alive.push(reply)).1.owes() == child.owes(),
{
    law_wait_goes_on(child, alive);
    assert(alive.push(reply).drop_last() =~= alive);
}

/// A wait that sees the child change state takes the closing of the terminal from
/// the record: it asks for the closing of the descriptor that the record owed, and
/// the record owes nothing from then on. Where the record owed nothing, the wait is
/// over at once and asks for no closing.
pub proof fn law_wait_closes_what_is_owed(child: Child, alive: Seq<Reply>, reply: Reply)
    requires
        !child.in_child(),
        forall|i: int| 0 <= i < alive.len() ==> (#[trigger] alive[i]).value == 0,
        reply.value != 0,
        reply.value != -1,
    ensures
        waited(child.waiting(), child, alive.push(reply)).1 == child.released(),
        waited(child.waiting(), child, alive.push(reply)).1.owes() is None,
        waited(child.waiting(), child, alive.push(reply)).0 == (match child.owes() {
            Some(fd) => ChildWait::Closing { fd },
            None => ChildWait::Done { outcome: Ok(()) },
        }),
{
    law_wait_goes_on(child, alive);
    assert(alive.push(reply).drop_last() =~= alive);
}

/// A terminal is closed once at most. Once a wait has seen the child change state,
/// or the record has been released, no later wait on the record asks for a closing;
/// and a handle that was handed out by the record asks for none either.
pub proof fn law_terminal_closed_once(child: Child, pty: ChildPTY, reply: Reply)
    ensures
        !(child.released().waiting().heard(reply, child.released()) is Closing),
        child.released().owes() is None,
        child.released().released() == child.released(),
        pty.shared().closing() is Nothing,
{
}

} // verus!
