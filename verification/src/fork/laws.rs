//! What holds of every run of the fork protocol and of every wait.

use super::{Fork, ForkError, Master, MasterError, Slave, SlaveError, Stage, Wait};
use crate::call::{EventView, Reply, RequestView, Stream};
use vstd::prelude::*;

verus! {

/// The stage that the protocol reaches from `stage` when `events` arrive one after
/// the other.
pub open spec fn run(stage: Stage, events: Seq<EventView>) -> Stage
    decreases events.len(),
{
    if events.len() == 0 {
        stage
    } else {
        run(stage, events.drop_last()).step(events.last())
    }
}

/// The stage of a run from `stage` at the moment before event `i` arrives.
pub open spec fn at(stage: Stage, events: Seq<EventView>, i: int) -> Stage {
    run(stage, events.take(i))
}

/// The wait that is reached from `wait` when `replies` arrive one after the other.
pub open spec fn waited(wait: Wait, replies: Seq<Reply>) -> Wait
    decreases replies.len(),
{
    if replies.len() == 0 {
        wait
    } else {
        waited(wait, replies.drop_last()).heard(replies.last())
    }
}

impl Stage {
    /// How many calls have been answered well when the protocol stands at this
    /// stage. A failure counts for nothing.
    pub open spec fn rank(self) -> int {
        match self {
            Stage::Start { path } => 0,
            Stage::MasterAllocated { master } => 1,
            Stage::MasterGranted { master } => 2,
            Stage::MasterReady { master } => 3,
            Stage::Forked { master } => 4,
            Stage::Named { name } => 5,
            Stage::Leader { name } => 6,
            Stage::Wiring { slave, stream } => 7 + stream.slot(),
            Stage::Done { fork } => match fork {
                Fork::Father(pid, master) => 4,
                Fork::Child(slave) => 10,
            },
            Stage::Failed { error, master } => 0,
        }
    }

    /// Whether the stage lies on the child's side of the fork.
    pub open spec fn in_child(self) -> bool {
        match self {
            Stage::Forked { master } => true,
            Stage::Named { name } => true,
            Stage::Leader { name } => true,
            Stage::Wiring { slave, stream } => true,
            Stage::Done { fork } => fork is Child,
            _ => false,
        }
    }
}

/// Each event moves a run by one step.
pub proof fn lemma_at_next(stage: Stage, events: Seq<EventView>, i: int)
    requires
        0 <= i < events.len(),
    ensures
        at(stage, events, i + 1) == at(stage, events, i).step(events[i]),
        at(stage, events, 0) == stage,
{
    assert(events.take(i + 1).drop_last() =~= events.take(i));
    assert(events.take(i + 1).last() == events[i]);
    assert(events.take(0) =~= Seq::<EventView>::empty());
}

/// When every call goes well and the fork returns a child's process id, the
/// protocol ends after four calls, in the parent's handle: it holds that process
/// id and owns the master that the opening of the multiplexer gave.
pub proof fn law_parent_run(path: Seq<u8>, open: Reply, grant: Reply, unlock: Reply, fork: Reply)
    requires
        !open.failed(),
        !grant.failed(),
        !unlock.failed(),
        !fork.failed(),
        fork.value != 0,
    ensures
        run(
            Stage::start(path),
            seq![
                EventView::Returned(open),
                EventView::Returned(grant),
                EventView::Returned(unlock),
                EventView::Returned(fork),
            ],
        ) == (Stage::Done {
            fork: Fork::Father(fork.value, Master { fd: open.value, owner: true }),
        }),
{
    let start = Stage::start(path);
    let e = seq![
        EventView::Returned(open),
        EventView::Returned(grant),
        EventView::Returned(unlock),
        EventView::Returned(fork),
    ];
    assert(e.take(0) =~= Seq::<EventView>::empty());
    lemma_at_next(start, e, 0);
    lemma_at_next(start, e, 1);
    lemma_at_next(start, e, 2);
    lemma_at_next(start, e, 3);
    assert(e.take(4) =~= e);
}

/// When every call goes well and the fork returns 0, the protocol ends after ten
/// calls, in the child's handle: it holds the slave that the opening of the looked-up
/// path gave. On the way the slave is opened at the very path that the lookup gave.
pub proof fn law_child_run(
    path: Seq<u8>,
    open: Reply,
    grant: Reply,
    unlock: Reply,
    name: Seq<u8>,
    setsid: Reply,
    slave: Reply,
    stdin: Reply,
    stdout: Reply,
    stderr: Reply,
)
    requires
        !open.failed(),
        !grant.failed(),
        !unlock.failed(),
        !setsid.failed(),
        !slave.failed(),
        !stdin.failed(),
        !stdout.failed(),
        !stderr.failed(),
    ensures
        ({
            let events = seq![
                EventView::Returned(open),
                EventView::Returned(grant),
                EventView::Returned(unlock),
                EventView::Returned(Reply { value: 0, errno: 0 }),
                EventView::Named { name: Some(name), errno: 0 },
                EventView::Returned(setsid),
                EventView::Returned(slave),
                EventView::Returned(stdin),
                EventView::Returned(stdout),
                EventView::Returned(stderr),
            ];
            &&& run(Stage::start(path), events) == (Stage::Done {
                fork: Fork::Child(Slave { fd: slave.value }),
            })
            &&& at(Stage::start(path), events, 6).request() == (RequestView::Open { path: name })
        }),
{
    let start = Stage::start(path);
    let e = seq![
        EventView::Returned(open),
        EventView::Returned(grant),
        EventView::Returned(unlock),
        EventView::Returned(Reply { value: 0, errno: 0 }),
        EventView::Named { name: Some(name), errno: 0 },
        EventView::Returned(setsid),
        EventView::Returned(slave),
        EventView::Returned(stdin),
        EventView::Returned(stdout),
        EventView::Returned(stderr),
    ];
    assert(e.take(0) =~= Seq::<EventView>::empty());
    lemma_at_next(start, e, 0);
    lemma_at_next(start, e, 1);
    lemma_at_next(start, e, 2);
    lemma_at_next(start, e, 3);
    lemma_at_next(start, e, 4);
    lemma_at_next(start, e, 5);
    lemma_at_next(start, e, 6);
    lemma_at_next(start, e, 7);
    lemma_at_next(start, e, 8);
    lemma_at_next(start, e, 9);
    assert(e.take(10) =~= e);
}

/// Once the protocol has ended, nothing moves it: whatever is reported afterwards, it
/// keeps its outcome and what it owes, and asks for no call.
pub proof fn law_done_stays(stage: Stage, events: Seq<EventView>)
    requires
        stage.outcome() is Some,
    ensures
        run(stage, events) == stage,
        run(stage, events).request() is Nothing,
    decreases events.len(),
{
    if events.len() > 0 {
        law_done_stays(stage, events.drop_last());
    }
}

/// A failure ends the protocol, whatever the stage: when the call that a stage asks
/// for is reported to have failed, the protocol ends in an error at once, stays
/// there, and asks for no further call.
pub proof fn law_failure_ends(stage: Stage, events: Seq<EventView>, j: int, k: int)
    requires
        0 <= j < k <= events.len(),
        at(stage, events, j).fails_on(events[j]),
    ensures
        at(stage, events, k) == at(stage, events, j).step(events[j]),
        at(stage, events, k).outcome() matches Some(Err(_)),
        at(stage, events, k).request() is Nothing,
    decreases k - j,
{
    if k == j + 1 {
        lemma_at_next(stage, events, j);
    } else {
        law_failure_ends(stage, events, j, k - 1);
        lemma_at_next(stage, events, k - 1);
    }
}

/// The calls are asked for in order. Every stage of a run that began at the start
/// has been reached from the stage just before it in the order of the protocol, by a
/// report that that stage's call went well. So a stage is reached only after every
/// call before it has been made and has succeeded: grant before unlock, both before
/// the fork, session leadership before the slave is opened, and the standard streams
/// one after the other.
pub proof fn law_calls_in_order(path: Seq<u8>, events: Seq<EventView>, i: int)
    requires
        0 <= i <= events.len(),
        at(Stage::start(path), events, i).rank() > 0,
    ensures
        exists|j: int|
            0 <= j < i && #[trigger] at(Stage::start(path), events, j).rank() + 1 == at(
                Stage::start(path),
                events,
                i,
            ).rank() && at(Stage::start(path), events, j).hears(events[j]) && !at(
                Stage::start(path),
                events,
                j,
            ).fails_on(events[j]) && at(Stage::start(path), events, j).step(events[j]) == at(
                Stage::start(path),
                events,
                i,
            ),
    decreases i,
{
    let start = Stage::start(path);
    if i == 0 {
        assert(events.take(0) =~= Seq::<EventView>::empty());
    } else {
        lemma_at_next(start, events, i - 1);
        let before = at(start, events, i - 1);
        let now = at(start, events, i);
        if before == now {
            law_calls_in_order(path, events, i - 1);
            let j = choose|j: int|
                0 <= j < i - 1 && #[trigger] at(start, events, j).rank() + 1 == before.rank()
                    && at(start, events, j).hears(events[j]) && !at(start, events, j).fails_on(
                    events[j],
                ) && at(start, events, j).step(events[j]) == before;
            assert(0 <= j < i && at(start, events, j).rank() + 1 == now.rank());
        } else {
            assert(before.rank() + 1 == now.rank());
            assert(before.hears(events[i - 1]));
        }
    }
}

/// No call is skipped. A run that began at the start and stands at some stage has
/// stood at every earlier stage of the protocol's order, and has heard there that
/// the stage's call went well.
pub proof fn law_no_call_skipped(path: Seq<u8>, events: Seq<EventView>, i: int, rank: int)
    requires
        0 <= i <= events.len(),
        0 <= rank < at(Stage::start(path), events, i).rank(),
    ensures
        exists|j: int|
            0 <= j < i && (#[trigger] at(Stage::start(path), events, j)).rank() == rank && at(
                Stage::start(path),
                events,
                j,
            ).hears(events[j]) && !at(Stage::start(path), events, j).fails_on(events[j]),
    decreases i,
{
    let start = Stage::start(path);
    law_calls_in_order(path, events, i);
    let j = choose|j: int|
        0 <= j < i && #[trigger] at(start, events, j).rank() + 1 == at(start, events, i).rank()
            && at(start, events, j).hears(events[j]) && !at(start, events, j).fails_on(events[j])
            && at(start, events, j).step(events[j]) == at(start, events, i);
    if at(start, events, j).rank() != rank {
        law_no_call_skipped(path, events, j, rank);
        let k = choose|k: int|
            0 <= k < j && (#[trigger] at(start, events, k)).rank() == rank && at(
                start,
                events,
                k,
            ).hears(events[k]) && !at(start, events, k).fails_on(events[k]);
        assert(0 <= k < i && at(start, events, k).rank() == rank);
    }
}

/// The fork comes only when the master is ready: whenever a run asks for the fork,
/// it has asked for the opening of the multiplexer, for the grant and for the
/// unlock, and has been told of each that it went well.
pub proof fn law_fork_after_master_ready(path: Seq<u8>, events: Seq<EventView>, i: int)
    requires
        0 <= i <= events.len(),
        at(Stage::start(path), events, i).request() is Fork,
    ensures
        exists|j: int|
            0 <= j < i && (#[trigger] at(Stage::start(path), events, j)).request() is Open
                && events[j] is Returned && !events[j]->0.failed(),
        exists|j: int|
            0 <= j < i && (#[trigger] at(Stage::start(path), events, j)).request() is Grant
                && events[j] is Returned && !events[j]->0.failed(),
        exists|j: int|
            0 <= j < i && (#[trigger] at(Stage::start(path), events, j)).request() is Unlock
                && events[j] is Returned && !events[j]->0.failed(),
{
    law_no_call_skipped(path, events, i, 0);
    law_no_call_skipped(path, events, i, 1);
    law_no_call_skipped(path, events, i, 2);
}

/// The child leads its session before it touches the slave: whenever a run asks for
/// the slave to be opened or to be duplicated onto a standard stream, it has asked
/// for the session leadership and has been told that it went well.
pub proof fn law_session_before_slave(path: Seq<u8>, events: Seq<EventView>, i: int)
    requires
        0 <= i <= events.len(),
        at(Stage::start(path), events, i) is Leader || at(Stage::start(path), events, i) is Wiring,
    ensures
        exists|j: int|
            0 <= j < i && (#[trigger] at(Stage::start(path), events, j)).request() is Setsid
                && events[j] is Returned && !events[j]->0.failed(),
{
    law_no_call_skipped(path, events, i, 5);
}

/// A run never goes back: as long as it has not failed, each of its stages stands at
/// least as far along the protocol as every stage before it.
pub proof fn law_never_back(path: Seq<u8>, events: Seq<EventView>, i: int, j: int)
    requires
        0 <= i <= j <= events.len(),
        !(at(Stage::start(path), events, j).outcome() matches Some(Err(_))),
    ensures
        at(Stage::start(path), events, i).rank() <= at(Stage::start(path), events, j).rank(),
        !(at(Stage::start(path), events, i).outcome() matches Some(Err(_))),
    decreases j - i,
{
    if i < j {
        lemma_at_next(Stage::start(path), events, j - 1);
        law_never_back(path, events, i, j - 1);
    }
}

/// Grant is attempted before unlock: whenever a run asks for the unlock, it has
/// asked for the grant earlier and has been told that the grant went well.
pub proof fn law_grant_before_unlock(path: Seq<u8>, events: Seq<EventView>, i: int)
    requires
        0 <= i <= events.len(),
        at(Stage::start(path), events, i).request() is Unlock,
    ensures
        exists|j: int|
            0 <= j < i && (#[trigger] at(Stage::start(path), events, j)).request() is Grant
                && events[j] is Returned && !events[j]->0.failed(),
{
    law_calls_in_order(path, events, i);
}

/// If the master is allocated but the grant fails, the protocol ends in `BadMaster`
/// with the cause of the failure, and neither the unlock nor the fork is asked for
/// at any moment of the run.
pub proof fn law_failed_grant_ends(path: Seq<u8>, events: Seq<EventView>, j: int, reply: Reply)
    requires
        0 <= j < events.len(),
        at(Stage::start(path), events, j).request() is Grant,
        events[j] == EventView::Returned(reply),
        reply.failed(),
    ensures
        forall|k: int|
            j < k <= events.len() ==> (#[trigger] at(Stage::start(path), events, k)).outcome()
                == Some(
                Err::<Fork, ForkError>(
                    ForkError::BadMaster(MasterError::GrantptError(reply.cause())),
                ),
            ),
        forall|k: int|
            0 <= k <= events.len() ==> !((#[trigger] at(
                Stage::start(path),
                events,
                k,
            )).request() is Unlock) && !(at(Stage::start(path), events, k).request() is Fork),
{
    let start = Stage::start(path);
    assert forall|k: int| j < k <= events.len() implies (#[trigger] at(start, events, k)).outcome()
        == Some(
        Err::<Fork, ForkError>(ForkError::BadMaster(MasterError::GrantptError(reply.cause()))),
    ) by {
        law_failure_ends(start, events, j, k);
    }
    assert forall|k: int| 0 <= k <= events.len() implies !((#[trigger] at(
        start,
        events,
        k,
    )).request() is Unlock) && !(at(start, events, k).request() is Fork) by {
        if k <= j {
            law_never_back(path, events, k, j);
        }
    }
}

/// If the duplication onto standard input fails, the protocol ends in `BadSlave`
/// with the cause of the failure, and the duplication onto standard output or onto
/// standard error is not asked for at any moment of the run.
pub proof fn law_failed_stdin_ends(
    path: Seq<u8>,
    events: Seq<EventView>,
    j: int,
    fd: i32,
    reply: Reply,
)
    requires
        0 <= j < events.len(),
        at(Stage::start(path), events, j).request() == (RequestView::Dup {
            fd,
            stream: Stream::Stdin,
        }),
        events[j] == EventView::Returned(reply),
        reply.failed(),
    ensures
        forall|k: int|
            j < k <= events.len() ==> (#[trigger] at(Stage::start(path), events, k)).outcome()
                == Some(
                Err::<Fork, ForkError>(ForkError::BadSlave(SlaveError::Dup2Error(reply.cause()))),
            ),
        forall|k: int|
            0 <= k <= events.len() ==> !((#[trigger] at(
                Stage::start(path),
                events,
                k,
            )).request() matches RequestView::Dup { fd, stream } && stream != Stream::Stdin),
{
    let start = Stage::start(path);
    assert forall|k: int| j < k <= events.len() implies (#[trigger] at(start, events, k)).outcome()
        == Some(
        Err::<Fork, ForkError>(ForkError::BadSlave(SlaveError::Dup2Error(reply.cause()))),
    ) by {
        law_failure_ends(start, events, j, k);
    }
    assert forall|k: int| 0 <= k <= events.len() implies !((#[trigger] at(
        start,
        events,
        k,
    )).request() matches RequestView::Dup { fd, stream } && stream != Stream::Stdin) by {
        if k <= j {
            law_never_back(path, events, k, j);
        }
    }
}

/// Any failed duplication ends the protocol in `BadSlave`, and no later slot is
/// rewired: the run asks for no call from then on.
pub proof fn law_failed_rewiring_ends(
    path: Seq<u8>,
    events: Seq<EventView>,
    j: int,
    k: int,
    reply: Reply,
)
    requires
        0 <= j < k <= events.len(),
        at(Stage::start(path), events, j).request() is Dup,
        events[j] == EventView::Returned(reply),
        reply.failed(),
    ensures
        at(Stage::start(path), events, k).outcome() == Some(
            Err::<Fork, ForkError>(ForkError::BadSlave(SlaveError::Dup2Error(reply.cause()))),
        ),
        at(Stage::start(path), events, k).request() is Nothing,
{
    law_failure_ends(Stage::start(path), events, j, k);
}

/// The return value of the fork decides the side: a run that has ended in the
/// parent's handle, or stands on the child's side, has asked for the fork and has
/// heard the reply that belongs to that side.
proof fn lemma_sides(path: Seq<u8>, events: Seq<EventView>, i: int)
    requires
        0 <= i <= events.len(),
    ensures
        at(Stage::start(path), events, i).outcome() matches Some(Ok(Fork::Father(pid, master)))
            ==> pid != 0 && pid != -1 && exists|j: int|
            0 <= j < i && #[trigger] at(Stage::start(path), events, j) == (Stage::MasterReady {
                master,
            }) && events[j] is Returned && events[j]->0.value == pid,
        at(Stage::start(path), events, i).in_child() ==> exists|j: int|
            0 <= j < i && (#[trigger] at(Stage::start(path), events, j)).request() is Fork
                && events[j] is Returned && events[j]->0.value == 0,
    decreases i,
{
    let start = Stage::start(path);
    if i == 0 {
        assert(events.take(0) =~= Seq::<EventView>::empty());
    } else {
        lemma_at_next(start, events, i - 1);
        lemma_sides(path, events, i - 1);
        let before = at(start, events, i - 1);
        let now = at(start, events, i);
        if let Some(Ok(Fork::Father(pid, master))) = now.outcome() {
            if before != now {
                assert(before == Stage::MasterReady { master });
                assert(events[i - 1] is Returned);
            }
        }
        if now.in_child() {
            if before.in_child() {
                let j = choose|j: int|
                    0 <= j < i - 1 && (#[trigger] at(start, events, j)).request() is Fork
                        && events[j] is Returned && events[j]->0.value == 0;
                assert(0 <= j < i && at(start, events, j).request() is Fork);
            } else {
                assert(before.request() is Fork);
            }
        }
    }
}

/// A run ends in the parent's handle only in the process that the fork returned a
/// child's process id to. The run has asked for the fork when the master was ready,
/// and has heard a reply that was neither 0 nor −1; the handle holds that reply as
/// the child's process id, and the master that was made ready.
pub proof fn law_parent_side(
    path: Seq<u8>,
    events: Seq<EventView>,
    i: int,
    pid: i32,
    master: Master,
)
    requires
        0 <= i <= events.len(),
        at(Stage::start(path), events, i).outcome() == Some(
            Ok::<Fork, ForkError>(Fork::Father(pid, master)),
        ),
    ensures
        pid != 0,
        pid != -1,
        exists|j: int|
            0 <= j < i && #[trigger] at(Stage::start(path), events, j) == (Stage::MasterReady {
                master,
            }) && events[j] is Returned && events[j]->0.value == pid,
{
    lemma_sides(path, events, i);
}

/// A run stands on the child's side only in the process that the fork returned 0
/// to: it has asked for the fork and has heard the reply 0.
pub proof fn law_child_side(path: Seq<u8>, events: Seq<EventView>, i: int)
    requires
        0 <= i <= events.len(),
        at(Stage::start(path), events, i).in_child(),
    ensures
        exists|j: int|
            0 <= j < i && (#[trigger] at(Stage::start(path), events, j)).request() is Fork
                && events[j] is Returned && events[j]->0.value == 0,
{
    lemma_sides(path, events, i);
}

/// The fork is answered once at most: no run hears the reply to a fork at two
/// different moments.
pub proof fn law_one_fork(path: Seq<u8>, events: Seq<EventView>, i: int, j: int)
    requires
        0 <= i <= j < events.len(),
        at(Stage::start(path), events, i).request() is Fork,
        events[i] is Returned,
        at(Stage::start(path), events, j).request() is Fork,
        events[j] is Returned,
    ensures
        i == j,
{
    let start = Stage::start(path);
    if i < j {
        lemma_at_next(start, events, i);
        law_never_back(path, events, i + 1, j);
    }
}

/// A run ends on one side only: once it has ended in the parent's handle it never
/// stands on the child's side, and the other way round.
pub proof fn law_one_side(path: Seq<u8>, events: Seq<EventView>, i: int, j: int)
    requires
        0 <= i <= events.len(),
        0 <= j <= events.len(),
        at(Stage::start(path), events, i).outcome() matches Some(Ok(Fork::Father(_, _))),
    ensures
        !at(Stage::start(path), events, j).in_child(),
{
    let start = Stage::start(path);
    if i <= j {
        assert(events.take(j) =~= events.take(i) + events.subrange(i, j));
        lemma_run_append(start, events.take(i), events.subrange(i, j));
        law_done_stays(at(start, events, i), events.subrange(i, j));
    } else {
        if at(start, events, j).in_child() {
            law_child_stays(path, events, j, i);
        }
    }
}

/// A run in two parts is the run of the second part from where the first part ended.
pub proof fn lemma_run_append(stage: Stage, first: Seq<EventView>, second: Seq<EventView>)
    ensures
        run(stage, first + second) == run(run(stage, first), second),
    decreases second.len(),
{
    if second.len() == 0 {
        assert(first + second =~= first);
    } else {
        assert((first + second).drop_last() =~= first + second.drop_last());
        lemma_run_append(stage, first, second.drop_last());
    }
}

/// A run that stands on the child's side stays there or fails: it never ends in the
/// parent's handle.
pub proof fn law_child_stays(path: Seq<u8>, events: Seq<EventView>, i: int, j: int)
    requires
        0 <= i <= j <= events.len(),
        at(Stage::start(path), events, i).in_child(),
    ensures
        at(Stage::start(path), events, j).in_child() || at(
            Stage::start(path),
            events,
            j,
        ).outcome() matches Some(Err(_)),
    decreases j - i,
{
    if i < j {
        law_child_stays(path, events, i, j - 1);
        lemma_at_next(Stage::start(path), events, j - 1);
    }
}

/// While the child is reported not to have changed state, the wait goes on: no
/// number of such reports ends it, and it keeps asking for its own child.
pub proof fn law_wait_goes_on(pid: i32, replies: Seq<Reply>)
    requires
        forall|i: int| 0 <= i < replies.len() ==> (#[trigger] replies[i]).value == 0,
    ensures
        waited(Wait::Pending { pid }, replies) == (Wait::Pending { pid }),
        waited(Wait::Pending { pid }, replies).asks() == (RequestView::Wait { pid }),
    decreases replies.len(),
{
    if replies.len() > 0 {
        law_wait_goes_on(pid, replies.drop_last());
    }
}

/// A wait waits for its own child only. At every moment it asks for the process id
/// that the handle was made with, or for nothing. If it ends well, it ends in that
/// process id, and it has heard a reply that was neither 0 nor −1 after nothing but
/// replies of 0.
pub proof fn law_wait_for_own_child(pid: i32, master: Master, replies: Seq<Reply>)
    ensures
        waited(Fork::Father(pid, master).waiting(), replies).asks() == (RequestView::Wait { pid })
            || waited(Fork::Father(pid, master).waiting(), replies).asks() is Nothing,
        waited(Fork::Father(pid, master).waiting(), replies) matches Wait::Done { outcome: Ok(p) }
            ==> p == pid && exists|j: int|
            0 <= j < replies.len() && (#[trigger] replies[j]).value != 0 && replies[j].value != -1
                && forall|i: int| 0 <= i < j ==> (#[trigger] replies[i]).value == 0,
        waited(Fork::Father(pid, master).waiting(), replies) matches Wait::Done { outcome: Err(e) }
            ==> e == ForkError::WaitpidFail && exists|j: int|
            0 <= j < replies.len() && (#[trigger] replies[j]).value == -1 && forall|i: int|
                0 <= i < j ==> (#[trigger] replies[i]).value == 0,
    decreases replies.len(),
{
    if replies.len() > 0 {
        let earlier = replies.drop_last();
        law_wait_for_own_child(pid, master, earlier);
        let before = waited(Fork::Father(pid, master).waiting(), earlier);
        match before {
            Wait::Pending { pid: p } => {
                lemma_pending_heard_zeros(pid, earlier);
                let j = replies.len() - 1;
                assert(replies[j] == replies.last());
                assert forall|i: int| 0 <= i < j implies (#[trigger] replies[i]).value == 0 by {
                    assert(replies[i] == earlier[i]);
                }
            },
            Wait::Done { outcome: Ok(p) } => {
                let j = choose|j: int|
                    0 <= j < earlier.len() && (#[trigger] earlier[j]).value != 0 && earlier[j].value
                        != -1 && forall|i: int| 0 <= i < j ==> (#[trigger] earlier[i]).value == 0;
                assert(replies[j] == earlier[j]);
                assert forall|i: int| 0 <= i < j implies (#[trigger] replies[i]).value == 0 by {
                    assert(replies[i] == earlier[i]);
                }
            },
            Wait::Done { outcome: Err(e) } => {
                let j = choose|j: int|
                    0 <= j < earlier.len() && (#[trigger] earlier[j]).value == -1 && forall|i: int|
                        0 <= i < j ==> (#[trigger] earlier[i]).value == 0;
                assert(replies[j] == earlier[j]);
                assert forall|i: int| 0 <= i < j implies (#[trigger] replies[i]).value == 0 by {
                    assert(replies[i] == earlier[i]);
                }
            },
        }
    }
}

/// A wait that still goes on has heard nothing but replies of 0.
pub proof fn lemma_pending_heard_zeros(pid: i32, replies: Seq<Reply>)
    requires
        waited(Wait::Pending { pid }, replies) is Pending,
    ensures
        forall|i: int| 0 <= i < replies.len() ==> (#[trigger] replies[i]).value == 0,
    decreases replies.len(),
{
    if replies.len() > 0 {
        let earlier = replies.drop_last();
        lemma_pending_heard_zeros(pid, earlier);
        assert forall|i: int| 0 <= i < replies.len() implies (#[trigger] replies[i]).value == 0 by {
            if i < earlier.len() {
                assert(replies[i] == earlier[i]);
            }
        }
    }
}

/// On the child's side a wait fails with `IsChild` and never blocks: it is over
/// before anything is heard, asks for no call, and stays so whatever is reported.
pub proof fn law_child_never_waits(fork: Fork, replies: Seq<Reply>)
    requires
        fork is Child,
    ensures
        waited(fork.waiting(), replies) == (Wait::Done { outcome: Err(ForkError::IsChild) }),
        waited(fork.waiting(), replies).asks() is Nothing,
    decreases replies.len(),
{
    if replies.len() > 0 {
        law_child_never_waits(fork, replies.drop_last());
    }
}

/// A failure on the way to the fork leaves the master to be closed. When the grant,
/// the unlock or the fork is reported to have failed, the protocol ends in the
/// failure and owes, from then on, the closing of the very master that it had
/// allocated; it asks for no further call.
pub proof fn law_failure_leaves_master(
    path: Seq<u8>,
    events: Seq<EventView>,
    j: int,
    k: int,
    master: Master,
)
    requires
        0 <= j < k <= events.len(),
        at(Stage::start(path), events, j) == (Stage::MasterAllocated { master }) || at(
            Stage::start(path),
            events,
            j,
        ) == (Stage::MasterGranted { master }) || at(Stage::start(path), events, j) == (
        Stage::MasterReady { master }),
        at(Stage::start(path), events, j).fails_on(events[j]),
    ensures
        at(Stage::start(path), events, k) is Failed,
        at(Stage::start(path), events, k)->Failed_master == Some(master),
        master.owner,
        at(Stage::start(path), events, k).owes() == Some(master.fd),
        at(Stage::start(path), events, k).request() is Nothing,
{
    law_failure_ends(Stage::start(path), events, j, k);
    lemma_master_is_owned(path, events, j);
}

/// On the way to the fork the protocol owns its master: the handle that a run from
/// the start holds before the fork is the one that owes the closing.
pub proof fn lemma_master_is_owned(path: Seq<u8>, events: Seq<EventView>, i: int)
    requires
        0 <= i <= events.len(),
    ensures
        at(Stage::start(path), events, i) matches Stage::MasterAllocated { master }
            ==> master.owner,
        at(Stage::start(path), events, i) matches Stage::MasterGranted { master } ==> master.owner,
        at(Stage::start(path), events, i) matches Stage::MasterReady { master } ==> master.owner,
        at(Stage::start(path), events, i) matches Stage::Done { fork: Fork::Father(_, master) }
            ==> master.owner,
    decreases i,
{
    if i == 0 {
        assert(events.take(0) =~= Seq::<EventView>::empty());
    } else {
        lemma_at_next(Stage::start(path), events, i - 1);
        lemma_master_is_owned(path, events, i - 1);
    }
}

/// What a protocol owes is released once at most: a protocol that has been released
/// owes no closing, and releasing it again changes nothing.
pub proof fn law_protocol_release_once(stage: Stage)
    ensures
        stage.released().owes() is None,
        stage.released().released() == stage.released(),
        stage.outcome() is None ==> stage.owes() is None && stage.released() == stage,
{
}

/// The master is closed once at most: a handle that has been released owes no
/// closing, and releasing it again changes nothing.
pub proof fn law_release_once(fork: Fork)
    ensures
        fork.released().owes() is None,
        fork.released().released() == fork.released(),
        fork.owes() is Some ==> fork is Father && fork.owes() == Some(fork->Father_1.fd),
{
}

} // verus!
