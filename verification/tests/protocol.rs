use pty::call::{Event, Reply, Request, Stream};
use pty::errno::OsError;
use pty::fork::{Fork, ForkError, Master, MasterError, Protocol, Slave, SlaveError};

fn ok(value: i32) -> Event {
    Event::Returned(Reply { value, errno: 0 })
}

fn failed(errno: i32) -> Event {
    Event::Returned(Reply { value: -1, errno })
}

fn name(text: &str) -> Event {
    Event::Named { name: Some(text.as_bytes().to_vec()), errno: 0 }
}

fn ready(master: i32) -> Protocol {
    Fork::new("/dev/ptmx").step(ok(master)).step(ok(0)).step(ok(0))
}

fn wiring(master: i32, slave: i32) -> Protocol {
    ready(master).step(ok(0)).step(name("/dev/pts/4")).step(ok(17)).step(ok(slave))
}

#[test]
fn new_asks_to_open_the_given_path() {
    let protocol = Fork::new("/dev/ptmx");
    assert_eq!(protocol, Protocol::Start { path: b"/dev/ptmx".to_vec() });
    assert_eq!(protocol.request(), Request::Open { path: b"/dev/ptmx".to_vec() });
    assert!(!protocol.is_done());
    assert_eq!(protocol.finish(), None);
}

#[test]
fn new_takes_a_path_with_a_zero_byte_for_the_empty_path() {
    let protocol = Fork::new("/dev/\0ptmx");
    assert_eq!(protocol.request(), Request::Open { path: Vec::new() });
    assert_eq!(pty::call::c_path("\0"), Vec::<u8>::new());
    assert_eq!(pty::call::c_path(""), Vec::<u8>::new());
    assert_eq!(pty::call::c_path("pt\u{e9}"), vec![0x70, 0x74, 0xc3, 0xa9]);
}

#[test]
fn from_ptmx_asks_to_open_the_default_multiplexer() {
    assert_eq!(pty::fork::DEFAULT_PTMX, "/dev/ptmx");
    assert_eq!(Fork::from_ptmx(), Fork::new("/dev/ptmx"));
    assert_eq!(
        Fork::from_ptmx().request(),
        Request::Open { path: vec![0x2f, 0x64, 0x65, 0x76, 0x2f, 0x70, 0x74, 0x6d, 0x78] }
    );
}

#[test]
fn parent_run_ends_in_father_with_pid_and_master() {
    let p = Fork::new("/dev/ptmx");
    let p = p.step(ok(5));
    assert_eq!(p, Protocol::MasterAllocated { master: Master { fd: 5, owner: true } });
    assert_eq!(p.request(), Request::Grant { fd: 5 });
    let p = p.step(ok(0));
    assert_eq!(p, Protocol::MasterGranted { master: Master { fd: 5, owner: true } });
    assert_eq!(p.request(), Request::Unlock { fd: 5 });
    let p = p.step(ok(0));
    assert_eq!(p, Protocol::MasterReady { master: Master { fd: 5, owner: true } });
    assert_eq!(p.request(), Request::Fork);
    let p = p.step(ok(4242));
    assert!(p.is_done());
    assert_eq!(p.request(), Request::Nothing);
    assert_eq!(p.finish(), Some(Ok(Fork::Father(4242, Master { fd: 5, owner: true }))));
}

#[test]
fn child_run_asks_for_its_calls_in_order_and_ends_in_child() {
    let p = ready(5).step(ok(0));
    assert_eq!(p, Protocol::Forked { master: Master { fd: 5, owner: true } });
    assert_eq!(p.request(), Request::SlaveName { fd: 5 });
    let p = p.step(name("/dev/pts/4"));
    assert_eq!(p, Protocol::Named { name: b"/dev/pts/4".to_vec() });
    assert_eq!(p.request(), Request::Setsid);
    let p = p.step(ok(17));
    assert_eq!(p, Protocol::Leader { name: b"/dev/pts/4".to_vec() });
    assert_eq!(p.request(), Request::Open { path: b"/dev/pts/4".to_vec() });
    let p = p.step(ok(6));
    assert_eq!(p, Protocol::Wiring { slave: Slave { fd: 6 }, stream: Stream::Stdin });
    assert_eq!(p.request(), Request::Dup { fd: 6, stream: Stream::Stdin });
    let p = p.step(ok(0));
    assert_eq!(p.request(), Request::Dup { fd: 6, stream: Stream::Stdout });
    let p = p.step(ok(1));
    assert_eq!(p.request(), Request::Dup { fd: 6, stream: Stream::Stderr });
    assert!(!p.is_done());
    let p = p.step(ok(2));
    assert!(p.is_done());
    assert_eq!(p.request(), Request::Nothing);
    assert_eq!(p.finish(), Some(Ok(Fork::Child(Slave { fd: 6 }))));
}

#[test]
fn failed_open_ends_in_bad_master_before_anything_else() {
    let p = Fork::new("/dev/nowhere").step(failed(2));
    assert_eq!(p.request(), Request::Nothing);
    assert_eq!(
        p.finish(),
        Some(Err(ForkError::BadMaster(MasterError::BadDescriptor(OsError { errno: 2 }))))
    );
}

#[test]
fn failed_grant_ends_in_bad_master_and_asks_for_no_unlock_or_fork() {
    let p = Fork::new("/dev/ptmx").step(ok(5)).step(failed(13));
    assert!(p.is_done());
    assert_eq!(p.request(), Request::Nothing);
    let p = p.step(ok(0)).step(ok(99));
    assert_eq!(p.request(), Request::Nothing);
    assert_eq!(
        p.finish(),
        Some(Err(ForkError::BadMaster(MasterError::GrantptError(OsError { errno: 13 }))))
    );
}

#[test]
fn failed_unlock_ends_in_bad_master_and_asks_for_no_fork() {
    let p = Fork::new("/dev/ptmx").step(ok(5)).step(ok(0)).step(failed(22));
    assert_eq!(p.request(), Request::Nothing);
    assert_eq!(
        p.finish(),
        Some(Err(ForkError::BadMaster(MasterError::UnlockptError(OsError { errno: 22 }))))
    );
}

#[test]
fn failed_fork_ends_in_failure() {
    let p = ready(5).step(failed(11));
    assert_eq!(p.request(), Request::Nothing);
    assert_eq!(p.finish(), Some(Err(ForkError::Failure)));
}

#[test]
fn fork_reply_below_minus_one_is_taken_for_a_process_id() {
    let p = ready(5).step(ok(-7));
    assert_eq!(p.finish(), Some(Ok(Fork::Father(-7, Master { fd: 5, owner: true }))));
}

#[test]
fn missing_slave_name_ends_in_bad_master() {
    let p = ready(5).step(ok(0)).step(Event::Named { name: None, errno: 25 });
    assert_eq!(p.request(), Request::Nothing);
    assert_eq!(
        p.finish(),
        Some(Err(ForkError::BadMaster(MasterError::PtsnameError(OsError { errno: 25 }))))
    );
}

#[test]
fn failed_setsid_ends_in_setsid_fail_and_opens_no_slave() {
    let p = ready(5).step(ok(0)).step(name("/dev/pts/4")).step(failed(1));
    assert_eq!(p.request(), Request::Nothing);
    assert_eq!(p.finish(), Some(Err(ForkError::SetsidFail)));
}

#[test]
fn failed_slave_open_ends_in_bad_slave() {
    let p = ready(5).step(ok(0)).step(name("/dev/pts/4")).step(ok(17)).step(failed(2));
    assert_eq!(p.request(), Request::Nothing);
    assert_eq!(
        p.finish(),
        Some(Err(ForkError::BadSlave(SlaveError::BadDescriptor(OsError { errno: 2 }))))
    );
}

#[test]
fn failed_stdin_dup_ends_in_bad_slave_and_rewires_nothing_else() {
    let p = wiring(5, 6);
    assert_eq!(p.request(), Request::Dup { fd: 6, stream: Stream::Stdin });
    let p = p.step(failed(9));
    assert!(p.is_done());
    assert_eq!(p.request(), Request::Nothing);
    let p = p.step(ok(1));
    assert_eq!(p.request(), Request::Nothing);
    assert_eq!(
        p.finish(),
        Some(Err(ForkError::BadSlave(SlaveError::Dup2Error(OsError { errno: 9 }))))
    );
}

#[test]
fn failed_stdout_dup_ends_in_bad_slave_and_leaves_stderr_alone() {
    let p = wiring(5, 6).step(ok(0)).step(failed(24));
    assert_eq!(p.request(), Request::Nothing);
    assert_eq!(
        p.finish(),
        Some(Err(ForkError::BadSlave(SlaveError::Dup2Error(OsError { errno: 24 }))))
    );
}

#[test]
fn failed_stderr_dup_ends_in_bad_slave() {
    let p = wiring(5, 6).step(ok(0)).step(ok(1)).step(failed(4));
    assert_eq!(
        p.finish(),
        Some(Err(ForkError::BadSlave(SlaveError::Dup2Error(OsError { errno: 4 }))))
    );
}

#[test]
fn an_event_of_the_wrong_shape_changes_nothing() {
    let p = Fork::new("/dev/ptmx").step(name("/dev/pts/4"));
    assert_eq!(p, Fork::new("/dev/ptmx"));
    let p = ready(5).step(Event::Named { name: None, errno: 5 });
    assert_eq!(p, ready(5));
    let p = ready(5).step(ok(0)).step(ok(3)).step(failed(3));
    assert_eq!(p, Protocol::Forked { master: Master { fd: 5, owner: true } });
    let p = wiring(5, 6).step(name("x"));
    assert_eq!(p, wiring(5, 6));
}

#[test]
fn a_protocol_that_has_ended_keeps_its_outcome() {
    let p = ready(5).step(ok(77));
    let p = p.step(ok(0)).step(failed(1)).step(name("/dev/pts/9")).step(ok(78));
    assert_eq!(p.finish(), Some(Ok(Fork::Father(77, Master { fd: 5, owner: true }))));
    let p = wiring(5, 6).step(ok(0)).step(ok(1)).step(ok(2)).step(failed(5)).step(ok(3));
    assert_eq!(p.finish(), Some(Ok(Fork::Child(Slave { fd: 6 }))));
}

#[test]
fn returned_and_named_move_as_step_does() {
    let p = Fork::new("/dev/ptmx").returned(Reply { value: 3, errno: 0 });
    assert_eq!(p, Fork::new("/dev/ptmx").step(ok(3)));
    let p = ready(3).step(ok(0)).named(Some(b"/dev/pts/1".to_vec()), 0);
    assert_eq!(p, Protocol::Named { name: b"/dev/pts/1".to_vec() });
    let p = ready(3).named(Some(b"/dev/pts/1".to_vec()), 0);
    assert_eq!(p, ready(3));
}

#[test]
fn the_slave_is_opened_at_the_name_that_the_lookup_gave() {
    let p = ready(5).step(ok(0)).step(name("/dev/pts/23")).step(ok(0));
    assert_eq!(p.request(), Request::Open { path: b"/dev/pts/23".to_vec() });
}

#[test]
fn an_errno_beside_a_good_reply_is_ignored() {
    let p = Fork::new("/dev/ptmx").step(Event::Returned(Reply { value: 5, errno: 11 }));
    assert_eq!(p, Protocol::MasterAllocated { master: Master { fd: 5, owner: true } });
}

#[test]
fn a_failure_before_the_fork_leaves_the_master_to_be_closed() {
    let mut p = Fork::new("/dev/ptmx").step(ok(5)).step(failed(13));
    assert_eq!(
        p,
        Protocol::Failed {
            error: ForkError::BadMaster(MasterError::GrantptError(OsError { errno: 13 })),
            master: Some(Master { fd: 5, owner: true }),
        }
    );
    assert_eq!(p.release(), Some(5));
    assert_eq!(p.release(), None);
    assert_eq!(p.request(), Request::Nothing);
    assert_eq!(
        p.finish(),
        Some(Err(ForkError::BadMaster(MasterError::GrantptError(OsError { errno: 13 }))))
    );
    let mut p = Fork::new("/dev/ptmx").step(ok(5)).step(ok(0)).step(failed(22));
    assert_eq!(p.release(), Some(5));
    assert_eq!(p.release(), None);
    let mut p = ready(5).step(failed(11));
    assert_eq!(p.release(), Some(5));
    assert_eq!(p.release(), None);
    assert_eq!(p.finish(), Some(Err(ForkError::Failure)));
}

#[test]
fn a_failed_open_and_a_failure_in_the_child_leave_nothing() {
    let mut p = Fork::new("/dev/nowhere").step(failed(2));
    assert_eq!(p.release(), None);
    let mut p = ready(5).step(ok(0)).step(Event::Named { name: None, errno: 25 });
    assert_eq!(p.release(), None);
    let mut p = ready(5).step(ok(0)).step(name("/dev/pts/4")).step(failed(1));
    assert_eq!(p.release(), None);
    let mut p = wiring(5, 6).step(failed(9));
    assert_eq!(p.release(), None);
}

#[test]
fn a_protocol_that_runs_owes_nothing_and_one_that_ended_well_owes_what_its_handle_owes() {
    let mut p = ready(5);
    assert_eq!(p.release(), None);
    assert_eq!(p, ready(5));
    let mut p = ready(5).step(ok(77));
    assert_eq!(p.release(), Some(5));
    assert_eq!(p.release(), None);
    assert_eq!(p.finish(), Some(Ok(Fork::Father(77, Master { fd: 5, owner: false }))));
    let mut p = wiring(5, 6).step(ok(0)).step(ok(1)).step(ok(2));
    assert_eq!(p.release(), None);
    assert_eq!(p.finish(), Some(Ok(Fork::Child(Slave { fd: 6 }))));
}

#[test]
fn abandon_gives_the_master_that_a_failure_left_and_spares_the_handle() {
    let mut p = Fork::new("/dev/ptmx").step(ok(5)).step(failed(13));
    assert_eq!(p.abandon(), Some(5));
    assert_eq!(p.abandon(), None);
    assert_eq!(p.release(), None);
    let mut p = ready(5).step(failed(11));
    assert_eq!(p.abandon(), Some(5));
    let mut p = Fork::new("/dev/nowhere").step(failed(2));
    assert_eq!(p.abandon(), None);
    let mut p = ready(5);
    assert_eq!(p.abandon(), None);
    assert_eq!(p, ready(5));
    let mut p = ready(5).step(ok(77));
    assert_eq!(p.abandon(), None);
    assert_eq!(p.finish(), Some(Ok(Fork::Father(77, Master { fd: 5, owner: true }))));
}
