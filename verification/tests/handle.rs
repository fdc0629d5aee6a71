use pty::call::{Reply, Request, Stream};
use pty::errno::OsError;
use pty::fork::{Fork, ForkError, Master, MasterError, Slave, SlaveError, Wait};

fn father(pid: i32, fd: i32) -> Fork {
    Fork::Father(pid, Master { fd, owner: true })
}

fn reply(value: i32) -> Reply {
    Reply { value, errno: 0 }
}

#[test]
fn wait_on_child_fails_with_is_child_and_asks_for_nothing() {
    let wait = Fork::Child(Slave { fd: 6 }).wait();
    assert_eq!(wait, Wait::Done { outcome: Err(ForkError::IsChild) });
    assert_eq!(wait.request(), Request::Nothing);
    assert_eq!(wait.finish(), Some(Err(ForkError::IsChild)));
    assert_eq!(wait.step(reply(55)).finish(), Some(Err(ForkError::IsChild)));
}

#[test]
fn wait_on_father_asks_for_its_own_child() {
    let wait = father(4242, 5).wait();
    assert_eq!(wait, Wait::Pending { pid: 4242 });
    assert_eq!(wait.request(), Request::Wait { pid: 4242 });
    assert_eq!(wait.finish(), None);
}

#[test]
fn wait_goes_on_while_the_child_is_alive() {
    let mut wait = father(4242, 5).wait();
    for _ in 0..100 {
        wait = wait.step(reply(0));
        assert_eq!(wait.request(), Request::Wait { pid: 4242 });
        assert_eq!(wait.finish(), None);
    }
    assert_eq!(wait.step(reply(4242)).finish(), Some(Ok(4242)));
}

#[test]
fn wait_ends_in_the_pid_of_the_handle() {
    let wait = father(4242, 5).wait().step(reply(0)).step(reply(9));
    assert_eq!(wait.request(), Request::Nothing);
    assert_eq!(wait.finish(), Some(Ok(4242)));
    assert_eq!(wait.step(reply(-1)).finish(), Some(Ok(4242)));
}

#[test]
fn wait_fails_with_waitpid_fail() {
    let wait = father(4242, 5).wait().step(Reply { value: -1, errno: 10 });
    assert_eq!(wait.request(), Request::Nothing);
    assert_eq!(wait.finish(), Some(Err(ForkError::WaitpidFail)));
    assert_eq!(wait.step(reply(4242)).finish(), Some(Err(ForkError::WaitpidFail)));
}

#[test]
fn is_father_on_child_fails_with_is_child() {
    assert_eq!(Fork::Child(Slave { fd: 6 }).is_father(), Err(ForkError::IsChild));
}

#[test]
fn is_child_on_father_fails_with_is_father() {
    assert_eq!(father(4242, 5).is_child(), Err(ForkError::IsFather));
}

#[test]
fn is_father_hands_out_a_view_that_owes_no_closing() {
    let fork = father(4242, 5);
    let mut view = fork.is_father().unwrap();
    assert_eq!(view, Master { fd: 5, owner: false });
    assert_eq!(view.as_raw_fd(), 5);
    assert_eq!(view.release(), None);
    assert_eq!(fork, father(4242, 5));
}

#[test]
fn is_child_hands_out_the_slave() {
    let fork = Fork::Child(Slave { fd: 6 });
    assert_eq!(fork.is_child(), Ok(&Slave { fd: 6 }));
    assert_eq!(fork.is_child().unwrap().as_raw_fd(), 6);
}

#[test]
fn release_gives_the_master_once() {
    let mut fork = father(4242, 5);
    assert_eq!(fork.release(), Some(5));
    assert_eq!(fork, Fork::Father(4242, Master { fd: 5, owner: false }));
    assert_eq!(fork.release(), None);
    assert_eq!(fork.release(), None);
    assert_eq!(fork, Fork::Father(4242, Master { fd: 5, owner: false }));
}

#[test]
fn release_on_child_gives_nothing() {
    let mut fork = Fork::Child(Slave { fd: 6 });
    assert_eq!(fork.release(), None);
    assert_eq!(fork, Fork::Child(Slave { fd: 6 }));
}

#[test]
fn master_release_gives_the_descriptor_once() {
    let mut master = Master::new(reply(8)).unwrap();
    assert_eq!(master, Master { fd: 8, owner: true });
    let mut view = master.share();
    assert_eq!(view.release(), None);
    assert_eq!(master.release(), Some(8));
    assert_eq!(master.release(), None);
    assert_eq!(master, Master { fd: 8, owner: false });
}

#[test]
fn master_verdicts() {
    let bad = Reply { value: -1, errno: 12 };
    let cause = OsError { errno: 12 };
    assert_eq!(Master::new(bad), Err(MasterError::BadDescriptor(cause)));
    let master = Master::new(reply(0)).unwrap();
    assert_eq!(master.as_raw_fd(), 0);
    assert_eq!(master.grantpt(reply(0)), Ok(0));
    assert_eq!(master.grantpt(bad), Err(MasterError::GrantptError(cause)));
    assert_eq!(master.unlockpt(reply(0)), Ok(0));
    assert_eq!(master.unlockpt(bad), Err(MasterError::UnlockptError(cause)));
    assert_eq!(master.ptsname(Some(b"/dev/pts/0".to_vec()), 0), Ok(b"/dev/pts/0".to_vec()));
    assert_eq!(master.ptsname(Some(Vec::new()), 7), Ok(Vec::new()));
    assert_eq!(master.ptsname(None, 12), Err(MasterError::PtsnameError(cause)));
}

#[test]
fn slave_verdicts() {
    let bad = Reply { value: -1, errno: 2 };
    let cause = OsError { errno: 2 };
    assert_eq!(Slave::new(bad), Err(SlaveError::BadDescriptor(cause)));
    let slave = Slave::new(reply(6)).unwrap();
    assert_eq!(slave, Slave { fd: 6 });
    assert_eq!(slave.dup2(Stream::Stdin, reply(0)), Ok(0));
    assert_eq!(slave.dup2(Stream::Stderr, reply(2)), Ok(2));
    assert_eq!(slave.dup2(Stream::Stdout, bad), Err(SlaveError::Dup2Error(cause)));
}

#[test]
fn errors_give_their_cause() {
    let cause = OsError { errno: 5 };
    assert_eq!(MasterError::BadDescriptor(cause).os_error(), cause);
    assert_eq!(MasterError::GrantptError(cause).os_error(), cause);
    assert_eq!(MasterError::UnlockptError(cause).os_error(), cause);
    assert_eq!(MasterError::PtsnameError(cause).os_error(), cause);
    assert_eq!(SlaveError::BadDescriptor(cause).os_error(), cause);
    assert_eq!(SlaveError::Dup2Error(cause).os_error(), cause);
    assert_eq!(ForkError::BadMaster(MasterError::GrantptError(cause)).os_error(), Some(cause));
    assert_eq!(ForkError::BadSlave(SlaveError::Dup2Error(cause)).os_error(), Some(cause));
    assert_eq!(ForkError::Failure.os_error(), None);
    assert_eq!(ForkError::SetsidFail.os_error(), None);
    assert_eq!(ForkError::WaitpidFail.os_error(), None);
    assert_eq!(ForkError::IsChild.os_error(), None);
    assert_eq!(ForkError::IsFather.os_error(), None);
}
