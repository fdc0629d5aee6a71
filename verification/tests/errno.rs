use nix::errno::Errno;
use pty::call::{Event, Reply, Stream};
use pty::errno::{to_result_with, CReturnValue, OsError};
use pty::to_result;

#[test]
fn to_result_hands_on_what_is_not_minus_one() {
    assert_eq!(to_result(0i32), Ok(0));
    assert_eq!(to_result(7i32), Ok(7));
    assert_eq!(to_result(-2i32), Ok(-2));
    assert_eq!(to_result(i32::MIN), Ok(i32::MIN));
    assert_eq!(to_result(4096i64), Ok(4096));
    assert_eq!(to_result(i64::MAX), Ok(i64::MAX));
}

#[test]
fn to_result_turns_minus_one_into_the_error_of_the_system() {
    Errno::set_raw(13);
    assert_eq!(to_result(-1i32), Err(OsError { errno: 13 }));
    Errno::set_raw(4);
    assert_eq!(to_result(-1i64), Err(OsError { errno: 4 }));
}

#[test]
fn minus_one_is_the_error_value() {
    assert!((-1i32).as_c_return_value_is_error());
    assert!((-1i64).as_c_return_value_is_error());
    assert!(!0i32.as_c_return_value_is_error());
    assert!(!1i64.as_c_return_value_is_error());
    assert!(!(-2i64).as_c_return_value_is_error());
}

#[test]
fn last_reads_the_error_number_of_the_system() {
    Errno::set_raw(2);
    assert_eq!(OsError::last(), OsError { errno: 2 });
    Errno::set_raw(0);
    assert_eq!(OsError::last(), OsError { errno: 0 });
}

#[test]
fn desc_describes_the_error_number() {
    assert_eq!(OsError { errno: Errno::ENOENT as i32 }.desc(), "No such file or directory");
    assert_eq!(OsError { errno: Errno::EACCES as i32 }.desc(), "Permission denied");
    assert_eq!(OsError { errno: Errno::ECHILD as i32 }.desc(), "No child processes");
    assert_eq!(OsError { errno: 0 }.desc(), "Unknown errno");
    assert_eq!(OsError { errno: -5 }.desc(), "Unknown errno");
}

#[test]
fn observe_keeps_the_value_and_reads_the_errno_of_a_failure() {
    Errno::set_raw(9);
    assert_eq!(Reply::observe(3), Reply { value: 3, errno: 0 });
    Errno::set_raw(9);
    assert_eq!(Reply::observe(-1), Reply { value: -1, errno: 9 });
    Errno::set_raw(9);
    assert_eq!(Event::returned(0), Event::Returned(Reply { value: 0, errno: 0 }));
    Errno::set_raw(9);
    assert_eq!(Event::returned(-1), Event::Returned(Reply { value: -1, errno: 9 }));
}

#[test]
fn named_keeps_the_name_and_reads_the_errno_of_a_failure() {
    Errno::set_raw(25);
    assert_eq!(
        Event::named(Some(b"/dev/pts/2".to_vec())),
        Event::Named { name: Some(b"/dev/pts/2".to_vec()), errno: 0 }
    );
    Errno::set_raw(25);
    assert_eq!(Event::named(None), Event::Named { name: None, errno: 25 });
}

#[test]
fn reply_as_result() {
    assert_eq!(Reply { value: 12, errno: 0 }.result(), Ok(12));
    assert_eq!(Reply { value: 0, errno: 3 }.result(), Ok(0));
    assert_eq!(Reply { value: -2, errno: 3 }.result(), Ok(-2));
    assert_eq!(Reply { value: -1, errno: 3 }.result(), Err(OsError { errno: 3 }));
}

#[test]
fn streams_are_the_three_standard_slots_in_order() {
    assert_eq!(Stream::Stdin.fileno(), 0);
    assert_eq!(Stream::Stdout.fileno(), 1);
    assert_eq!(Stream::Stderr.fileno(), 2);
    assert_eq!(Stream::Stdin.next(), Some(Stream::Stdout));
    assert_eq!(Stream::Stdout.next(), Some(Stream::Stderr));
    assert_eq!(Stream::Stderr.next(), None);
}

#[test]
fn to_result_with_takes_the_error_number_it_is_given() {
    assert_eq!(to_result_with(-1i32, 13), Err(OsError { errno: 13 }));
    assert_eq!(to_result_with(-1i64, 0), Err(OsError { errno: 0 }));
    assert_eq!(to_result_with(0i32, 13), Ok(0));
    assert_eq!(to_result_with(-2i64, 13), Ok(-2));
}

#[test]
fn record_keeps_the_error_number_beside_a_failure_only() {
    assert_eq!(Reply::record(-1, 9), Reply { value: -1, errno: 9 });
    assert_eq!(Reply::record(3, 9), Reply { value: 3, errno: 0 });
    assert_eq!(Reply::record(0, 9), Reply { value: 0, errno: 0 });
}

#[test]
fn lookup_keeps_the_error_number_beside_a_missing_name_only() {
    assert_eq!(Event::lookup(None, 25), Event::Named { name: None, errno: 25 });
    assert_eq!(
        Event::lookup(Some(b"/dev/pts/2".to_vec()), 25),
        Event::Named { name: Some(b"/dev/pts/2".to_vec()), errno: 0 }
    );
}
