//! Return values of operating-system calls and the error numbers behind them.

use vstd::prelude::*;

verus! {

/// An error number as the operating system reports it.
#[derive(Clone, Copy, Debug, PartialEq, Eq, Structural)]
pub struct OsError {
    pub errno: i32,
}

/// The text that describes the error that a number stands for on the platform that
/// the library is built for.
pub uninterp spec fn errno_text(errno: i32) -> Seq<char>;

/// Reads the calling thread's current error number with `nix::errno::Errno::last_raw`.
/// The value is whatever the most recent failing call left behind, so nothing is
/// claimed of it.
#[verifier::external_body]
fn last_errno() -> i32 {
    nix::errno::Errno::last_raw()
}

/// Looks up the description of an error number with `nix::errno::Errno::desc`, after
/// `nix::errno::Errno::from_raw` has turned the number into the platform's name for
/// the error. Both are tables fixed when the library is built, so the text depends on
/// the number alone; that is all that is claimed, and it is taken on trust.
#[verifier::external_body]
fn describe(errno: i32) -> (text: &'static str)
    ensures
        text@ == errno_text(errno),
{
    nix::errno::Errno::from_raw(errno).desc()
}

/// A value returned by a C function that reports failure with −1.
pub trait CReturnValue: Sized {
    /// Whether the value is the one that reports failure.
    spec fn is_error_value(&self) -> bool;

    /// Whether the value is the one that reports failure.
    fn as_c_return_value_is_error(&self) -> (b: bool)
        ensures
            b == self.is_error_value(),
    ;
}

impl CReturnValue for i32 {
    open spec fn is_error_value(&self) -> bool {
        *self == -1
    }

    fn as_c_return_value_is_error(&self) -> (b: bool) {
        *self == -1
    }
}

impl CReturnValue for i64 {
    open spec fn is_error_value(&self) -> bool {
        *self == -1
    }

    fn as_c_return_value_is_error(&self) -> (b: bool) {
        *self == -1
    }
}

impl OsError {
    /// The error that the most recent failing call left behind.
    pub fn last() -> (e: OsError) {
        OsError { errno: last_errno() }
    }

    /// The description of the error.
    pub fn desc(&self) -> (text: &'static str)
        ensures
            text@ == errno_text(self.errno),
    {
        describe(self.errno)
    }
}

/// What the return value `r` of a C function stands for when `errno` is the error
/// number that the system holds: the failure value stands for that error, any other
/// value for itself.
pub open spec fn judged<T: CReturnValue>(r: T, errno: i32) -> Result<T, OsError> {
    if r.is_error_value() {
        Err(OsError { errno })
    } else {
        Ok(r)
    }
}

/// Turns the return value of a C function into a `Result`, given the error number
/// that the system held when the function returned.
pub fn to_result_with<T: CReturnValue>(r: T, errno: i32) -> (res: Result<T, OsError>)
    ensures
        res == judged(r, errno),
{
    if r.as_c_return_value_is_error() {
        Err(OsError { errno })
    } else {
        Ok(r)
    }
}

/// Turns the return value of a C function into a `Result`: the failure value becomes
/// the error that the system recorded, any other value is handed on. The error
/// number is read from the system, and only where the value reports failure.
pub fn to_result<T: CReturnValue>(r: T) -> (res: Result<T, OsError>)
    ensures
        res is Err <==> r.is_error_value(),
        res matches Ok(v) ==> v == r,
        exists|errno: i32| res == judged(r, errno),
{
    if r.as_c_return_value_is_error() {
        let errno = last_errno();
        let res = to_result_with(r, errno);
        assert(res == judged(r, errno));
        res
    } else {
        let res = to_result_with(r, 0);
        assert(res == judged(r, 0));
        res
    }
}

} // verus!
