//! Unwrapping a `Result` that is known to be `Ok`.

use vstd::prelude::*;
use vstd::string::StringExecFns;

verus! {

/// The report of unwrapping an `Err`, for the error as text.
pub open spec fn unwrap_err_report(error: Seq<char>) -> Seq<char> {
    "called `Result::unwrap()` on an `Err` value: "@ + error
}

/// The report of expecting an `Ok` and finding an `Err`, for the error as text.
pub open spec fn expect_err_report(msg: Seq<char>, error: Seq<char>) -> Seq<char> {
    msg + ": "@ + error
}

/// The report of unwrapping an `Err`, for the error as text.
pub fn unwrap_report(error: &str) -> (r: String)
    ensures
        r@ == unwrap_err_report(error@),
{
    let mut report = String::from_str("called `Result::unwrap()` on an `Err` value: ");
    report.append(error);
    report
}

/// The report of expecting an `Ok` and finding an `Err`, for the error as text.
pub fn expect_report(msg: &str, error: &str) -> (r: String)
    ensures
        r@ == expect_err_report(msg@, error@),
{
    let mut report = String::from_str(msg);
    report.append(": ");
    report.append(error);
    report
}

pub trait ResultExt<T>: Sized {
    /// The value that is held, if the result is `Ok`.
    spec fn held(self) -> Option<T>;

    /// The value that is held. Does what `Result::unwrap` does on an `Ok`.
    fn godot_unwrap(self) -> (r: T)
        requires
            self.held() is Some,
        ensures
            self.held() == Some(r),
    ;

    /// The value that is held. Does what `Result::expect` does on an `Ok`; `msg` starts
    /// the report for an `Err`.
    fn godot_expect(self, msg: &str) -> (r: T)
        requires
            self.held() is Some,
        ensures
            self.held() == Some(r),
    ;
}

impl<T, E> ResultExt<T> for Result<T, E> {
    open spec fn held(self) -> Option<T> {
        match self {
            Ok(value) => Some(value),
            Err(_) => None,
        }
    }

    fn godot_unwrap(self) -> (r: T) {
        match self {
            Ok(value) => value,
            Err(_) => vstd::pervasive::unreached(),
        }
    }

    fn godot_expect(self, msg: &str) -> (r: T) {
        match self {
            Ok(value) => value,
            Err(_) => vstd::pervasive::unreached(),
        }
    }
}

} // verus!
