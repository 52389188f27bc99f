//! Unwrapping an `Option` whose value is known to be there.

use vstd::prelude::*;
use vstd::string::StringExecFns;

verus! {

/// The report of unwrapping an `Option` that holds nothing.
pub open spec fn unwrap_none_report() -> Seq<char> {
    "called `Option::unwrap()` on a `None` value"@
}

/// The report of unwrapping an `Option` that holds nothing.
pub fn unwrap_report() -> (r: String)
    ensures
        r@ == unwrap_none_report(),
{
    String::from_str("called `Option::unwrap()` on a `None` value")
}

pub trait OptionExt<T>: Sized {
    /// The value that is held, if there is one.
    spec fn held(self) -> Option<T>;

    /// The value that is held. Does what `Option::unwrap` does where there is one.
    fn godot_unwrap(self) -> (r: T)
        requires
            self.held() is Some,
        ensures
            self.held() == Some(r),
    ;

    /// The value that is held. Does what `Option::expect` does where there is one; `msg`
    /// is the report for where there is none.
    fn godot_expect(self, msg: &str) -> (r: T)
        requires
            self.held() is Some,
        ensures
            self.held() == Some(r),
    ;
}

impl<T> OptionExt<T> for Option<T> {
    open spec fn held(self) -> Option<T> {
        self
    }

    fn godot_unwrap(self) -> (r: T) {
        match self {
            Some(value) => value,
            None => vstd::pervasive::unreached(),
        }
    }

    fn godot_expect(self, msg: &str) -> (r: T) {
        match self {
            Some(value) => value,
            None => vstd::pervasive::unreached(),
        }
    }
}

} // verus!
