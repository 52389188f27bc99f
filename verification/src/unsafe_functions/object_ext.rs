//! Taking an engine object for an instance of a script class.

use vstd::prelude::*;
use vstd::string::StringExecFns;

verus! {

/// Why an object could not be taken for an instance of a script class.
#[derive(Clone, Copy, Debug, PartialEq, Eq, Structural)]
pub enum TryAsError {
    /// The object is not of the type that the script is written for.
    Cast,
    /// The object does not have the script attached.
    Instance,
}

/// The report of a failed attempt: for `Cast` over the name of the base class, for
/// `Instance` over the name of the script class.
pub open spec fn try_as_report(
    error: TryAsError,
    base_class: Seq<char>,
    script_class: Seq<char>,
) -> Seq<char> {
    match error {
        TryAsError::Cast => "Expected to cast to "@ + base_class + ", but that was not found"@,
        TryAsError::Instance => "Expected Node to have "@ + script_class
            + " attached, but it did not"@,
    }
}

/// What two steps come to: the cast to the base class, then the look for the script.
/// The cast is judged first.
pub fn try_as_outcome(cast_ok: bool, instance_ok: bool) -> (r: Option<TryAsError>)
    ensures
        r == if !cast_ok {
            Some(TryAsError::Cast)
        } else if !instance_ok {
            Some(TryAsError::Instance)
        } else {
            None
        },
{
    if !cast_ok {
        Some(TryAsError::Cast)
    } else if !instance_ok {
        Some(TryAsError::Instance)
    } else {
        None
    }
}

impl TryAsError {
    /// The report of this failure.
    pub fn report(&self, base_class: &str, script_class: &str) -> (r: String)
        ensures
            r@ == try_as_report(*self, base_class@, script_class@),
    {
        match self {
            TryAsError::Cast => {
                let mut report = String::from_str("Expected to cast to ");
                report.append(base_class);
                report.append(", but that was not found");
                report
            },
            TryAsError::Instance => {
                let mut report = String::from_str("Expected Node to have ");
                report.append(script_class);
                report.append(" attached, but it did not");
                report
            },
        }
    }
}

} // verus!
