//! Helpers for code that talks to the engine: unwrapping with a report, assertions with a
//! report, and the errors of the engine calls.
//!
//! Nothing here prints or aborts. A function that would report a failure hands back the
//! text of the report, and the caller prints it and aborts.

pub mod object_ext;
pub mod option_ext;
pub mod packed_scene_ext;
pub mod resource_loader_ext;
pub mod result_ext;

use vstd::prelude::*;
use vstd::string::StringExecFns;

verus! {

/// The report of an assertion that failed, for the asserted expression as text.
pub open spec fn assertion_report(expression: Seq<char>) -> Seq<char> {
    "Assertion error: "@ + expression
}

/// Checks an assertion. Where the condition holds there is nothing to report; where it
/// does not, the report names the asserted expression.
pub fn godot_assert(condition: bool, expression: &str) -> (r: Option<String>)
    ensures
        condition ==> r is None,
        !condition ==> r is Some && r->0@ == assertion_report(expression@),
{
    if condition {
        None
    } else {
        let mut report = String::from_str("Assertion error: ");
        report.append(expression);
        Some(report)
    }
}

/// Checks an assertion that brings its own report.
pub fn godot_assert_message(condition: bool, message: &str) -> (r: Option<String>)
    ensures
        condition ==> r is None,
        !condition ==> r is Some && r->0@ == message@,
{
    if condition {
        None
    } else {
        Some(String::from_str(message))
    }
}

/// Checks an assertion where debug assertions are switched on, and reports nothing where
/// they are off.
pub fn godot_debug_assert(debug_assertions: bool, condition: bool, expression: &str) -> (r: Option<
    String,
>)
    ensures
        !debug_assertions || condition ==> r is None,
        debug_assertions && !condition ==> r is Some && r->0@ == assertion_report(expression@),
{
    if debug_assertions {
        godot_assert(condition, expression)
    } else {
        None
    }
}

/// Checks an assertion that brings its own report where debug assertions are switched on.
pub fn godot_debug_assert_message(debug_assertions: bool, condition: bool, message: &str) -> (r:
    Option<String>)
    ensures
        !debug_assertions || condition ==> r is None,
        debug_assertions && !condition ==> r is Some && r->0@ == message@,
{
    if debug_assertions {
        godot_assert_message(condition, message)
    } else {
        None
    }
}

} // verus!
