//! The setter and the getter of a property: the method that an annotation names, or plain
//! access to the field.

use crate::compiler::properties::SetGet;
use crate::compiler::properties::SetGetView;
use vstd::prelude::*;
use vstd::string::StringExecFns;

verus! {

/// The function that sets the property: the registered setter, or a closure that writes
/// the field.
pub open spec fn setter(setget: SetGetView, ident: Seq<char>) -> Seq<char> {
    match setget {
        SetGetView::SetterOnly(method) => method,
        SetGetView::Both { setter, .. } => setter,
        _ => "|this, _owner, val| { this."@ + ident + " = val }"@,
    }
}

/// The function that gets the property: the registered getter, or a closure that reads
/// the field.
pub open spec fn getter(setget: SetGetView, ident: Seq<char>) -> Seq<char> {
    match setget {
        SetGetView::GetterOnly(method) => method,
        SetGetView::Both { getter, .. } => getter,
        _ => "|this, _owner| { &this."@ + ident + " }"@,
    }
}

/// The code that attaches the setter to a property under construction.
pub open spec fn setter_call(setget: SetGetView, ident: Seq<char>) -> Seq<char> {
    ".with_setter("@ + setter(setget, ident) + ")"@
}

/// The code that attaches the getter to a property under construction.
pub open spec fn getter_call(setget: SetGetView, ident: Seq<char>) -> Seq<char> {
    ".with_ref_getter("@ + getter(setget, ident) + ")"@
}

/// Writes the code that attaches the setter of the property named `ident`.
pub fn property_setter(setget: &SetGet, ident: &str) -> (r: String)
    ensures
        r@ == setter_call(setget@, ident@),
{
    let function = match setget {
        SetGet::SetterOnly(m) => m.method.clone(),
        SetGet::Both(m) => m.setter.clone(),
        _ => {
            let mut closure = String::from_str("|this, _owner, val| { this.");
            closure.append(ident);
            closure.append(" = val }");
            closure
        },
    };
    let mut out = String::from_str(".with_setter(");
    out.append(function.as_str());
    out.append(")");
    out
}

/// Writes the code that attaches the getter of the property named `ident`.
pub fn property_getter(setget: &SetGet, ident: &str) -> (r: String)
    ensures
        r@ == getter_call(setget@, ident@),
{
    let function = match setget {
        SetGet::GetterOnly(m) => m.method.clone(),
        SetGet::Both(m) => m.getter.clone(),
        _ => {
            let mut closure = String::from_str("|this, _owner| { &this.");
            closure.append(ident);
            closure.append(" }");
            closure
        },
    };
    let mut out = String::from_str(".with_ref_getter(");
    out.append(function.as_str());
    out.append(")");
    out
}

} // verus!
