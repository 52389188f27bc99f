//! Text: the pieces that the generated code is joined from.

use crate::tokens::Lit;
use heck::ShoutySnakeCase;
use proc_macro2::fallback::force;
use vstd::prelude::*;

verus! {

/// The string literal that denotes a text, as source code: between double quotes, with
/// escapes where the text needs them.
pub uninterp spec fn quoted(text: Seq<char>) -> Seq<char>;

/// A name in upper case with its words joined by underscores.
pub uninterp spec fn shouty_snake(name: Seq<char>) -> Seq<char>;

/// Writes a text as a string literal.
///
/// Calls `proc_macro2::fallback::force`, so that `proc_macro2` works on its own, and then
/// `proc_macro2::Literal::string`, and prints the literal.
#[verifier::external_body]
pub(crate) fn string_literal(text: &str) -> (r: String)
    ensures
        r@ == quoted(text@),
{
    force();
    proc_macro2::Literal::string(text).to_string()
}

/// Puts a name into upper case with underscores between its words.
///
/// Calls `heck::ShoutySnakeCase::to_shouty_snake_case`.
#[verifier::external_body]
pub(crate) fn shouty_snake_case(name: &str) -> (r: String)
    ensures
        r@ == shouty_snake(name@),
{
    name.to_shouty_snake_case()
}

/// Copies a list of texts.
pub fn clone_texts(texts: &Vec<String>) -> (r: Vec<String>)
    ensures
        r.deep_view() == texts.deep_view(),
{
    let mut out: Vec<String> = Vec::new();
    let mut i: usize = 0;
    while i < texts.len()
        invariant
            i <= texts.len(),
            out.len() == i,
            forall|j: int| 0 <= j < i ==> out@[j]@ == texts@[j]@,
        decreases texts.len() - i,
    {
        out.push(texts[i].clone());
        i += 1;
    }
    assert(out.deep_view() =~= texts.deep_view());
    out
}

/// Copies an optional text.
pub fn clone_opt_text(text: &Option<String>) -> (r: Option<String>)
    ensures
        r.deep_view() == text.deep_view(),
{
    match text {
        Some(t) => Some(t.clone()),
        None => None,
    }
}

/// Copies a list of literals.
pub fn clone_lits(lits: &Vec<Lit>) -> (r: Vec<Lit>)
    ensures
        r.deep_view() == lits.deep_view(),
{
    let mut out: Vec<Lit> = Vec::new();
    let mut i: usize = 0;
    while i < lits.len()
        invariant
            i <= lits.len(),
            out.len() == i,
            forall|j: int| 0 <= j < i ==> out@[j]@ == lits@[j]@,
        decreases lits.len() - i,
    {
        out.push(lits[i].clone());
        i += 1;
    }
    assert(out.deep_view() =~= lits.deep_view());
    out
}

/// Copies an optional literal.
pub fn clone_opt_lit(lit: &Option<Lit>) -> (r: Option<Lit>)
    ensures
        r.deep_view() == lit.deep_view(),
{
    match lit {
        Some(l) => Some(l.clone()),
        None => None,
    }
}

} // verus!
