//! The items of a class: property declarations and signal declarations, told apart by
//! the token they start with.

use crate::compiler::signals::SignalDecl;
use crate::compiler::signals::SignalDeclView;
use crate::error::ParseError;
use crate::error::ParseErrorKind;
use crate::error::ParseErrorView;
use crate::parser::cursor::fail;
use crate::parser::cursor::fail_at;
use crate::parser::cursor::is_empty;
use crate::parser::cursor::parsed_as;
use crate::parser::cursor::Parsed;
use crate::parser::gdscript_signal::next_is_signal;
use crate::parser::gdscript_signal::parse_signal_decl;
use crate::parser::gdscript_signal::signal_decl;
use crate::parser::gdscript_signal::signal_starts;
use crate::parser::gdscript_var::next_is_var;
use crate::parser::gdscript_var::var_decl;
use crate::parser::gdscript_var::var_starts;
use crate::parser::gdscript_var::GdScriptVar;
use crate::parser::gdscript_var::GdScriptVarView;
use crate::tokens::TokenView;
use crate::tokens::Tokens;
use vstd::prelude::*;

verus! {

/// One item of a class.
#[derive(Debug)]
pub enum GdScriptItem {
    Variable(GdScriptVar),
    Signal(SignalDecl),
}

/// The mathematical model of [`GdScriptItem`].
pub enum GdScriptItemView {
    Variable(GdScriptVarView),
    Signal(SignalDeclView),
}

impl View for GdScriptItem {
    type V = GdScriptItemView;

    open spec fn view(&self) -> GdScriptItemView {
        match *self {
            GdScriptItem::Variable(v) => GdScriptItemView::Variable(v@),
            GdScriptItem::Signal(s) => GdScriptItemView::Signal(s@),
        }
    }
}

impl DeepView for GdScriptItem {
    type V = GdScriptItemView;

    open spec fn deep_view(&self) -> GdScriptItemView {
        self@
    }
}

/// Rule: a signal declaration where the word `signal` stands, a property declaration
/// where `@` or `var` stands, and an error elsewhere.
pub open spec fn item(toks: Seq<TokenView>) -> Parsed<GdScriptItemView> {
    if signal_starts(toks) {
        match signal_decl(toks) {
            Err(e) => Err(e),
            Ok((s, rest)) => Ok((GdScriptItemView::Signal(s), rest)),
        }
    } else if var_starts(toks) {
        match var_decl(toks) {
            Err(e) => Err(e),
            Ok((v, rest)) => Ok((GdScriptItemView::Variable(v), rest)),
        }
    } else {
        Err(fail_at(ParseErrorKind::ExpectedVarOrSignal, toks))
    }
}

/// Rule: the items that fill the whole sequence, behind the items already read.
pub open spec fn items_from(toks: Seq<TokenView>, read: Seq<GdScriptItemView>) -> Result<
    Seq<GdScriptItemView>,
    ParseErrorView,
>
    decreases toks.len(),
{
    if toks.len() == 0 {
        Ok(read)
    } else {
        match item(toks) {
            Err(e) => Err(e),
            Ok((value, rest)) => items_from(rest, read.push(value)),
        }
    }
}

/// Rule: a sequence of items that fills the whole sequence of tokens, in the order in
/// which they stand.
pub open spec fn items(toks: Seq<TokenView>) -> Result<Seq<GdScriptItemView>, ParseErrorView> {
    items_from(toks, Seq::empty())
}

impl GdScriptItem {
    /// Reads one item from the start of the stream.
    pub fn parse(input: &Tokens) -> (r: Result<(GdScriptItem, Tokens), ParseError>)
        ensures
            parsed_as(r, item(input@)),
            r matches Ok((_, rest)) ==> rest@.len() < input@.len(),
    {
        if next_is_signal(input) {
            let (s, rest) = parse_signal_decl(input)?;
            Ok((GdScriptItem::Signal(s), rest))
        } else if next_is_var(input) {
            let (v, rest) = GdScriptVar::parse(input)?;
            Ok((GdScriptItem::Variable(v), rest))
        } else {
            Err(fail(ParseErrorKind::ExpectedVarOrSignal, input))
        }
    }
}

/// Reads the items that fill the whole stream.
pub fn parse_items(input: &Tokens) -> (r: Result<Vec<GdScriptItem>, ParseError>)
    ensures
        match r {
            Ok(values) => items(input@) == Ok::<
                Seq<GdScriptItemView>,
                ParseErrorView,
            >(values.deep_view()),
            Err(e) => items(input@) == Err::<Seq<GdScriptItemView>, ParseErrorView>(
                e@,
            ),
        },
{
    let mut values: Vec<GdScriptItem> = Vec::new();
    let mut cur = input.clone();
    assert(values.deep_view() =~= Seq::<GdScriptItemView>::empty());
    while !is_empty(&cur)
        invariant
            items(input@) == items_from(cur@, values.deep_view()),
        decreases cur@.len(),
    {
        let (value, rest) = match GdScriptItem::parse(&cur) {
            Ok(pair) => pair,
            Err(e) => {
                return Err(e);
            },
        };
        let ghost before = values.deep_view();
        let ghost item_view = value@;
        values.push(value);
        assert(values.deep_view() =~= before.push(item_view));
        cur = rest;
    }
    Ok(values)
}

} // verus!
