//! Comma-separated lists. A list may be empty and may end in a comma.

use crate::error::ParseError;
use crate::error::ParseErrorKind;
use crate::error::ParseErrorView;
use crate::parser::cursor::expect_lit;
use crate::parser::cursor::expect_punct;
use crate::parser::cursor::expect_str_lit;
use crate::parser::cursor::expect_type;
use crate::parser::cursor::is_empty;
use crate::parser::cursor::lit;
use crate::parser::cursor::punct;
use crate::parser::cursor::str_lit;
use crate::parser::cursor::ty;
use crate::tokens::Lit;
use crate::tokens::LitView;
use crate::tokens::TokenView;
use crate::tokens::Tokens;
use vstd::prelude::*;

verus! {

/// Rule: one item of a list of literals.
pub open spec fn lit_item(toks: Seq<TokenView>, strings_only: bool) -> Result<
    (LitView, Seq<TokenView>),
    ParseErrorView,
> {
    if strings_only {
        str_lit(toks)
    } else {
        lit(toks)
    }
}

/// Rule: the literals of a comma-separated list that spans the whole sequence, behind the
/// literals already read.
pub open spec fn lits_from(toks: Seq<TokenView>, strings_only: bool, read: Seq<LitView>) -> Result<
    Seq<LitView>,
    ParseErrorView,
>
    decreases toks.len(),
{
    if toks.len() == 0 {
        Ok(read)
    } else {
        match lit_item(toks, strings_only) {
            Err(e) => Err(e),
            Ok((value, rest)) => if rest.len() == 0 {
                Ok(read.push(value))
            } else {
                match punct(rest, ',', ParseErrorKind::ExpectedComma) {
                    Err(e) => Err(e),
                    Ok((_, after)) => lits_from(after, strings_only, read.push(value)),
                }
            },
        }
    }
}

/// Rule: a comma-separated list of literals that spans the whole sequence.
pub open spec fn lits(toks: Seq<TokenView>, strings_only: bool) -> Result<
    Seq<LitView>,
    ParseErrorView,
> {
    lits_from(toks, strings_only, Seq::empty())
}

/// Rule: the types of a comma-separated list that spans the whole sequence, behind the
/// types already read.
pub open spec fn types_from(toks: Seq<TokenView>, read: Seq<Seq<char>>) -> Result<
    Seq<Seq<char>>,
    ParseErrorView,
>
    decreases toks.len(),
{
    if toks.len() == 0 {
        Ok(read)
    } else {
        match ty(toks) {
            Err(e) => Err(e),
            Ok((value, rest)) => if rest.len() == 0 {
                Ok(read.push(value))
            } else {
                match punct(rest, ',', ParseErrorKind::ExpectedComma) {
                    Err(e) => Err(e),
                    Ok((_, after)) => types_from(after, read.push(value)),
                }
            },
        }
    }
}

/// Rule: a comma-separated list of types that spans the whole sequence.
pub open spec fn types(toks: Seq<TokenView>) -> Result<Seq<Seq<char>>, ParseErrorView> {
    types_from(toks, Seq::empty())
}

/// Reads a comma-separated list of literals that spans the whole stream; with
/// `strings_only`, of string literals.
pub fn parse_lits(input: &Tokens, strings_only: bool) -> (r: Result<Vec<Lit>, ParseError>)
    ensures
        match r {
            Ok(values) => lits(input@, strings_only) == Ok::<
                Seq<LitView>,
                ParseErrorView,
            >(values.deep_view()),
            Err(e) => lits(input@, strings_only) == Err::<
                Seq<LitView>,
                ParseErrorView,
            >(e@),
        },
{
    let mut values: Vec<Lit> = Vec::new();
    let mut cur = input.clone();
    assert(values.deep_view() =~= Seq::<LitView>::empty());
    loop
        invariant
            lits(input@, strings_only) == lits_from(
                cur@,
                strings_only,
                values.deep_view(),
            ),
        decreases cur@.len(),
    {
        if is_empty(&cur) {
            return Ok(values);
        }
        let item = if strings_only {
            expect_str_lit(&cur)
        } else {
            expect_lit(&cur)
        };
        let (value, rest) = match item {
            Ok(pair) => pair,
            Err(e) => {
                return Err(e);
            },
        };
        let ghost before = values.deep_view();
        let ghost item_view = value@;
        values.push(value);
        assert(values.deep_view() =~= before.push(item_view));
        if is_empty(&rest) {
            return Ok(values);
        }
        match expect_punct(&rest, ',', ParseErrorKind::ExpectedComma) {
            Ok((_, after)) => {
                cur = after;
            },
            Err(e) => {
                return Err(e);
            },
        }
    }
}

/// Reads a comma-separated list of types that spans the whole stream.
pub fn parse_types(input: &Tokens) -> (r: Result<Vec<String>, ParseError>)
    ensures
        match r {
            Ok(values) => types(input@) == Ok::<Seq<Seq<char>>, ParseErrorView>(
                values.deep_view(),
            ),
            Err(e) => types(input@) == Err::<Seq<Seq<char>>, ParseErrorView>(e@),
        },
{
    let mut values: Vec<String> = Vec::new();
    let mut cur = input.clone();
    assert(values.deep_view() =~= Seq::<Seq<char>>::empty());
    loop
        invariant
            types(input@) == types_from(cur@, values.deep_view()),
        decreases cur@.len(),
    {
        if is_empty(&cur) {
            return Ok(values);
        }
        let (value, rest) = match expect_type(&cur) {
            Ok(pair) => pair,
            Err(e) => {
                return Err(e);
            },
        };
        let ghost before = values.deep_view();
        let ghost item_view = value@;
        values.push(value);
        assert(values.deep_view() =~= before.push(item_view));
        if is_empty(&rest) {
            return Ok(values);
        }
        match expect_punct(&rest, ',', ParseErrorKind::ExpectedComma) {
            Ok((_, after)) => {
                cur = after;
            },
            Err(e) => {
                return Err(e);
            },
        }
    }
}

} // verus!
