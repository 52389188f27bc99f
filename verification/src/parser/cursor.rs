//! The steps that every rule of the grammar is made of: take one token, one identifier,
//! one type, one literal; take a bracketed group; see that the input has ended.

use crate::error::Found;
use crate::error::FoundView;
use crate::error::ParseError;
use crate::error::ParseErrorKind;
use crate::error::ParseErrorView;
use crate::tokens::accepts_ident;
use crate::tokens::cut;
use crate::tokens::expr_prefix;
use crate::tokens::ident_accepted;
use crate::tokens::lit_prefix;
use crate::tokens::path_prefix;
use crate::tokens::plain;
use crate::tokens::str_eq;
use crate::tokens::type_prefix;
use crate::tokens::Delim;
use crate::tokens::Lit;
use crate::tokens::LitKind;
use crate::tokens::LitView;
use crate::tokens::Token;
use crate::tokens::TokenView;
use crate::tokens::Tokens;
use vstd::prelude::*;

verus! {

/// What a rule makes of a token sequence: a value and the tokens behind it, or an error.
pub type Parsed<T> = Result<(T, Seq<TokenView>), ParseErrorView>;

/// The token that a sequence starts with, as an error reports it.
pub open spec fn found_at(toks: Seq<TokenView>) -> FoundView {
    if toks.len() == 0 {
        FoundView::End
    } else {
        match toks[0] {
            TokenView::Ident(name) => FoundView::Ident(name),
            TokenView::Punct(c, _) => FoundView::Punct(c),
            TokenView::Literal(text) => FoundView::Literal(text),
            TokenView::Group(d, _) => FoundView::Group(d),
        }
    }
}

/// The error of a rule that the start of a sequence breaks.
pub open spec fn fail_at(kind: ParseErrorKind, toks: Seq<TokenView>) -> ParseErrorView {
    ParseErrorView { kind, found: found_at(toks) }
}

/// An executable result agrees with the model of the rule.
pub open spec fn parsed_as<T: DeepView>(
    r: Result<(T, Tokens), ParseError>,
    model: Parsed<T::V>,
) -> bool {
    match r {
        Ok((value, rest)) => model == Ok::<(T::V, Seq<TokenView>), ParseErrorView>(
            (value.deep_view(), rest@),
        ),
        Err(e) => model == Err::<(T::V, Seq<TokenView>), ParseErrorView>(e@),
    }
}

/// What is left after a rule is no longer than what it was given.
pub open spec fn no_longer<T>(r: Result<(T, Tokens), ParseError>, input: Tokens) -> bool {
    r matches Ok((_, rest)) ==> rest@.len() <= input@.len()
}

/// The sequence starts with the given word.
pub open spec fn starts_with_word(toks: Seq<TokenView>, word: Seq<char>) -> bool {
    toks.len() > 0 && toks[0] == TokenView::Ident(word)
}

/// The sequence starts with the given punctuation character.
pub open spec fn starts_with_punct(toks: Seq<TokenView>, ch: char) -> bool {
    toks.len() > 0 && (toks[0] matches TokenView::Punct(c, _) && c == ch)
}

/// The sequence starts with a group in the given bracket.
pub open spec fn starts_with_group(toks: Seq<TokenView>, delim: Delim) -> bool {
    toks.len() > 0 && (toks[0] matches TokenView::Group(d, _) && d == delim)
}

/// Rule: the given word.
pub open spec fn word(toks: Seq<TokenView>, w: Seq<char>, kind: ParseErrorKind) -> Parsed<()> {
    if starts_with_word(toks, w) {
        Ok(((), toks.skip(1)))
    } else {
        Err(fail_at(kind, toks))
    }
}

/// Rule: the given punctuation character.
pub open spec fn punct(toks: Seq<TokenView>, ch: char, kind: ParseErrorKind) -> Parsed<()> {
    if starts_with_punct(toks, ch) {
        Ok(((), toks.skip(1)))
    } else {
        Err(fail_at(kind, toks))
    }
}

/// Rule: an identifier that is no reserved word.
pub open spec fn ident(toks: Seq<TokenView>) -> Parsed<Seq<char>> {
    if toks.len() > 0 && (toks[0] matches TokenView::Ident(name) && ident_accepted(name)) {
        Ok((toks[0]->Ident_0, toks.skip(1)))
    } else {
        Err(fail_at(ParseErrorKind::ExpectedIdentifier, toks))
    }
}

/// The error of a group that holds a group without brackets.
pub open spec fn invisible_group() -> ParseErrorView {
    ParseErrorView {
        kind: ParseErrorKind::InvisibleGroup,
        found: FoundView::Group(Delim::Invisible),
    }
}

/// Rule: a group in the given bracket; the value is what stands between the brackets.
/// Where the sequence starts with no such group, the error is of the given kind.
pub open spec fn grouped(toks: Seq<TokenView>, delim: Delim, kind: ParseErrorKind) -> Parsed<
    Seq<TokenView>,
> {
    if starts_with_group(toks, delim) {
        if plain(toks[0]->Group_1) {
            Ok((toks[0]->Group_1, toks.skip(1)))
        } else {
            Err(invisible_group())
        }
    } else {
        Err(fail_at(kind, toks))
    }
}

/// Rule: a group in parentheses; the value is what stands between them.
pub open spec fn parenthesized(toks: Seq<TokenView>) -> Parsed<Seq<TokenView>> {
    grouped(toks, Delim::Paren, ParseErrorKind::ExpectedParentheses)
}

/// Rule: the end of the input.
pub open spec fn end(toks: Seq<TokenView>) -> Result<(), ParseErrorView> {
    if toks.len() == 0 {
        Ok(())
    } else {
        Err(fail_at(ParseErrorKind::UnexpectedToken, toks))
    }
}

/// Rule: what `prefix` finds at the start of the sequence, or the given error.
pub open spec fn prefixed<T>(
    prefix: Option<(T, nat)>,
    toks: Seq<TokenView>,
    kind: ParseErrorKind,
) -> Parsed<T> {
    match cut(prefix, toks) {
        Some((value, rest)) => Ok((value, rest)),
        None => Err(fail_at(kind, toks)),
    }
}

/// Rule: a type.
pub open spec fn ty(toks: Seq<TokenView>) -> Parsed<Seq<char>> {
    prefixed(type_prefix(toks), toks, ParseErrorKind::ExpectedType)
}

/// Rule: an expression.
pub open spec fn expr(toks: Seq<TokenView>) -> Parsed<Seq<char>> {
    prefixed(expr_prefix(toks), toks, ParseErrorKind::ExpectedExpression)
}

/// Rule: a path expression.
pub open spec fn path(toks: Seq<TokenView>) -> Parsed<Seq<char>> {
    prefixed(path_prefix(toks), toks, ParseErrorKind::ExpectedPath)
}

/// Rule: a literal.
pub open spec fn lit(toks: Seq<TokenView>) -> Parsed<LitView> {
    prefixed(lit_prefix(toks), toks, ParseErrorKind::ExpectedLiteral)
}

/// Rule: a string literal.
pub open spec fn str_lit(toks: Seq<TokenView>) -> Parsed<LitView> {
    match cut(lit_prefix(toks), toks) {
        Some((value, rest)) => if value.kind == LitKind::Str {
            Ok((value, rest))
        } else {
            Err(fail_at(ParseErrorKind::ExpectedStringLiteral, toks))
        },
        None => Err(fail_at(ParseErrorKind::ExpectedStringLiteral, toks)),
    }
}

/// The token that the stream starts with, as an error reports it.
pub fn found(input: &Tokens) -> (r: Found)
    ensures
        r@ == found_at(input@),
{
    match input.first() {
        None => Found::End,
        Some((Token::Ident(name), _)) => Found::Ident(name),
        Some((Token::Punct(c, _), _)) => Found::Punct(c),
        Some((Token::Literal(text), _)) => Found::Literal(text),
        Some((Token::Group(d, _), _)) => Found::Group(d),
    }
}

/// The error of a rule that the start of the stream breaks.
pub fn fail(kind: ParseErrorKind, input: &Tokens) -> (r: ParseError)
    ensures
        r@ == fail_at(kind, input@),
{
    ParseError { kind, found: found(input) }
}

/// Whether the stream starts with the given word.
pub fn peek_word(input: &Tokens, w: &str) -> (r: bool)
    ensures
        r == starts_with_word(input@, w@),
{
    match input.first() {
        Some((Token::Ident(name), _)) => str_eq(name.as_str(), w),
        _ => false,
    }
}

/// Whether the stream starts with the given punctuation character.
pub fn peek_punct(input: &Tokens, ch: char) -> (r: bool)
    ensures
        r == starts_with_punct(input@, ch),
{
    match input.first() {
        Some((Token::Punct(c, _), _)) => c == ch,
        _ => false,
    }
}

/// Whether the stream starts with a group in the given bracket.
pub fn peek_group(input: &Tokens, delim: Delim) -> (r: bool)
    ensures
        r == starts_with_group(input@, delim),
{
    match input.first() {
        Some((Token::Group(d, _), _)) => d == delim,
        _ => false,
    }
}

/// Whether the stream is empty.
pub fn is_empty(input: &Tokens) -> (r: bool)
    ensures
        r == (input@.len() == 0),
{
    input.is_empty()
}

/// Takes the given word from the start of the stream.
pub fn expect_word(input: &Tokens, w: &str, kind: ParseErrorKind) -> (r: Result<
    ((), Tokens),
    ParseError,
>)
    ensures
        parsed_as(r, word(input@, w@, kind)),
        no_longer(r, *input),
{
    match input.first() {
        Some((Token::Ident(name), rest)) => {
            if str_eq(name.as_str(), w) {
                Ok(((), rest))
            } else {
                Err(fail(kind, input))
            }
        },
        _ => Err(fail(kind, input)),
    }
}

/// Takes the given punctuation character from the start of the stream.
pub fn expect_punct(input: &Tokens, ch: char, kind: ParseErrorKind) -> (r: Result<
    ((), Tokens),
    ParseError,
>)
    ensures
        parsed_as(r, punct(input@, ch, kind)),
        no_longer(r, *input),
{
    match input.first() {
        Some((Token::Punct(c, _), rest)) => {
            if c == ch {
                Ok(((), rest))
            } else {
                Err(fail(kind, input))
            }
        },
        _ => Err(fail(kind, input)),
    }
}

/// Takes an identifier from the start of the stream.
pub fn expect_ident(input: &Tokens) -> (r: Result<(String, Tokens), ParseError>)
    ensures
        parsed_as(r, ident(input@)),
        no_longer(r, *input),
{
    match input.first() {
        Some((Token::Ident(name), rest)) => {
            if accepts_ident(name.as_str()) {
                Ok((name, rest))
            } else {
                Err(fail(ParseErrorKind::ExpectedIdentifier, input))
            }
        },
        _ => Err(fail(ParseErrorKind::ExpectedIdentifier, input)),
    }
}

/// Takes a group in the given bracket from the start of the stream: its content, and what
/// follows it.
pub fn expect_group(input: &Tokens, delim: Delim, kind: ParseErrorKind) -> (r: Result<
    (Tokens, Tokens),
    ParseError,
>)
    ensures
        parsed_as(r, grouped(input@, delim, kind)),
        no_longer(r, *input),
{
    match input.first() {
        Some((Token::Group(d, content), rest)) => {
            if d == delim {
                match Tokens::new(content) {
                    Some(content) => Ok((content, rest)),
                    None => Err(
                        ParseError {
                            kind: ParseErrorKind::InvisibleGroup,
                            found: Found::Group(Delim::Invisible),
                        },
                    ),
                }
            } else {
                Err(fail(kind, input))
            }
        },
        _ => Err(fail(kind, input)),
    }
}

/// Takes a parenthesized group from the start of the stream: its content, and what
/// follows it.
pub fn expect_parenthesized(input: &Tokens) -> (r: Result<(Tokens, Tokens), ParseError>)
    ensures
        parsed_as(r, parenthesized(input@)),
        no_longer(r, *input),
{
    expect_group(input, Delim::Paren, ParseErrorKind::ExpectedParentheses)
}

/// Checks that the stream has ended.
pub fn expect_end(input: &Tokens) -> (r: Result<(), ParseError>)
    ensures
        match r {
            Ok(()) => end(input@) == Ok::<(), ParseErrorView>(()),
            Err(e) => end(input@) == Err::<(), ParseErrorView>(e@),
        },
{
    if is_empty(input) {
        Ok(())
    } else {
        Err(fail(ParseErrorKind::UnexpectedToken, input))
    }
}

/// Takes a type from the start of the stream.
pub fn expect_type(input: &Tokens) -> (r: Result<(String, Tokens), ParseError>)
    ensures
        parsed_as(r, ty(input@)),
        no_longer(r, *input),
{
    match input.take_type() {
        Some((text, rest)) => Ok((text, rest)),
        None => Err(fail(ParseErrorKind::ExpectedType, input)),
    }
}

/// Takes an expression from the start of the stream.
pub fn expect_expr(input: &Tokens) -> (r: Result<(String, Tokens), ParseError>)
    ensures
        parsed_as(r, expr(input@)),
        no_longer(r, *input),
{
    match input.take_expr() {
        Some((text, rest)) => Ok((text, rest)),
        None => Err(fail(ParseErrorKind::ExpectedExpression, input)),
    }
}

/// Takes a path expression from the start of the stream.
pub fn expect_path(input: &Tokens) -> (r: Result<(String, Tokens), ParseError>)
    ensures
        parsed_as(r, path(input@)),
        no_longer(r, *input),
{
    match input.take_path() {
        Some((text, rest)) => Ok((text, rest)),
        None => Err(fail(ParseErrorKind::ExpectedPath, input)),
    }
}

/// Takes a literal from the start of the stream.
pub fn expect_lit(input: &Tokens) -> (r: Result<(Lit, Tokens), ParseError>)
    ensures
        parsed_as(r, lit(input@)),
        no_longer(r, *input),
{
    match input.take_lit() {
        Some((value, rest)) => Ok((value, rest)),
        None => Err(fail(ParseErrorKind::ExpectedLiteral, input)),
    }
}

/// Takes a string literal from the start of the stream.
pub fn expect_str_lit(input: &Tokens) -> (r: Result<(Lit, Tokens), ParseError>)
    ensures
        parsed_as(r, str_lit(input@)),
        no_longer(r, *input),
{
    match input.take_lit() {
        Some((value, rest)) => {
            if value.kind == LitKind::Str {
                Ok((value, rest))
            } else {
                Err(fail(ParseErrorKind::ExpectedStringLiteral, input))
            }
        },
        None => Err(fail(ParseErrorKind::ExpectedStringLiteral, input)),
    }
}

} // verus!
