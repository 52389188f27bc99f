//! Signal declarations: the word `signal`, then the signal.

use crate::compiler::signals::signal;
use crate::compiler::signals::SignalArgDecl;
use crate::compiler::signals::SignalDecl;
use crate::compiler::signals::SignalDeclView;
use crate::error::ParseError;
use crate::error::ParseErrorKind;
use crate::parser::cursor::expect_word;
use crate::parser::cursor::parsed_as;
use crate::parser::cursor::peek_word;
use crate::parser::cursor::starts_with_word;
use crate::parser::cursor::word;
use crate::parser::cursor::Parsed;
use crate::tokens::TokenView;
use crate::tokens::Tokens;
use vstd::prelude::*;

verus! {

/// A signal as the class grammar declares it.
pub type GdScriptSignal = SignalDecl;

/// An argument of a signal as the class grammar declares it.
pub type SignalArg = SignalArgDecl;

/// A signal declaration starts here: with the word `signal`.
pub open spec fn signal_starts(toks: Seq<TokenView>) -> bool {
    starts_with_word(toks, "signal"@)
}

/// Rule: `'signal' IDENT '(' (arg (',' arg)*)? ')'`.
pub open spec fn signal_decl(toks: Seq<TokenView>) -> Parsed<SignalDeclView> {
    match word(toks, "signal"@, ParseErrorKind::ExpectedVarOrSignal) {
        Err(e) => Err(e),
        Ok((_, rest)) => signal(rest),
    }
}

/// Whether a signal declaration starts at the start of the stream.
pub fn next_is_signal(input: &Tokens) -> (r: bool)
    ensures
        r == signal_starts(input@),
{
    peek_word(input, "signal")
}

/// Reads one signal declaration from the start of the stream.
pub fn parse_signal_decl(input: &Tokens) -> (r: Result<(SignalDecl, Tokens), ParseError>)
    ensures
        parsed_as(r, signal_decl(input@)),
        r matches Ok((_, rest)) ==> rest@.len() < input@.len(),
{
    let (_, rest) = expect_word(input, "signal", ParseErrorKind::ExpectedVarOrSignal)?;
    SignalDecl::parse(&rest)
}

} // verus!
