//! The model of a signal, and the rule that reads one: a name and a parenthesized list of
//! typed arguments, each with an optional default.

use crate::compiler::attributes::attribute_name;
use crate::compiler::attributes::Attribute;
use crate::compiler::attributes::AttributeView;
use crate::compiler::attributes::StructItem;
use crate::error::Error;
use crate::error::ErrorView;
use crate::error::ParseError;
use crate::error::ParseErrorKind;
use crate::error::ParseErrorView;
use crate::parser::cursor::end;
use crate::parser::cursor::expect_end;
use crate::parser::cursor::expect_expr;
use crate::parser::cursor::expect_ident;
use crate::parser::cursor::expect_parenthesized;
use crate::parser::cursor::expect_punct;
use crate::parser::cursor::expect_type;
use crate::parser::cursor::expr;
use crate::parser::cursor::ident;
use crate::parser::cursor::is_empty;
use crate::parser::cursor::parenthesized;
use crate::parser::cursor::parsed_as;
use crate::parser::cursor::peek_punct;
use crate::parser::cursor::punct;
use crate::parser::cursor::starts_with_punct;
use crate::parser::cursor::ty;
use crate::parser::cursor::Parsed;
use crate::text::clone_opt_text;
use crate::tokens::str_eq;
use crate::tokens::TokenView;
use crate::tokens::Tokens;
use vstd::prelude::*;

verus! {

/// One argument of a signal.
#[derive(Debug)]
pub struct SignalArgDecl {
    pub name: String,
    pub ty: String,
    pub default: Option<String>,
}

/// The mathematical model of [`SignalArgDecl`].
pub struct SignalArgDeclView {
    pub name: Seq<char>,
    pub ty: Seq<char>,
    pub default: Option<Seq<char>>,
}

impl View for SignalArgDecl {
    type V = SignalArgDeclView;

    open spec fn view(&self) -> SignalArgDeclView {
        SignalArgDeclView { name: self.name@, ty: self.ty@, default: self.default.deep_view() }
    }
}

impl DeepView for SignalArgDecl {
    type V = SignalArgDeclView;

    open spec fn deep_view(&self) -> SignalArgDeclView {
        self@
    }
}

impl Clone for SignalArgDecl {
    fn clone(&self) -> (r: Self)
        ensures
            r@ == self@,
    {
        SignalArgDecl {
            name: self.name.clone(),
            ty: self.ty.clone(),
            default: clone_opt_text(&self.default),
        }
    }
}

/// A signal: its name and its arguments in the order of their declaration.
#[derive(Debug)]
pub struct SignalDecl {
    pub name: String,
    pub args: Vec<SignalArgDecl>,
}

/// The mathematical model of [`SignalDecl`].
pub struct SignalDeclView {
    pub name: Seq<char>,
    pub args: Seq<SignalArgDeclView>,
}

impl View for SignalDecl {
    type V = SignalDeclView;

    open spec fn view(&self) -> SignalDeclView {
        SignalDeclView { name: self.name@, args: self.args.deep_view() }
    }
}

impl DeepView for SignalDecl {
    type V = SignalDeclView;

    open spec fn deep_view(&self) -> SignalDeclView {
        self@
    }
}

impl Clone for SignalDecl {
    fn clone(&self) -> (r: Self)
        ensures
            r@ == self@,
    {
        let mut args: Vec<SignalArgDecl> = Vec::new();
        let mut i: usize = 0;
        while i < self.args.len()
            invariant
                i <= self.args.len(),
                args.len() == i,
                forall|j: int| 0 <= j < i ==> args@[j]@ == self.args@[j]@,
            decreases self.args.len() - i,
        {
            args.push(self.args[i].clone());
            i += 1;
        }
        assert(args.deep_view() =~= self.args.deep_view());
        SignalDecl { name: self.name.clone(), args }
    }
}

/// Rule: `IDENT ':' TYPE ['=' EXPR]`.
pub open spec fn signal_arg(toks: Seq<TokenView>) -> Parsed<SignalArgDeclView> {
    match ident(toks) {
        Err(e) => Err(e),
        Ok((name, t1)) => match punct(t1, ':', ParseErrorKind::ExpectedColon) {
            Err(e) => Err(e),
            Ok((_, t2)) => match ty(t2) {
                Err(e) => Err(e),
                Ok((ty, t3)) => if starts_with_punct(t3, '=') {
                    match expr(t3.skip(1)) {
                        Err(e) => Err(e),
                        Ok((value, t4)) => Ok(
                            (SignalArgDeclView { name, ty, default: Some(value) }, t4),
                        ),
                    }
                } else {
                    Ok((SignalArgDeclView { name, ty, default: None }, t3))
                },
            },
        },
    }
}

/// Rule: the arguments of a comma-separated list that spans the whole sequence, behind
/// the arguments already read.
pub open spec fn signal_args_from(toks: Seq<TokenView>, read: Seq<SignalArgDeclView>) -> Result<
    Seq<SignalArgDeclView>,
    ParseErrorView,
>
    decreases toks.len(),
{
    if toks.len() == 0 {
        Ok(read)
    } else {
        match signal_arg(toks) {
            Err(e) => Err(e),
            Ok((value, rest)) => if rest.len() == 0 {
                Ok(read.push(value))
            } else {
                match punct(rest, ',', ParseErrorKind::ExpectedComma) {
                    Err(e) => Err(e),
                    Ok((_, after)) => signal_args_from(after, read.push(value)),
                }
            },
        }
    }
}

/// Rule: a comma-separated list of arguments that spans the whole sequence. It may be
/// empty and may end in a comma.
pub open spec fn signal_args(toks: Seq<TokenView>) -> Result<
    Seq<SignalArgDeclView>,
    ParseErrorView,
> {
    signal_args_from(toks, Seq::empty())
}

/// Rule: `IDENT '(' (arg (',' arg)*)? ')'`.
pub open spec fn signal(toks: Seq<TokenView>) -> Parsed<SignalDeclView> {
    match ident(toks) {
        Err(e) => Err(e),
        Ok((name, t1)) => match parenthesized(t1) {
            Err(e) => Err(e),
            Ok((content, t2)) => match signal_args(content) {
                Err(e) => Err(e),
                Ok(args) => Ok((SignalDeclView { name, args }, t2)),
            },
        },
    }
}

impl SignalArgDecl {
    /// Reads one signal argument from the start of the stream. The default is read as an
    /// expression and is not held against the type.
    pub fn parse(input: &Tokens) -> (r: Result<(SignalArgDecl, Tokens), ParseError>)
        ensures
            parsed_as(r, signal_arg(input@)),
            r matches Ok((_, rest)) ==> rest@.len() < input@.len(),
    {
        let (name, t1) = expect_ident(input)?;
        let (_, t2) = expect_punct(&t1, ':', ParseErrorKind::ExpectedColon)?;
        let (ty, t3) = expect_type(&t2)?;
        if peek_punct(&t3, '=') {
            let (_, behind) = expect_punct(&t3, '=', ParseErrorKind::ExpectedEquals)?;
            let (value, t4) = expect_expr(&behind)?;
            Ok((SignalArgDecl { name, ty, default: Some(value) }, t4))
        } else {
            Ok((SignalArgDecl { name, ty, default: None }, t3))
        }
    }
}

/// Reads a comma-separated list of signal arguments that spans the whole stream.
pub fn parse_signal_args(input: &Tokens) -> (r: Result<Vec<SignalArgDecl>, ParseError>)
    ensures
        match r {
            Ok(args) => signal_args(input@) == Ok::<
                Seq<SignalArgDeclView>,
                ParseErrorView,
            >(args.deep_view()),
            Err(e) => signal_args(input@) == Err::<
                Seq<SignalArgDeclView>,
                ParseErrorView,
            >(e@),
        },
{
    let mut args: Vec<SignalArgDecl> = Vec::new();
    let mut cur = input.clone();
    assert(args.deep_view() =~= Seq::<SignalArgDeclView>::empty());
    loop
        invariant
            signal_args(input@) == signal_args_from(
                cur@,
                args.deep_view(),
            ),
        decreases cur@.len(),
    {
        if is_empty(&cur) {
            return Ok(args);
        }
        let (value, rest) = match SignalArgDecl::parse(&cur) {
            Ok(pair) => pair,
            Err(e) => {
                return Err(e);
            },
        };
        let ghost before = args.deep_view();
        let ghost item_view = value@;
        args.push(value);
        assert(args.deep_view() =~= before.push(item_view));
        if is_empty(&rest) {
            return Ok(args);
        }
        match expect_punct(&rest, ',', ParseErrorKind::ExpectedComma) {
            Ok((_, after)) => {
                cur = after;
            },
            Err(e) => {
                return Err(e);
            },
        }
    }
}

impl SignalDecl {
    /// Reads one signal, without the word that introduces it, from the start of the
    /// stream. A signal may have no arguments.
    pub fn parse(input: &Tokens) -> (r: Result<(SignalDecl, Tokens), ParseError>)
        ensures
            parsed_as(r, signal(input@)),
            r matches Ok((_, rest)) ==> rest@.len() < input@.len(),
    {
        let (name, t1) = expect_ident(input)?;
        let (content, t2) = expect_parenthesized(&t1)?;
        let args = parse_signal_args(&content)?;
        Ok((SignalDecl { name, args }, t2))
    }
}

} // verus!

verus! {

/// A signal between parentheses: the arguments of a `signal` annotation.
#[derive(Debug)]
pub struct SignalWithParens {
    pub signal: SignalDecl,
}

/// Rule: a parenthesized signal and nothing else.
pub open spec fn signal_in_parens(toks: Seq<TokenView>) -> Result<SignalDeclView, ParseErrorView> {
    match parenthesized(toks) {
        Err(e) => Err(e),
        Ok((content, rest)) => match signal(content) {
            Err(e) => Err(e),
            Ok((s, inner_rest)) => match end(inner_rest) {
                Err(e) => Err(e),
                Ok(_) => match end(rest) {
                    Err(e) => Err(e),
                    Ok(_) => Ok(s),
                },
            },
        },
    }
}

/// The attribute is a `signal` annotation.
pub open spec fn is_signal_attribute(attr: AttributeView) -> bool {
    attribute_name(attr.path) == Some("signal"@)
}

/// The signals that the first `n` attributes of a struct declare, in the order of the
/// attributes, and the attributes among them that declare none, in their order. The first
/// signal annotation that breaks the grammar decides the error.
pub open spec fn signals_upto(attrs: Seq<AttributeView>, n: int) -> Result<
    (Seq<SignalDeclView>, Seq<AttributeView>),
    ErrorView,
>
    decreases n,
{
    if n <= 0 {
        Ok((Seq::empty(), Seq::empty()))
    } else {
        match signals_upto(attrs, n - 1) {
            Err(e) => Err(e),
            Ok((signals, kept)) => if is_signal_attribute(attrs[n - 1]) {
                match signal_in_parens(attrs[n - 1].tokens) {
                    Err(e) => Err(ErrorView::Signal { attribute: (n - 1) as usize, error: e }),
                    Ok(s) => Ok((signals.push(s), kept)),
                }
            } else {
                Ok((signals, kept.push(attrs[n - 1])))
            },
        }
    }
}

/// A signal annotation that breaks the grammar decides the result, whatever stands
/// behind it.
pub proof fn lemma_signal_error_stays(attrs: Seq<AttributeView>, k: int, n: int)
    requires
        k <= n,
        signals_upto(attrs, k) is Err,
    ensures
        signals_upto(attrs, n) == signals_upto(attrs, k),
    decreases n - k,
{
    if k < n {
        lemma_signal_error_stays(attrs, k, n - 1);
    }
}

impl SignalWithParens {
    /// Reads a parenthesized signal that fills the whole stream.
    pub fn parse(input: &Tokens) -> (r: Result<SignalWithParens, ParseError>)
        ensures
            match r {
                Ok(s) => signal_in_parens(input@) == Ok::<
                    SignalDeclView,
                    ParseErrorView,
                >(s.signal@),
                Err(e) => signal_in_parens(input@) == Err::<
                    SignalDeclView,
                    ParseErrorView,
                >(e@),
            },
    {
        let (content, rest) = expect_parenthesized(input)?;
        let (signal, inner_rest) = SignalDecl::parse(&content)?;
        expect_end(&inner_rest)?;
        expect_end(&rest)?;
        Ok(SignalWithParens { signal })
    }
}

/// Reads the signals that the attributes of a struct declare, in the order of the
/// attributes, and takes those attributes off the struct: the others stay, in their
/// order. Where a signal annotation breaks the grammar, the struct is left as it was.
pub fn extract_signals(item: &mut StructItem) -> (r: Result<Vec<SignalDecl>, Error>)
    ensures
        match r {
            Ok(signals) => signals_upto(old(item)@.attrs, old(item)@.attrs.len() as int) == Ok::<
                (Seq<SignalDeclView>, Seq<AttributeView>),
                ErrorView,
            >((signals.deep_view(), final(item)@.attrs)) && final(item)@.name == old(item)@.name
                && final(item)@.fields == old(item)@.fields,
            Err(e) => signals_upto(old(item)@.attrs, old(item)@.attrs.len() as int) == Err::<
                (Seq<SignalDeclView>, Seq<AttributeView>),
                ErrorView,
            >(e@) && *final(item) == *old(item),
        },
{
    let mut signals: Vec<SignalDecl> = Vec::new();
    let mut kept: Vec<Attribute> = Vec::new();
    let mut i: usize = 0;
    assert(signals.deep_view() =~= Seq::<SignalDeclView>::empty());
    assert(kept.deep_view() =~= Seq::<AttributeView>::empty());
    while i < item.attrs.len()
        invariant
            i <= item.attrs.len(),
            *item == *old(item),
            signals_upto(item@.attrs, i as int) == Ok::<
                (Seq<SignalDeclView>, Seq<AttributeView>),
                ErrorView,
            >((signals.deep_view(), kept.deep_view())),
        decreases item.attrs.len() - i,
    {
        let attr = &item.attrs[i];
        assert(item@.attrs[i as int] == attr@);
        let is_signal = match attr.name() {
            Some(name) => str_eq(name.as_str(), "signal"),
            None => false,
        };
        if is_signal {
            match SignalWithParens::parse(&attr.tokens) {
                Err(error) => {
                    proof {
                        lemma_signal_error_stays(item@.attrs, i + 1, item@.attrs.len() as int);
                    }
                    return Err(Error::Signal { attribute: i, error });
                },
                Ok(s) => {
                    let ghost before = signals.deep_view();
                    let ghost s_view = s.signal@;
                    signals.push(s.signal);
                    assert(signals.deep_view() =~= before.push(s_view));
                },
            }
        } else {
            let ghost before = kept.deep_view();
            kept.push(attr.clone());
            assert(kept.deep_view() =~= before.push(attr@));
        }
        i += 1;
    }
    item.attrs = kept;
    Ok(signals)
}

} // verus!
