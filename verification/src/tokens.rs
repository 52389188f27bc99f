//! The token layer: lexed streams of token trees, and what the grammar asks of them.
//!
//! Lexing and the grammar of identifiers, literals, types, paths and expressions belong to
//! `proc_macro2` and `syn`. Everything in this module that is marked `external_body` calls
//! one of their functions; its contract is believed, not proved.
//!
//! The contracts describe `proc_macro2` at work on its own. Inside a running procedural
//! macro it would hand lexing and printing to the compiler, so every function here that
//! reaches it switches it to its own implementation first (`proc_macro2::fallback::force`,
//! a switch for the whole process, which stays set). A stream comes into this library
//! as text only and is lexed here: no stream of the compiler is ever read. A procedural
//! macro that goes on to work with streams of the compiler calls
//! `proc_macro2::fallback::unforce` when this library has returned.

use proc_macro2::fallback::force;
use proc_macro2::Delimiter;
use proc_macro2::Spacing;
use proc_macro2::TokenStream;
use proc_macro2::TokenTree;
use quote::ToTokens;
use std::str::FromStr;
use syn::parse::ParseStream;
use syn::parse::Parser;
use vstd::prelude::*;

verus! {

#[verifier::external_type_specification]
#[verifier::external_body]
pub struct ExTokenStream(proc_macro2::TokenStream);

/// The bracket that encloses a group of tokens.
#[derive(Clone, Copy, Debug, PartialEq, Eq, Structural)]
pub enum Delim {
    Paren,
    Brace,
    Bracket,
    Invisible,
}

/// The mathematical model of a token tree.
///
/// A punctuation character carries whether it is joined to the character after it
/// (`true` for the first `:` of `::`).
pub enum TokenView {
    Ident(Seq<char>),
    Punct(char, bool),
    Literal(Seq<char>),
    Group(Delim, Seq<TokenView>),
}

/// The token trees that a stream holds, in order.
pub uninterp spec fn stream_tokens(ts: TokenStream) -> Seq<TokenView>;

/// One token tree, as the grammar sees it. A group keeps its content as a stream.
#[derive(Debug)]
pub enum Token {
    Ident(String),
    Punct(char, bool),
    Literal(String),
    Group(Delim, TokenStream),
}

impl View for Token {
    type V = TokenView;

    open spec fn view(&self) -> TokenView {
        match *self {
            Token::Ident(s) => TokenView::Ident(s@),
            Token::Punct(c, joint) => TokenView::Punct(c, joint),
            Token::Literal(s) => TokenView::Literal(s@),
            Token::Group(d, ts) => TokenView::Group(d, stream_tokens(ts)),
        }
    }
}

/// The class of a literal.
#[derive(Clone, Copy, Debug, PartialEq, Eq, Structural)]
pub enum LitKind {
    Str,
    Int,
    Float,
    Other,
}

/// A literal: its class, its text as written, and for a string literal the text it denotes
/// (empty for the other classes).
#[derive(Debug)]
pub struct Lit {
    pub kind: LitKind,
    pub token: String,
    pub value: String,
}

/// The mathematical model of a literal.
pub struct LitView {
    pub kind: LitKind,
    pub token: Seq<char>,
    pub value: Seq<char>,
}

impl View for Lit {
    type V = LitView;

    open spec fn view(&self) -> LitView {
        LitView { kind: self.kind, token: self.token@, value: self.value@ }
    }
}

impl DeepView for Lit {
    type V = LitView;

    open spec fn deep_view(&self) -> LitView {
        self@
    }
}

impl Clone for Lit {
    fn clone(&self) -> (r: Self)
        ensures
            r@ == self@,
    {
        Lit { kind: self.kind, token: self.token.clone(), value: self.value.clone() }
    }
}

/// The token trees that lexing a text gives, where the text lexes.
pub uninterp spec fn lexed(text: Seq<char>) -> Option<Seq<TokenView>>;

/// The type that a token sequence starts with, as text, and the number of token trees it
/// spans; `None` where the sequence starts with no type.
pub uninterp spec fn type_prefix(toks: Seq<TokenView>) -> Option<(Seq<char>, nat)>;

/// The expression that a token sequence starts with, as text, and the number of token
/// trees it spans.
pub uninterp spec fn expr_prefix(toks: Seq<TokenView>) -> Option<(Seq<char>, nat)>;

/// The path expression that a token sequence starts with, as text, and the number of token
/// trees it spans.
pub uninterp spec fn path_prefix(toks: Seq<TokenView>) -> Option<(Seq<char>, nat)>;

/// The literal that a token sequence starts with and the number of token trees it spans.
pub uninterp spec fn lit_prefix(toks: Seq<TokenView>) -> Option<(LitView, nat)>;

/// The outer attributes that a token sequence starts with, each as text, and the number of
/// token trees they span together.
pub uninterp spec fn outer_attrs_prefix(toks: Seq<TokenView>) -> Option<(Seq<Seq<char>>, nat)>;

/// Whether a name may be used as an identifier (reserved words may not).
pub uninterp spec fn ident_accepted(name: Seq<char>) -> bool;

/// What a prefix leaves: the value, and the token trees behind the ones it spans.
pub open spec fn cut<T>(prefix: Option<(T, nat)>, toks: Seq<TokenView>) -> Option<
    (T, Seq<TokenView>),
> {
    match prefix {
        Some((value, n)) => if n <= toks.len() {
            Some((value, toks.skip(n as int)))
        } else {
            None
        },
        None => None,
    }
}

/// No token tree of the sequence is a group without brackets. Such a group comes from the
/// expansion of a macro, never from text, and the grammar does not look into it.
pub open spec fn plain(toks: Seq<TokenView>) -> bool {
    forall|i: int|
        0 <= i < toks.len() ==> !(#[trigger] toks[i] matches TokenView::Group(
            Delim::Invisible,
            _,
        ))
}

/// A split result agrees with its model.
pub open spec fn split_agrees<T: View>(
    r: Option<(T, TokenStream)>,
    model: Option<(T::V, Seq<TokenView>)>,
) -> bool {
    match r {
        Some((value, rest)) => model == Some((value@, stream_tokens(rest))),
        None => model is None,
    }
}

/// Lexes a text into a stream.
///
/// Calls `proc_macro2::fallback::force` and then `TokenStream::from_str`, which so lexes
/// by `proc_macro2`'s own lexer: that gives the same token trees for the same text and
/// fails on text that does not lex (an unclosed bracket or string).
#[verifier::external_body]
pub(crate) fn lex(src: &str) -> (r: Option<TokenStream>)
    ensures
        match r {
            Some(ts) => lexed(src@) == Some(stream_tokens(ts)),
            None => lexed(src@) is None,
        },
{
    force();
    TokenStream::from_str(src).ok()
}

/// Splits off the first token tree of a stream.
///
/// Calls `proc_macro2::fallback::force`, then `TokenStream::into_iter`, takes the first
/// item and collects the others, which under that switch stay as they are.
#[verifier::external_body]
pub(crate) fn split_first(ts: &TokenStream) -> (r: Option<(Token, TokenStream)>)
    ensures
        r is None <==> stream_tokens(*ts).len() == 0,
        r matches Some((t, rest)) ==> t@ == stream_tokens(*ts)[0] && stream_tokens(rest)
            == stream_tokens(*ts).skip(1),
{
    force();
    let mut iter = ts.clone().into_iter();
    let tok = match iter.next()? {
        TokenTree::Ident(i) => Token::Ident(i.to_string()),
        TokenTree::Punct(p) => Token::Punct(p.as_char(), p.spacing() == Spacing::Joint),
        TokenTree::Literal(l) => Token::Literal(l.to_string()),
        TokenTree::Group(g) => match g.delimiter() {
            Delimiter::Parenthesis => Token::Group(Delim::Paren, g.stream()),
            Delimiter::Brace => Token::Group(Delim::Brace, g.stream()),
            Delimiter::Bracket => Token::Group(Delim::Bracket, g.stream()),
            Delimiter::None => Token::Group(Delim::Invisible, g.stream()),
        },
    };
    Some((tok, iter.collect()))
}

/// Copies a stream. Calls `TokenStream::clone`.
#[verifier::external_body]
pub(crate) fn clone_stream(ts: &TokenStream) -> (r: TokenStream)
    ensures
        stream_tokens(r) == stream_tokens(*ts),
{
    ts.clone()
}

/// Parses the type that a stream starts with.
///
/// Calls `proc_macro2::fallback::force`, then `syn::Type::parse`, and hands back the type
/// as `proc_macro2` prints it with the unread rest of the stream: the token trees behind
/// the type. `syn` reads whole token trees, but looks into a group without brackets as
/// if its content stood in the group's place: a stream with such a group at its top is
/// left out.
#[verifier::external_body]
pub(crate) fn split_type(ts: &TokenStream) -> (r: Option<(String, TokenStream)>)
    requires
        plain(stream_tokens(*ts)),
    ensures
        split_agrees(r, cut(type_prefix(stream_tokens(*ts)), stream_tokens(*ts))),
{
    force();
    let parser = |input: ParseStream| {
        Ok::<_, syn::Error>((input.parse::<syn::Type>()?, input.parse::<TokenStream>()?))
    };
    let (ty, rest) = parser.parse2(ts.clone()).ok()?;
    Some((ty.to_token_stream().to_string(), rest))
}

/// Parses the expression that a stream starts with.
///
/// Calls `proc_macro2::fallback::force`, then `syn::Expr::parse`, and hands back the
/// expression as `proc_macro2` prints it with the unread rest of the stream.
#[verifier::external_body]
pub(crate) fn split_expr(ts: &TokenStream) -> (r: Option<(String, TokenStream)>)
    requires
        plain(stream_tokens(*ts)),
    ensures
        split_agrees(r, cut(expr_prefix(stream_tokens(*ts)), stream_tokens(*ts))),
{
    force();
    let parser = |input: ParseStream| {
        Ok::<_, syn::Error>((input.parse::<syn::Expr>()?, input.parse::<TokenStream>()?))
    };
    let (expr, rest) = parser.parse2(ts.clone()).ok()?;
    Some((expr.to_token_stream().to_string(), rest))
}

/// Parses the path expression that a stream starts with.
///
/// Calls `proc_macro2::fallback::force`, then `syn::ExprPath::parse`, and hands back the
/// path as `proc_macro2` prints it with the unread rest of the stream.
#[verifier::external_body]
pub(crate) fn split_path(ts: &TokenStream) -> (r: Option<(String, TokenStream)>)
    requires
        plain(stream_tokens(*ts)),
    ensures
        split_agrees(r, cut(path_prefix(stream_tokens(*ts)), stream_tokens(*ts))),
{
    force();
    let parser = |input: ParseStream| {
        Ok::<_, syn::Error>((input.parse::<syn::ExprPath>()?, input.parse::<TokenStream>()?))
    };
    let (path, rest) = parser.parse2(ts.clone()).ok()?;
    Some((path.to_token_stream().to_string(), rest))
}

/// Parses the literal that a stream starts with.
///
/// Calls `proc_macro2::fallback::force`, then `syn::Lit::parse`, which also reads a minus
/// sign before a number, and hands back the literal's class, its text as `proc_macro2`
/// prints it, the value of a string literal (`LitStr::value`), and the unread rest of
/// the stream.
#[verifier::external_body]
pub(crate) fn split_lit(ts: &TokenStream) -> (r: Option<(Lit, TokenStream)>)
    requires
        plain(stream_tokens(*ts)),
    ensures
        split_agrees(r, cut(lit_prefix(stream_tokens(*ts)), stream_tokens(*ts))),
{
    force();
    let parser = |input: ParseStream| {
        Ok::<_, syn::Error>((input.parse::<syn::Lit>()?, input.parse::<TokenStream>()?))
    };
    let (lit, rest) = parser.parse2(ts.clone()).ok()?;
    let token = lit.to_token_stream().to_string();
    let (kind, value) = match lit {
        syn::Lit::Str(s) => (LitKind::Str, s.value()),
        syn::Lit::Int(_) => (LitKind::Int, String::new()),
        syn::Lit::Float(_) => (LitKind::Float, String::new()),
        _ => (LitKind::Other, String::new()),
    };
    Some((Lit { kind, token, value }, rest))
}

/// Parses the outer attributes (`#[...]`) that a stream starts with.
///
/// Calls `proc_macro2::fallback::force`, then `syn::Attribute::parse_outer`, and hands
/// back each attribute as `proc_macro2` prints it with the unread rest of the stream.
#[verifier::external_body]
pub(crate) fn split_outer_attrs(ts: &TokenStream) -> (r: Option<(Vec<String>, TokenStream)>)
    requires
        plain(stream_tokens(*ts)),
    ensures
        match r {
            Some((attrs, rest)) => cut(outer_attrs_prefix(stream_tokens(*ts)), stream_tokens(*ts))
                == Some((attrs.deep_view(), stream_tokens(rest))),
            None => cut(outer_attrs_prefix(stream_tokens(*ts)), stream_tokens(*ts)) is None,
        },
{
    force();
    let parser = |input: ParseStream| {
        Ok::<_, syn::Error>((syn::Attribute::parse_outer(input)?, input.parse::<TokenStream>()?))
    };
    let (attrs, rest) = parser.parse2(ts.clone()).ok()?;
    Some((attrs.iter().map(|a| a.to_token_stream().to_string()).collect(), rest))
}

/// Whether `syn` takes a name for an identifier.
///
/// Calls `proc_macro2::fallback::force` and then `syn::parse_str::<syn::Ident>`, which
/// lexes the name and refuses the reserved words and `_`.
#[verifier::external_body]
pub(crate) fn accepts_ident(name: &str) -> (r: bool)
    ensures
        r == ident_accepted(name@),
{
    force();
    syn::parse_str::<syn::Ident>(name).is_ok()
}

/// Writes a character as a text of one character. Calls `char::to_string`.
#[verifier::external_body]
pub(crate) fn char_text(c: char) -> (r: String)
    ensures
        r@ == seq![c],
{
    c.to_string()
}

/// Whether two string slices hold the same text.
pub fn str_eq(a: &str, b: &str) -> (r: bool)
    ensures
        r == (a@ == b@),
{
    let left = a.to_owned();
    let right = b.to_owned();
    left == right
}

/// A stream of token trees that the grammar can read: none of its token trees is a group
/// without brackets.
#[derive(Debug)]
pub struct Tokens {
    stream: TokenStream,
}

impl View for Tokens {
    type V = Seq<TokenView>;

    closed spec fn view(&self) -> Seq<TokenView> {
        stream_tokens(self.stream)
    }
}

impl DeepView for Tokens {
    type V = Seq<TokenView>;

    open spec fn deep_view(&self) -> Seq<TokenView> {
        self@
    }
}

impl Clone for Tokens {
    fn clone(&self) -> (r: Self)
        ensures
            r@ == self@,
    {
        proof {
            use_type_invariant(self);
        }
        Tokens { stream: clone_stream(&self.stream) }
    }
}

/// A split result over readable streams agrees with its model.
pub open spec fn taken_as<T: DeepView>(
    r: Option<(T, Tokens)>,
    model: Option<(T::V, Seq<TokenView>)>,
) -> bool {
    match r {
        Some((value, rest)) => model == Some((value.deep_view(), rest@)),
        None => model is None,
    }
}

impl Tokens {
    #[verifier::type_invariant]
    spec fn readable(self) -> bool {
        plain(stream_tokens(self.stream))
    }

    /// Takes a stream that was lexed here, or the content of a group of such a stream,
    /// for reading, where none of its token trees is a group without brackets.
    pub(crate) fn new(stream: TokenStream) -> (r: Option<Tokens>)
        ensures
            r is Some <==> plain(stream_tokens(stream)),
            r matches Some(tokens) ==> tokens@ == stream_tokens(stream),
    {
        let ghost all = stream_tokens(stream);
        let ghost mut done: int = 0;
        let mut cur = clone_stream(&stream);
        loop
            invariant
                all == stream_tokens(stream),
                0 <= done <= all.len(),
                stream_tokens(cur) == all.skip(done),
                forall|i: int|
                    0 <= i < done ==> !(#[trigger] all[i] matches TokenView::Group(
                        Delim::Invisible,
                        _,
                    )),
            decreases all.len() - done,
        {
            match split_first(&cur) {
                None => {
                    return Some(Tokens { stream });
                },
                Some((Token::Group(Delim::Invisible, _), _)) => {
                    assert(all[done] matches TokenView::Group(Delim::Invisible, _));
                    return None;
                },
                Some((_, rest)) => {
                    proof {
                        assert(all.skip(done)[0] == all[done]);
                        assert(all.skip(done).skip(1) == all.skip(done + 1));
                        done = done + 1;
                    }
                    cur = rest;
                },
            }
        }
    }

    /// Lexes a text into a readable stream.
    pub fn lex(src: &str) -> (r: Option<Tokens>)
        ensures
            r is Some <==> lexed(src@) is Some && plain(lexed(src@)->0),
            r matches Some(tokens) ==> lexed(src@) == Some(tokens@),
    {
        match lex(src) {
            Some(stream) => Tokens::new(stream),
            None => None,
        }
    }

    /// A copy of the stream that is read: a stream of `proc_macro2`'s own implementation.
    pub fn stream(&self) -> (r: TokenStream)
        ensures
            stream_tokens(r) == self@,
    {
        clone_stream(&self.stream)
    }

    /// The first token tree of the stream and the stream behind it; nothing where the
    /// stream is empty.
    pub fn first(&self) -> (r: Option<(Token, Tokens)>)
        ensures
            r is None <==> self@.len() == 0,
            r matches Some((t, rest)) ==> t@ == self@[0] && rest@ == self@.skip(1),
    {
        proof {
            use_type_invariant(self);
        }
        match split_first(&self.stream) {
            None => None,
            Some((token, rest)) => Some((token, Tokens { stream: rest })),
        }
    }

    /// Whether the stream is empty.
    pub fn is_empty(&self) -> (r: bool)
        ensures
            r == (self@.len() == 0),
    {
        split_first(&self.stream).is_none()
    }

    /// The type that the stream starts with, as text, and the stream behind it.
    pub fn take_type(&self) -> (r: Option<(String, Tokens)>)
        ensures
            taken_as(r, cut(type_prefix(self@), self@)),
    {
        proof {
            use_type_invariant(self);
        }
        match split_type(&self.stream) {
            None => None,
            Some((text, rest)) => Some((text, Tokens { stream: rest })),
        }
    }

    /// The expression that the stream starts with, as text, and the stream behind it.
    pub fn take_expr(&self) -> (r: Option<(String, Tokens)>)
        ensures
            taken_as(r, cut(expr_prefix(self@), self@)),
    {
        proof {
            use_type_invariant(self);
        }
        match split_expr(&self.stream) {
            None => None,
            Some((text, rest)) => Some((text, Tokens { stream: rest })),
        }
    }

    /// The path expression that the stream starts with, as text, and the stream behind
    /// it.
    pub fn take_path(&self) -> (r: Option<(String, Tokens)>)
        ensures
            taken_as(r, cut(path_prefix(self@), self@)),
    {
        proof {
            use_type_invariant(self);
        }
        match split_path(&self.stream) {
            None => None,
            Some((text, rest)) => Some((text, Tokens { stream: rest })),
        }
    }

    /// The literal that the stream starts with and the stream behind it.
    pub fn take_lit(&self) -> (r: Option<(Lit, Tokens)>)
        ensures
            taken_as(r, cut(lit_prefix(self@), self@)),
    {
        proof {
            use_type_invariant(self);
        }
        match split_lit(&self.stream) {
            None => None,
            Some((value, rest)) => Some((value, Tokens { stream: rest })),
        }
    }

    /// The outer attributes that the stream starts with, each as text, and the stream
    /// behind them.
    pub fn take_outer_attrs(&self) -> (r: Option<(Vec<String>, Tokens)>)
        ensures
            taken_as(r, cut(outer_attrs_prefix(self@), self@)),
    {
        proof {
            use_type_invariant(self);
        }
        match split_outer_attrs(&self.stream) {
            None => None,
            Some((attrs, rest)) => Some((attrs, Tokens { stream: rest })),
        }
    }
}

} // verus!
