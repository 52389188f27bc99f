//! The class declaration: attributes, name, optional parent, and the items in their order.

use crate::compiler::signals::SignalDecl;
use crate::compiler::signals::SignalDeclView;
use crate::error::Found;
use crate::error::FoundView;
use crate::error::ParseError;
use crate::error::ParseErrorKind;
use crate::error::ParseErrorView;
use crate::parser::cursor::end;
use crate::parser::cursor::expect_end;
use crate::parser::cursor::expect_group;
use crate::parser::cursor::grouped;
use crate::parser::cursor::peek_group;
use crate::parser::cursor::expect_ident;
use crate::parser::cursor::expect_type;
use crate::parser::cursor::expect_word;
use crate::parser::cursor::fail;
use crate::parser::cursor::ident;
use crate::parser::cursor::no_longer;
use crate::parser::cursor::parsed_as;
use crate::parser::cursor::peek_word;
use crate::parser::cursor::prefixed;
use crate::parser::cursor::starts_with_group;
use crate::parser::cursor::starts_with_word;
use crate::parser::cursor::ty;
use crate::parser::cursor::word;
use crate::parser::cursor::Parsed;
use crate::parser::gdscript_items::items;
use crate::parser::gdscript_items::parse_items;
use crate::parser::gdscript_items::GdScriptItem;
use crate::parser::gdscript_items::GdScriptItemView;
use crate::parser::gdscript_var::GdScriptVar;
use crate::parser::gdscript_var::GdScriptVarView;
use crate::parser::cursor::invisible_group;
use crate::tokens::lex;
use crate::tokens::lexed;
use crate::tokens::plain;
use crate::tokens::outer_attrs_prefix;
use crate::tokens::Delim;
use crate::tokens::TokenView;
use crate::tokens::Tokens;
use vstd::prelude::*;
use vstd::string::StringExecFns;

verus! {

/// A class declaration.
#[derive(Debug)]
pub struct GdScriptClass {
    /// The attributes written above the class, each as text.
    pub attributes: Vec<String>,
    pub name: String,
    /// The parent type, where the declaration names one.
    pub extends: Option<String>,
    /// Properties and signals in the order of their declaration.
    pub items: Vec<GdScriptItem>,
}

/// The mathematical model of [`GdScriptClass`].
pub struct GdScriptClassView {
    pub attributes: Seq<Seq<char>>,
    pub name: Seq<char>,
    pub extends: Option<Seq<char>>,
    pub items: Seq<GdScriptItemView>,
}

impl View for GdScriptClass {
    type V = GdScriptClassView;

    open spec fn view(&self) -> GdScriptClassView {
        GdScriptClassView {
            attributes: self.attributes.deep_view(),
            name: self.name@,
            extends: self.extends.deep_view(),
            items: self.items.deep_view(),
        }
    }
}

/// The properties among the items, in the order of the items.
pub open spec fn vars_of(items: Seq<GdScriptItemView>) -> Seq<GdScriptVarView>
    decreases items.len(),
{
    if items.len() == 0 {
        Seq::empty()
    } else {
        match items.last() {
            GdScriptItemView::Variable(v) => vars_of(items.drop_last()).push(v),
            GdScriptItemView::Signal(_) => vars_of(items.drop_last()),
        }
    }
}

/// The signals among the items, in the order of the items.
pub open spec fn signals_of(items: Seq<GdScriptItemView>) -> Seq<SignalDeclView>
    decreases items.len(),
{
    if items.len() == 0 {
        Seq::empty()
    } else {
        match items.last() {
            GdScriptItemView::Variable(_) => signals_of(items.drop_last()),
            GdScriptItemView::Signal(s) => signals_of(items.drop_last()).push(s),
        }
    }
}

/// The parent type of a class that names none.
pub open spec fn default_parent() -> Seq<char> {
    "gdnative::prelude::Object"@
}

/// The parent type of a class.
pub open spec fn parent_of(extends: Option<Seq<char>>) -> Seq<char> {
    match extends {
        Some(parent) => parent,
        None => default_parent(),
    }
}

/// Rule: `['extends' TYPE]`.
pub open spec fn extends_clause(toks: Seq<TokenView>) -> Parsed<Option<Seq<char>>> {
    if starts_with_word(toks, "extends"@) {
        match ty(toks.skip(1)) {
            Err(e) => Err(e),
            Ok((parent, rest)) => Ok((Some(parent), rest)),
        }
    } else {
        Ok((None, toks))
    }
}

/// Rule: the items of a class, either between braces that end the declaration or, without
/// braces, up to the end of the input.
pub open spec fn class_body(toks: Seq<TokenView>) -> Result<
    Seq<GdScriptItemView>,
    ParseErrorView,
> {
    if starts_with_group(toks, Delim::Brace) {
        match grouped(toks, Delim::Brace, ParseErrorKind::ExpectedVarOrSignal) {
            Err(e) => Err(e),
            Ok((content, rest)) => match items(content) {
                Err(e) => Err(e),
                Ok(values) => match end(rest) {
                    Err(e) => Err(e),
                    Ok(_) => Ok(values),
                },
            },
        }
    } else {
        items(toks)
    }
}

/// Rule: `[attributes] 'class' IDENT ['extends' TYPE] '{' item* '}'`; the braces may be
/// left out.
pub open spec fn class_decl(toks: Seq<TokenView>) -> Result<GdScriptClassView, ParseErrorView> {
    match prefixed(outer_attrs_prefix(toks), toks, ParseErrorKind::InvalidAttribute) {
        Err(e) => Err(e),
        Ok((attributes, t1)) => match word(t1, "class"@, ParseErrorKind::ExpectedClass) {
            Err(e) => Err(e),
            Ok((_, t2)) => match ident(t2) {
                Err(e) => Err(e),
                Ok((name, t3)) => match extends_clause(t3) {
                    Err(e) => Err(e),
                    Ok((extends, t4)) => match class_body(t4) {
                        Err(e) => Err(e),
                        Ok(items) => Ok(GdScriptClassView { attributes, name, extends, items }),
                    },
                },
            },
        },
    }
}

/// Rule: a class declaration that fills a sequence of token trees of which none is a
/// group without brackets.
pub open spec fn class_of_tokens(toks: Seq<TokenView>) -> Result<GdScriptClassView, ParseErrorView> {
    if plain(toks) {
        class_decl(toks)
    } else {
        Err(invisible_group())
    }
}

/// Rule: a class declaration, read from text.
pub open spec fn class_of_text(src: Seq<char>) -> Result<GdScriptClassView, ParseErrorView> {
    match lexed(src) {
        None => Err(ParseErrorView { kind: ParseErrorKind::InvalidTokens, found: FoundView::End }),
        Some(toks) => class_of_tokens(toks),
    }
}

/// A result of reading a class agrees with the model of the rule.
pub open spec fn class_parsed_as(
    r: Result<GdScriptClass, ParseError>,
    model: Result<GdScriptClassView, ParseErrorView>,
) -> bool {
    match r {
        Ok(class) => model == Ok::<GdScriptClassView, ParseErrorView>(class@),
        Err(e) => model == Err::<GdScriptClassView, ParseErrorView>(e@),
    }
}

/// Reads an optional `extends` clause.
pub fn parse_extends(input: &Tokens) -> (r: Result<(Option<String>, Tokens), ParseError>)
    ensures
        parsed_as(r, extends_clause(input@)),
        no_longer(r, *input),
{
    if peek_word(input, "extends") {
        let (_, behind) = expect_word(input, "extends", ParseErrorKind::ExpectedExtends)?;
        let (parent, rest) = expect_type(&behind)?;
        Ok((Some(parent), rest))
    } else {
        Ok((None, input.clone()))
    }
}

/// Reads the items of a class, with or without braces around them.
pub fn parse_class_body(input: &Tokens) -> (r: Result<Vec<GdScriptItem>, ParseError>)
    ensures
        match r {
            Ok(values) => class_body(input@) == Ok::<
                Seq<GdScriptItemView>,
                ParseErrorView,
            >(values.deep_view()),
            Err(e) => class_body(input@) == Err::<
                Seq<GdScriptItemView>,
                ParseErrorView,
            >(e@),
        },
{
    if peek_group(input, Delim::Brace) {
        let (content, rest) = expect_group(
            input,
            Delim::Brace,
            ParseErrorKind::ExpectedVarOrSignal,
        )?;
        let values = parse_items(&content)?;
        expect_end(&rest)?;
        Ok(values)
    } else {
        parse_items(input)
    }
}

impl GdScriptClass {
    /// The parent type: the one that the declaration names, or the engine's base object
    /// type where it names none.
    pub fn parent(&self) -> (r: String)
        ensures
            r@ == parent_of(self@.extends),
    {
        match &self.extends {
            Some(parent) => parent.clone(),
            None => String::from_str("gdnative::prelude::Object"),
        }
    }

    /// The properties of the class, in the order of their declaration. The items stay as
    /// they are.
    pub fn vars(&self) -> (r: Vec<GdScriptVar>)
        ensures
            r.deep_view() == vars_of(self@.items),
    {
        let mut out: Vec<GdScriptVar> = Vec::new();
        let mut i: usize = 0;
        assert(self@.items.take(0) =~= Seq::<GdScriptItemView>::empty());
        assert(out.deep_view() =~= Seq::<GdScriptVarView>::empty());
        while i < self.items.len()
            invariant
                i <= self.items.len(),
                out.deep_view() == vars_of(self@.items.take(i as int)),
            decreases self.items.len() - i,
        {
            let ghost before = out.deep_view();
            assert(self@.items.take(i + 1).drop_last() =~= self@.items.take(i as int));
            assert(self@.items.take(i + 1).last() == self.items@[i as int]@);
            match &self.items[i] {
                GdScriptItem::Variable(v) => {
                    out.push(v.clone());
                    assert(out.deep_view() =~= before.push(v@));
                },
                GdScriptItem::Signal(_) => {},
            }
            i += 1;
        }
        assert(self@.items.take(i as int) =~= self@.items);
        out
    }

    /// The signals of the class, in the order of their declaration. The items stay as
    /// they are.
    pub fn signals(&self) -> (r: Vec<SignalDecl>)
        ensures
            r.deep_view() == signals_of(self@.items),
    {
        let mut out: Vec<SignalDecl> = Vec::new();
        let mut i: usize = 0;
        assert(self@.items.take(0) =~= Seq::<GdScriptItemView>::empty());
        assert(out.deep_view() =~= Seq::<SignalDeclView>::empty());
        while i < self.items.len()
            invariant
                i <= self.items.len(),
                out.deep_view() == signals_of(self@.items.take(i as int)),
            decreases self.items.len() - i,
        {
            let ghost before = out.deep_view();
            assert(self@.items.take(i + 1).drop_last() =~= self@.items.take(i as int));
            assert(self@.items.take(i + 1).last() == self.items@[i as int]@);
            match &self.items[i] {
                GdScriptItem::Variable(_) => {},
                GdScriptItem::Signal(s) => {
                    out.push(s.clone());
                    assert(out.deep_view() =~= before.push(s@));
                },
            }
            i += 1;
        }
        assert(self@.items.take(i as int) =~= self@.items);
        out
    }

    /// Reads a class declaration that fills the whole stream.
    pub fn parse(input: &Tokens) -> (r: Result<GdScriptClass, ParseError>)
        ensures
            class_parsed_as(r, class_decl(input@)),
    {
        let (attributes, t1) = match input.take_outer_attrs() {
            Some(pair) => pair,
            None => {
                return Err(fail(ParseErrorKind::InvalidAttribute, input));
            },
        };
        let (_, t2) = expect_word(&t1, "class", ParseErrorKind::ExpectedClass)?;
        let (name, t3) = expect_ident(&t2)?;
        let (extends, t4) = parse_extends(&t3)?;
        let items = parse_class_body(&t4)?;
        Ok(GdScriptClass { attributes, name, extends, items })
    }
}

/// Reads a class declaration from text.
///
/// Text that is no sequence of tokens is refused with `InvalidTokens`; every other error
/// is the one of the rule that the tokens break first. The tokens of a text hold no group
/// without brackets as far as `proc_macro2` is known to lex; the reader tests it and
/// does not rely on it.
pub fn parse_class(src: &str) -> (r: Result<GdScriptClass, ParseError>)
    ensures
        class_parsed_as(r, class_of_text(src@)),
{
    match lex(src) {
        None => Err(ParseError { kind: ParseErrorKind::InvalidTokens, found: Found::End }),
        Some(stream) => match Tokens::new(stream) {
            Some(tokens) => GdScriptClass::parse(&tokens),
            None => Err(
                ParseError {
                    kind: ParseErrorKind::InvisibleGroup,
                    found: Found::Group(Delim::Invisible),
                },
            ),
        },
    }
}

} // verus!
