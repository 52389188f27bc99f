//! What can go wrong while a class declaration is compiled, and how it is reported.

use crate::tokens::char_text;
use crate::tokens::Delim;
use vstd::prelude::*;
use vstd::string::StringExecFns;

verus! {

/// The rule of the grammar that the input broke.
#[derive(Clone, Copy, Debug, PartialEq, Eq, Structural)]
pub enum ParseErrorKind {
    /// The text is no sequence of tokens.
    InvalidTokens,
    ExpectedClass,
    ExpectedExtends,
    ExpectedVar,
    ExpectedVarOrSignal,
    ExpectedExportType,
    ExpectedIdentifier,
    ExpectedColon,
    ExpectedEquals,
    ExpectedComma,
    ExpectedParentheses,
    ExpectedType,
    ExpectedExpression,
    ExpectedPath,
    ExpectedLiteral,
    ExpectedStringLiteral,
    /// The first bound of a range is no number.
    ExpectedNumber,
    /// The second bound of a range is not of the kind of the first.
    ExpectedSameKind,
    InvalidAttribute,
    UnexpectedToken,
    /// A group without brackets, as the expansion of a macro leaves it. No text is known
    /// to lex to one; the kind is there because the reader tests for it all the same.
    InvisibleGroup,
}

/// The token at which parsing stopped.
#[derive(Debug)]
pub enum Found {
    /// The input ended.
    End,
    Ident(String),
    Punct(char),
    Literal(String),
    Group(Delim),
}

/// The mathematical model of [`Found`].
pub enum FoundView {
    End,
    Ident(Seq<char>),
    Punct(char),
    Literal(Seq<char>),
    Group(Delim),
}

impl View for Found {
    type V = FoundView;

    open spec fn view(&self) -> FoundView {
        match *self {
            Found::End => FoundView::End,
            Found::Ident(s) => FoundView::Ident(s@),
            Found::Punct(c) => FoundView::Punct(c),
            Found::Literal(s) => FoundView::Literal(s@),
            Found::Group(d) => FoundView::Group(d),
        }
    }
}

/// A grammar error: the rule that was broken and the token that broke it.
#[derive(Debug)]
pub struct ParseError {
    pub kind: ParseErrorKind,
    pub found: Found,
}

/// The mathematical model of [`ParseError`].
pub struct ParseErrorView {
    pub kind: ParseErrorKind,
    pub found: FoundView,
}

impl View for ParseError {
    type V = ParseErrorView;

    open spec fn view(&self) -> ParseErrorView {
        ParseErrorView { kind: self.kind, found: self.found@ }
    }
}

/// The text that states a broken rule.
pub open spec fn kind_message(kind: ParseErrorKind) -> Seq<char> {
    match kind {
        ParseErrorKind::InvalidTokens => "cannot split the input into tokens"@,
        ParseErrorKind::ExpectedClass => "expected `class`"@,
        ParseErrorKind::ExpectedExtends => "expected `extends`"@,
        ParseErrorKind::ExpectedVar => "expected `var`"@,
        ParseErrorKind::ExpectedVarOrSignal => "Expected either a var or a signal"@,
        ParseErrorKind::ExpectedExportType => "Expected a valid export type"@,
        ParseErrorKind::ExpectedIdentifier => "expected identifier"@,
        ParseErrorKind::ExpectedColon => "expected `:`"@,
        ParseErrorKind::ExpectedEquals => "expected `=`"@,
        ParseErrorKind::ExpectedComma => "expected `,`"@,
        ParseErrorKind::ExpectedParentheses => "expected parentheses"@,
        ParseErrorKind::ExpectedType => "expected type"@,
        ParseErrorKind::ExpectedExpression => "expected expression"@,
        ParseErrorKind::ExpectedPath => "expected path"@,
        ParseErrorKind::ExpectedLiteral => "expected literal"@,
        ParseErrorKind::ExpectedStringLiteral => "expected string literal"@,
        ParseErrorKind::ExpectedNumber => "expected a number as the bound of a range"@,
        ParseErrorKind::ExpectedSameKind =>
            "expected a bound of the same kind as the first bound of the range"@,
        ParseErrorKind::InvalidAttribute => "expected attribute"@,
        ParseErrorKind::UnexpectedToken => "unexpected token"@,
        ParseErrorKind::InvisibleGroup => "cannot read a group without brackets"@,
    }
}

impl ParseErrorKind {
    /// The text that states the broken rule.
    pub fn message(&self) -> (r: String)
        ensures
            r@ == kind_message(*self),
    {
        match self {
            ParseErrorKind::InvalidTokens => String::from_str("cannot split the input into tokens"),
            ParseErrorKind::ExpectedClass => String::from_str("expected `class`"),
            ParseErrorKind::ExpectedExtends => String::from_str("expected `extends`"),
            ParseErrorKind::ExpectedVar => String::from_str("expected `var`"),
            ParseErrorKind::ExpectedVarOrSignal => String::from_str(
                "Expected either a var or a signal",
            ),
            ParseErrorKind::ExpectedExportType => String::from_str("Expected a valid export type"),
            ParseErrorKind::ExpectedIdentifier => String::from_str("expected identifier"),
            ParseErrorKind::ExpectedColon => String::from_str("expected `:`"),
            ParseErrorKind::ExpectedEquals => String::from_str("expected `=`"),
            ParseErrorKind::ExpectedComma => String::from_str("expected `,`"),
            ParseErrorKind::ExpectedParentheses => String::from_str("expected parentheses"),
            ParseErrorKind::ExpectedType => String::from_str("expected type"),
            ParseErrorKind::ExpectedExpression => String::from_str("expected expression"),
            ParseErrorKind::ExpectedPath => String::from_str("expected path"),
            ParseErrorKind::ExpectedLiteral => String::from_str("expected literal"),
            ParseErrorKind::ExpectedStringLiteral => String::from_str("expected string literal"),
            ParseErrorKind::ExpectedNumber => String::from_str(
                "expected a number as the bound of a range",
            ),
            ParseErrorKind::ExpectedSameKind => String::from_str(
                "expected a bound of the same kind as the first bound of the range",
            ),
            ParseErrorKind::InvalidAttribute => String::from_str("expected attribute"),
            ParseErrorKind::UnexpectedToken => String::from_str("unexpected token"),
            ParseErrorKind::InvisibleGroup => String::from_str(
                "cannot read a group without brackets",
            ),
        }
    }
}

/// The words for a bracket.
pub open spec fn delim_name(delim: Delim) -> Seq<char> {
    match delim {
        Delim::Paren => "parentheses"@,
        Delim::Brace => "braces"@,
        Delim::Bracket => "brackets"@,
        Delim::Invisible => "a group without brackets"@,
    }
}

/// The words for the token at which parsing stopped.
pub open spec fn found_text(found: FoundView) -> Seq<char> {
    match found {
        FoundView::End => "the end of the input"@,
        FoundView::Ident(name) => "`"@ + name + "`"@,
        FoundView::Punct(c) => "`"@ + seq![c] + "`"@,
        FoundView::Literal(text) => "`"@ + text + "`"@,
        FoundView::Group(delim) => delim_name(delim),
    }
}

/// The report of a grammar error: the broken rule, and the token that broke it.
pub open spec fn parse_report(e: ParseErrorView) -> Seq<char> {
    kind_message(e.kind) + ", found "@ + found_text(e.found)
}

impl Found {
    /// The words for the token.
    pub fn text(&self) -> (r: String)
        ensures
            r@ == found_text(self@),
    {
        match self {
            Found::End => String::from_str("the end of the input"),
            Found::Ident(name) => {
                let mut out = String::from_str("`");
                out.append(name.as_str());
                out.append("`");
                out
            },
            Found::Punct(c) => {
                let mut out = String::from_str("`");
                out.append(char_text(*c).as_str());
                out.append("`");
                out
            },
            Found::Literal(text) => {
                let mut out = String::from_str("`");
                out.append(text.as_str());
                out.append("`");
                out
            },
            Found::Group(delim) => match delim {
                Delim::Paren => String::from_str("parentheses"),
                Delim::Brace => String::from_str("braces"),
                Delim::Bracket => String::from_str("brackets"),
                Delim::Invisible => String::from_str("a group without brackets"),
            },
        }
    }
}

impl ParseError {
    /// The report of the error: the broken rule, and the token that broke it.
    pub fn report(&self) -> (r: String)
        ensures
            r@ == parse_report(self@),
    {
        let mut out = self.kind.message();
        out.append(", found ");
        out.append(self.found.text().as_str());
        out
    }
}

/// The rule of code generation that a class broke.
#[derive(Clone, Copy, Debug, PartialEq, Eq, Structural)]
pub enum GenerationError {
    /// A range hint on a property whose type is no number.
    RangeNotANumber,
    /// A range hint with fewer than two bounds.
    RangeWithoutBounds,
    /// A range hint whose first bound is no number.
    BoundNotANumber,
    /// A range hint whose second bound is not of the kind of the first.
    BoundsOfTwoKinds,
    /// The signal at the given position has a name that gives no name for its constant.
    SignalConstant { index: usize },
    /// A string in a range hint, at the given position, that is no clamp marker.
    UnexpectedString { index: usize },
    /// A literal in a range hint, at the given position, that is neither number nor string.
    UnexpectedItem { index: usize },
}

/// The text that states a broken rule of code generation.
pub open spec fn generation_message(e: GenerationError) -> Seq<char> {
    match e {
        GenerationError::RangeNotANumber => "Export range must be a number (int, float)"@,
        GenerationError::RangeWithoutBounds => "Export range must contain at least a min and a max"@,
        GenerationError::BoundNotANumber => "The bounds of an export range must be numbers"@,
        GenerationError::BoundsOfTwoKinds =>
            "The bounds of an export range must be of one kind (both int, or both float)"@,
        GenerationError::SignalConstant { .. } =>
            "The name of a signal must give an identifier in upper case for its constant"@,
        GenerationError::UnexpectedString { .. } =>
            "Unexpected string literal. Expected \"or_lesser\" or \"or_greater\""@,
        GenerationError::UnexpectedItem { .. } => "Unexpected item in range"@,
    }
}

impl GenerationError {
    /// The text that states the broken rule.
    pub fn message(&self) -> (r: String)
        ensures
            r@ == generation_message(*self),
    {
        match self {
            GenerationError::RangeNotANumber => String::from_str(
                "Export range must be a number (int, float)",
            ),
            GenerationError::RangeWithoutBounds => String::from_str(
                "Export range must contain at least a min and a max",
            ),
            GenerationError::BoundNotANumber => String::from_str(
                "The bounds of an export range must be numbers",
            ),
            GenerationError::BoundsOfTwoKinds => String::from_str(
                "The bounds of an export range must be of one kind (both int, or both float)",
            ),
            GenerationError::SignalConstant { .. } => String::from_str(
                "The name of a signal must give an identifier in upper case for its constant",
            ),
            GenerationError::UnexpectedString { .. } => String::from_str(
                "Unexpected string literal. Expected \"or_lesser\" or \"or_greater\"",
            ),
            GenerationError::UnexpectedItem { .. } => String::from_str("Unexpected item in range"),
        }
    }
}

} // verus!

verus! {

/// Why a field gave no property.
#[derive(Debug)]
pub enum PropertyError {
    /// The field has no name.
    Unnamed,
    /// The annotation at the given position breaks the grammar.
    Annotation { attribute: usize, error: ParseError },
}

/// The mathematical model of [`PropertyError`].
pub enum PropertyErrorView {
    Unnamed,
    Annotation { attribute: usize, error: ParseErrorView },
}

impl View for PropertyError {
    type V = PropertyErrorView;

    open spec fn view(&self) -> PropertyErrorView {
        match *self {
            PropertyError::Unnamed => PropertyErrorView::Unnamed,
            PropertyError::Annotation { attribute, error } => PropertyErrorView::Annotation {
                attribute,
                error: error@,
            },
        }
    }
}

/// Why a class declaration gave no code.
#[derive(Debug)]
pub enum Error {
    /// The declaration breaks the grammar.
    Parse(ParseError),
    /// The class breaks a rule of code generation.
    Generation(GenerationError),
    /// The field at the given position gives no property.
    Property { field: usize, reason: PropertyError },
    /// The signal annotation at the given position among the attributes of the struct
    /// breaks the grammar.
    Signal { attribute: usize, error: ParseError },
}

/// The mathematical model of [`Error`].
pub enum ErrorView {
    Parse(ParseErrorView),
    Generation(GenerationError),
    Property { field: usize, reason: PropertyErrorView },
    Signal { attribute: usize, error: ParseErrorView },
}

impl View for Error {
    type V = ErrorView;

    open spec fn view(&self) -> ErrorView {
        match *self {
            Error::Parse(e) => ErrorView::Parse(e@),
            Error::Generation(e) => ErrorView::Generation(e),
            Error::Property { field, reason } => ErrorView::Property { field, reason: reason@ },
            Error::Signal { attribute, error } => ErrorView::Signal { attribute, error: error@ },
        }
    }
}

/// The text that states why a class declaration gave no code.
pub open spec fn error_message(e: ErrorView) -> Seq<char> {
    match e {
        ErrorView::Parse(e) => kind_message(e.kind),
        ErrorView::Generation(e) => generation_message(e),
        ErrorView::Property { reason, .. } => match reason {
            PropertyErrorView::Unnamed => "Properties must be on named field"@,
            PropertyErrorView::Annotation { error, .. } => kind_message(error.kind),
        },
        ErrorView::Signal { error, .. } => kind_message(error.kind),
    }
}

impl Error {
    /// The text that states the broken rule.
    pub fn message(&self) -> (r: String)
        ensures
            r@ == error_message(self@),
    {
        match self {
            Error::Parse(e) => e.kind.message(),
            Error::Generation(e) => e.message(),
            Error::Property { reason, .. } => match reason {
                PropertyError::Unnamed => String::from_str("Properties must be on named field"),
                PropertyError::Annotation { error, .. } => error.kind.message(),
            },
            Error::Signal { error, .. } => error.kind.message(),
        }
    }
}

} // verus!
