//! Property declarations: an optional export hint, then `var name: type = default`.

use crate::compiler::properties::bounds_fault;
use crate::compiler::properties::check_bounds;
use crate::compiler::properties::well_bounded;
use crate::compiler::properties::ExportEnum;
use crate::compiler::properties::ExportExpRange;
use crate::compiler::properties::ExportFile;
use crate::compiler::properties::ExportFlags;
use crate::compiler::properties::ExportGlobalFile;
use crate::compiler::properties::ExportNodePath;
use crate::compiler::properties::ExportRange;
use crate::compiler::properties::ExportType;
use crate::compiler::properties::ExportTypeView;
use crate::error::Found;
use crate::error::FoundView;
use crate::error::ParseError;
use crate::error::ParseErrorKind;
use crate::error::ParseErrorView;
use crate::parser::cursor::end;
use crate::parser::cursor::expect_end;
use crate::parser::cursor::expect_expr;
use crate::parser::cursor::expect_ident;
use crate::parser::cursor::expect_parenthesized;
use crate::parser::cursor::expect_punct;
use crate::parser::cursor::expect_str_lit;
use crate::parser::cursor::expect_type;
use crate::parser::cursor::expect_word;
use crate::parser::cursor::expr;
use crate::parser::cursor::fail;
use crate::parser::cursor::fail_at;
use crate::parser::cursor::ident;
use crate::parser::cursor::no_longer;
use crate::parser::cursor::parenthesized;
use crate::parser::cursor::parsed_as;
use crate::parser::cursor::peek_group;
use crate::parser::cursor::peek_punct;
use crate::parser::cursor::peek_word;
use crate::parser::cursor::punct;
use crate::parser::cursor::starts_with_group;
use crate::parser::cursor::starts_with_punct;
use crate::parser::cursor::starts_with_word;
use crate::parser::cursor::str_lit;
use crate::parser::cursor::ty;
use crate::parser::cursor::word;
use crate::parser::cursor::Parsed;
use crate::parser::lists::lits;
use crate::parser::lists::parse_lits;
use crate::parser::lists::parse_types;
use crate::parser::lists::types;
use crate::tokens::str_eq;
use crate::tokens::Delim;
use crate::tokens::Lit;
use crate::tokens::LitView;
use crate::tokens::Token;
use crate::tokens::TokenView;
use crate::tokens::Tokens;
use vstd::prelude::*;

verus! {

/// Rule: a parenthesized, comma-separated list of literals.
pub open spec fn lit_list(toks: Seq<TokenView>, strings_only: bool) -> Parsed<Seq<LitView>> {
    match parenthesized(toks) {
        Err(e) => Err(e),
        Ok((content, rest)) => match lits(content, strings_only) {
            Err(e) => Err(e),
            Ok(values) => Ok((values, rest)),
        },
    }
}

/// Rule: the arguments of a range: a parenthesized, comma-separated list of literals of
/// which the first is a number and the second is of the kind of the first. A bound that
/// breaks this is the token of the error.
pub open spec fn range_list(toks: Seq<TokenView>) -> Parsed<Seq<LitView>> {
    match lit_list(toks, false) {
        Err(e) => Err(e),
        Ok((values, rest)) => match bounds_fault(values) {
            Some(e) => Err(e),
            None => Ok((values, rest)),
        },
    }
}

/// Rule: a parenthesized, comma-separated list of types.
pub open spec fn type_list(toks: Seq<TokenView>) -> Parsed<Seq<Seq<char>>> {
    match parenthesized(toks) {
        Err(e) => Err(e),
        Ok((content, rest)) => match types(content) {
            Err(e) => Err(e),
            Ok(values) => Ok((values, rest)),
        },
    }
}

/// Rule: an optional parenthesized string literal, alone between its parentheses.
pub open spec fn filter(toks: Seq<TokenView>) -> Parsed<Option<LitView>> {
    if starts_with_group(toks, Delim::Paren) {
        match parenthesized(toks) {
            Err(e) => Err(e),
            Ok((content, rest)) => match str_lit(content) {
                Err(e) => Err(e),
                Ok((value, inner_rest)) => match end(inner_rest) {
                    Err(e) => Err(e),
                    Ok(_) => Ok((Some(value), rest)),
                },
            },
        }
    } else {
        Ok((None, toks))
    }
}

/// Rule: the export hint that the word `w` names, with its arguments read from `after`.
pub open spec fn hint_for_word(w: Seq<char>, after: Seq<TokenView>) -> Parsed<ExportTypeView> {
    if w == "no_export"@ {
        Ok((ExportTypeView::NoExport, after))
    } else if w == "export"@ {
        Ok((ExportTypeView::Export, after))
    } else if w == "export_range"@ {
        match range_list(after) {
            Err(e) => Err(e),
            Ok((values, rest)) => Ok((ExportTypeView::ExportRange(values), rest)),
        }
    } else if w == "export_exp_range"@ {
        match range_list(after) {
            Err(e) => Err(e),
            Ok((values, rest)) => Ok((ExportTypeView::ExportExpRange(values), rest)),
        }
    } else if w == "export_enum"@ {
        match lit_list(after, true) {
            Err(e) => Err(e),
            Ok((values, rest)) => Ok((ExportTypeView::ExportEnum(values), rest)),
        }
    } else if w == "export_file"@ {
        match filter(after) {
            Err(e) => Err(e),
            Ok((value, rest)) => Ok((ExportTypeView::ExportFile(value), rest)),
        }
    } else if w == "export_dir"@ {
        Ok((ExportTypeView::ExportDir, after))
    } else if w == "export_global_file"@ {
        match filter(after) {
            Err(e) => Err(e),
            Ok((value, rest)) => Ok((ExportTypeView::ExportGlobalFile(value), rest)),
        }
    } else if w == "export_global_dir"@ {
        Ok((ExportTypeView::ExportGlobalDir, after))
    } else if w == "export_multiline"@ {
        Ok((ExportTypeView::ExportMultiline, after))
    } else if w == "export_color_no_alpha"@ {
        Ok((ExportTypeView::ExportColorNoAlpha, after))
    } else if w == "export_node_path"@ {
        match type_list(after) {
            Err(e) => Err(e),
            Ok((values, rest)) => Ok((ExportTypeView::ExportNodePath(values), rest)),
        }
    } else if w == "export_flags"@ {
        match lit_list(after, true) {
            Err(e) => Err(e),
            Ok((values, rest)) => Ok((ExportTypeView::ExportFlags(values), rest)),
        }
    } else if w == "export_flags_2d_physics"@ {
        Ok((ExportTypeView::ExportFlags2dPhysics, after))
    } else if w == "export_flags_2d_render"@ {
        Ok((ExportTypeView::ExportFlags2dRender, after))
    } else if w == "export_flags_3d_physics"@ {
        Ok((ExportTypeView::ExportFlags3dPhysics, after))
    } else if w == "export_flags_3d_render"@ {
        Ok((ExportTypeView::ExportFlags3dRender, after))
    } else {
        Err(ParseErrorView { kind: ParseErrorKind::ExpectedExportType, found: FoundView::Ident(w) })
    }
}

/// Rule: an optional export hint. Without the marker `@` the hint is `NoHint` and nothing
/// is read; behind the marker stands the word of one hint, then its arguments.
pub open spec fn export_type(toks: Seq<TokenView>) -> Parsed<ExportTypeView> {
    if !starts_with_punct(toks, '@') {
        Ok((ExportTypeView::NoHint, toks))
    } else {
        let behind = toks.skip(1);
        if behind.len() > 0 && behind[0] is Ident {
            hint_for_word(behind[0]->Ident_0, behind.skip(1))
        } else {
            Err(fail_at(ParseErrorKind::ExpectedExportType, behind))
        }
    }
}

/// Reads a parenthesized, comma-separated list of literals.
pub fn parse_lit_list(input: &Tokens, strings_only: bool) -> (r: Result<
    (Vec<Lit>, Tokens),
    ParseError,
>)
    ensures
        parsed_as(r, lit_list(input@, strings_only)),
        no_longer(r, *input),
{
    let (content, rest) = expect_parenthesized(input)?;
    let values = parse_lits(&content, strings_only)?;
    Ok((values, rest))
}

/// Reads the arguments of a range: a parenthesized, comma-separated list of literals
/// whose bounds are numbers of one kind.
pub fn parse_range_list(input: &Tokens) -> (r: Result<(Vec<Lit>, Tokens), ParseError>)
    ensures
        parsed_as(r, range_list(input@)),
        no_longer(r, *input),
        r matches Ok((values, _)) ==> well_bounded(values.deep_view()),
{
    let (values, rest) = parse_lit_list(input, false)?;
    match check_bounds(&values) {
        Some(e) => Err(e),
        None => Ok((values, rest)),
    }
}

/// Reads a parenthesized, comma-separated list of types.
pub fn parse_type_list(input: &Tokens) -> (r: Result<(Vec<String>, Tokens), ParseError>)
    ensures
        parsed_as(r, type_list(input@)),
        no_longer(r, *input),
{
    let (content, rest) = expect_parenthesized(input)?;
    let values = parse_types(&content)?;
    Ok((values, rest))
}

/// Reads an optional parenthesized string literal.
pub fn parse_filter(input: &Tokens) -> (r: Result<(Option<Lit>, Tokens), ParseError>)
    ensures
        parsed_as(r, filter(input@)),
        no_longer(r, *input),
{
    if peek_group(input, Delim::Paren) {
        let (content, rest) = expect_parenthesized(input)?;
        let (value, inner_rest) = expect_str_lit(&content)?;
        expect_end(&inner_rest)?;
        Ok((Some(value), rest))
    } else {
        Ok((None, input.clone()))
    }
}

/// Reads the arguments of the export hint that `word` names from `after`, the stream
/// behind the word.
pub fn parse_hint_for_word(word: String, after: Tokens) -> (r: Result<
    (ExportType, Tokens),
    ParseError,
>)
    ensures
        parsed_as(r, hint_for_word(word@, after@)),
        no_longer(r, after),
{
    let w = word.as_str();
    if str_eq(w, "no_export") {
        Ok((ExportType::NoExport, after))
    } else if str_eq(w, "export") {
        Ok((ExportType::Export, after))
    } else if str_eq(w, "export_range") {
        let (range, rest) = parse_range_list(&after)?;
        Ok((ExportType::ExportRange(ExportRange { range }), rest))
    } else if str_eq(w, "export_exp_range") {
        let (range, rest) = parse_range_list(&after)?;
        Ok((ExportType::ExportExpRange(ExportExpRange { range }), rest))
    } else if str_eq(w, "export_enum") {
        let (values, rest) = parse_lit_list(&after, true)?;
        Ok((ExportType::ExportEnum(ExportEnum { values }), rest))
    } else if str_eq(w, "export_file") {
        let (filter, rest) = parse_filter(&after)?;
        Ok((ExportType::ExportFile(ExportFile { filter }), rest))
    } else if str_eq(w, "export_dir") {
        Ok((ExportType::ExportDir, after))
    } else if str_eq(w, "export_global_file") {
        let (filter, rest) = parse_filter(&after)?;
        Ok((ExportType::ExportGlobalFile(ExportGlobalFile { filter }), rest))
    } else if str_eq(w, "export_global_dir") {
        Ok((ExportType::ExportGlobalDir, after))
    } else if str_eq(w, "export_multiline") {
        Ok((ExportType::ExportMultiline, after))
    } else if str_eq(w, "export_color_no_alpha") {
        Ok((ExportType::ExportColorNoAlpha, after))
    } else if str_eq(w, "export_node_path") {
        let (types, rest) = parse_type_list(&after)?;
        Ok((ExportType::ExportNodePath(ExportNodePath { types }), rest))
    } else if str_eq(w, "export_flags") {
        let (values, rest) = parse_lit_list(&after, true)?;
        Ok((ExportType::ExportFlags(ExportFlags { values }), rest))
    } else if str_eq(w, "export_flags_2d_physics") {
        Ok((ExportType::ExportFlags2dPhysics, after))
    } else if str_eq(w, "export_flags_2d_render") {
        Ok((ExportType::ExportFlags2dRender, after))
    } else if str_eq(w, "export_flags_3d_physics") {
        Ok((ExportType::ExportFlags3dPhysics, after))
    } else if str_eq(w, "export_flags_3d_render") {
        Ok((ExportType::ExportFlags3dRender, after))
    } else {
        Err(ParseError { kind: ParseErrorKind::ExpectedExportType, found: Found::Ident(word) })
    }
}

impl ExportType {
    /// Reads an optional export hint from the start of the stream.
    ///
    /// Without the marker `@` the result is `NoHint` and the whole stream is left. Behind
    /// the marker a word that names no hint is refused with `ExpectedExportType`.
    pub fn parse(input: &Tokens) -> (r: Result<(ExportType, Tokens), ParseError>)
        ensures
            parsed_as(r, export_type(input@)),
            no_longer(r, *input),
    {
        if !peek_punct(input, '@') {
            return Ok((ExportType::NoHint, input.clone()));
        }
        let (_, behind) = expect_punct(input, '@', ParseErrorKind::ExpectedExportType)?;
        match behind.first() {
            Some((Token::Ident(word), after)) => parse_hint_for_word(word, after),
            _ => Err(fail(ParseErrorKind::ExpectedExportType, &behind)),
        }
    }
}

} // verus!

verus! {

/// A property declaration as it was written.
#[derive(Debug)]
pub struct GdScriptVar {
    pub export: ExportType,
    pub var_name: String,
    pub ty: String,
    pub value: String,
}

/// The mathematical model of [`GdScriptVar`].
pub struct GdScriptVarView {
    pub export: ExportTypeView,
    pub var_name: Seq<char>,
    pub ty: Seq<char>,
    pub value: Seq<char>,
}

impl View for GdScriptVar {
    type V = GdScriptVarView;

    open spec fn view(&self) -> GdScriptVarView {
        GdScriptVarView {
            export: self.export@,
            var_name: self.var_name@,
            ty: self.ty@,
            value: self.value@,
        }
    }
}

impl DeepView for GdScriptVar {
    type V = GdScriptVarView;

    open spec fn deep_view(&self) -> GdScriptVarView {
        self@
    }
}

impl Clone for GdScriptVar {
    fn clone(&self) -> (r: Self)
        ensures
            r@ == self@,
    {
        GdScriptVar {
            export: self.export.clone(),
            var_name: self.var_name.clone(),
            ty: self.ty.clone(),
            value: self.value.clone(),
        }
    }
}

/// Rule: `[export_hint] 'var' IDENT ':' TYPE '=' EXPR`. Name, type and default are all
/// required.
pub open spec fn var_decl(toks: Seq<TokenView>) -> Parsed<GdScriptVarView> {
    match export_type(toks) {
        Err(e) => Err(e),
        Ok((export, t1)) => match word(t1, "var"@, ParseErrorKind::ExpectedVar) {
            Err(e) => Err(e),
            Ok((_, t2)) => match ident(t2) {
                Err(e) => Err(e),
                Ok((var_name, t3)) => match punct(t3, ':', ParseErrorKind::ExpectedColon) {
                    Err(e) => Err(e),
                    Ok((_, t4)) => match ty(t4) {
                        Err(e) => Err(e),
                        Ok((ty, t5)) => match punct(t5, '=', ParseErrorKind::ExpectedEquals) {
                            Err(e) => Err(e),
                            Ok((_, t6)) => match expr(t6) {
                                Err(e) => Err(e),
                                Ok((value, t7)) => Ok(
                                    (GdScriptVarView { export, var_name, ty, value }, t7),
                                ),
                            },
                        },
                    },
                },
            },
        },
    }
}

/// A property declaration starts here: with the hint marker `@` or the word `var`.
pub open spec fn var_starts(toks: Seq<TokenView>) -> bool {
    starts_with_punct(toks, '@') || starts_with_word(toks, "var"@)
}

impl GdScriptVar {
    /// Reads one property declaration from the start of the stream.
    pub fn parse(input: &Tokens) -> (r: Result<(GdScriptVar, Tokens), ParseError>)
        ensures
            parsed_as(r, var_decl(input@)),
            r matches Ok((_, rest)) ==> rest@.len() < input@.len(),
    {
        let (export, t1) = ExportType::parse(input)?;
        let (_, t2) = expect_word(&t1, "var", ParseErrorKind::ExpectedVar)?;
        let (var_name, t3) = expect_ident(&t2)?;
        let (_, t4) = expect_punct(&t3, ':', ParseErrorKind::ExpectedColon)?;
        let (ty, t5) = expect_type(&t4)?;
        let (_, t6) = expect_punct(&t5, '=', ParseErrorKind::ExpectedEquals)?;
        let (value, t7) = expect_expr(&t6)?;
        Ok((GdScriptVar { export, var_name, ty, value }, t7))
    }
}

/// Whether a property declaration starts at the start of the stream.
pub fn next_is_var(input: &Tokens) -> (r: bool)
    ensures
        r == var_starts(input@),
{
    peek_punct(input, '@') || peek_word(input, "var")
}

} // verus!
