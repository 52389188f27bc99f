//! Annotations: the attribute form of a class declaration. A struct carries its signals
//! as attributes, and each field carries its hint, its default, its setter and its getter
//! as attributes.

use crate::compiler::properties::ExportNodePath;
use crate::compiler::properties::ExportType;
use crate::compiler::properties::ExportTypeView;
use crate::compiler::properties::SetGetMethod;
use crate::compiler::properties::SetGetMethods;
use crate::error::ParseError;
use crate::error::ParseErrorKind;
use crate::error::ParseErrorView;
use crate::parser::cursor::end;
use crate::parser::cursor::expect_end;
use crate::parser::cursor::expect_expr;
use crate::parser::cursor::expect_parenthesized;
use crate::parser::cursor::expect_path;
use crate::parser::cursor::expect_punct;
use crate::parser::cursor::expr;
use crate::parser::cursor::fail;
use crate::parser::cursor::fail_at;
use crate::parser::cursor::is_empty;
use crate::parser::cursor::parenthesized;
use crate::parser::cursor::path;
use crate::parser::cursor::punct;
use crate::parser::gdscript_var::hint_for_word;
use crate::parser::gdscript_var::parse_hint_for_word;
use crate::text::clone_opt_text;
use crate::tokens::str_eq;
use crate::tokens::Token;
use crate::tokens::TokenView;
use crate::tokens::plain;
use crate::tokens::lexed;
use crate::tokens::Tokens;
use vstd::prelude::*;

verus! {

/// An attribute: its path, and the tokens that follow the path.
#[derive(Debug)]
pub struct Attribute {
    pub path: Tokens,
    pub tokens: Tokens,
}

/// The mathematical model of [`Attribute`].
pub struct AttributeView {
    pub path: Seq<TokenView>,
    pub tokens: Seq<TokenView>,
}

impl View for Attribute {
    type V = AttributeView;

    open spec fn view(&self) -> AttributeView {
        AttributeView { path: self.path@, tokens: self.tokens@ }
    }
}

impl DeepView for Attribute {
    type V = AttributeView;

    open spec fn deep_view(&self) -> AttributeView {
        self@
    }
}

impl Clone for Attribute {
    fn clone(&self) -> (r: Self)
        ensures
            r@ == self@,
    {
        Attribute { path: self.path.clone(), tokens: self.tokens.clone() }
    }
}

/// The name of an attribute whose path is one word.
pub open spec fn attribute_name(path: Seq<TokenView>) -> Option<Seq<char>> {
    if path.len() == 1 && path[0] is Ident {
        Some(path[0]->Ident_0)
    } else {
        None
    }
}

impl Attribute {
    /// The attribute of a path and of the tokens behind the path, both given as text.
    /// There is none where either text does not lex to a readable stream.
    pub fn lex(path: &str, tokens: &str) -> (r: Option<Attribute>)
        ensures
            match r {
                Some(attr) => lexed(path@) == Some(attr@.path) && lexed(tokens@) == Some(
                    attr@.tokens,
                ),
                None => !(lexed(path@) is Some && plain(lexed(path@)->0) && lexed(tokens@)
                    is Some && plain(lexed(tokens@)->0)),
            },
    {
        match Tokens::lex(path) {
            None => None,
            Some(path) => match Tokens::lex(tokens) {
                None => None,
                Some(tokens) => Some(Attribute { path, tokens }),
            },
        }
    }

    /// The name of the attribute, where its path is one word.
    pub fn name(&self) -> (r: Option<String>)
        ensures
            r.deep_view() == attribute_name(self@.path),
    {
        match self.path.first() {
            Some((Token::Ident(name), rest)) => {
                if is_empty(&rest) {
                    Some(name)
                } else {
                    None
                }
            },
            _ => None,
        }
    }
}

/// What an annotation of a field says.
#[derive(Debug)]
pub enum Annotation {
    /// The default value, as an expression.
    Default(String),
    /// The export hint.
    Export(ExportType),
    /// The method that sets the property.
    Setter(SetGetMethod),
    /// The method that gets the property.
    Getter(SetGetMethod),
    /// The methods that set and get the property.
    SetterGetter(SetGetMethods),
    /// Nothing: the attribute is none of this compiler's and stays on the field.
    Other,
}

/// The mathematical model of [`Annotation`].
pub enum AnnotationView {
    Default(Seq<char>),
    Export(ExportTypeView),
    Setter(Seq<char>),
    Getter(Seq<char>),
    SetterGetter { setter: Seq<char>, getter: Seq<char> },
    Other,
}

impl View for Annotation {
    type V = AnnotationView;

    open spec fn view(&self) -> AnnotationView {
        match *self {
            Annotation::Default(e) => AnnotationView::Default(e@),
            Annotation::Export(e) => AnnotationView::Export(e@),
            Annotation::Setter(m) => AnnotationView::Setter(m.method@),
            Annotation::Getter(m) => AnnotationView::Getter(m.method@),
            Annotation::SetterGetter(m) => AnnotationView::SetterGetter {
                setter: m.setter@,
                getter: m.getter@,
            },
            Annotation::Other => AnnotationView::Other,
        }
    }
}

/// Rule: a parenthesized expression and nothing else.
pub open spec fn default_arg(toks: Seq<TokenView>) -> Result<Seq<char>, ParseErrorView> {
    match parenthesized(toks) {
        Err(e) => Err(e),
        Ok((content, rest)) => match expr(content) {
            Err(e) => Err(e),
            Ok((value, inner_rest)) => match end(inner_rest) {
                Err(e) => Err(e),
                Ok(_) => match end(rest) {
                    Err(e) => Err(e),
                    Ok(_) => Ok(value),
                },
            },
        },
    }
}

/// Rule: a parenthesized path and nothing else.
pub open spec fn method_arg(toks: Seq<TokenView>) -> Result<Seq<char>, ParseErrorView> {
    match parenthesized(toks) {
        Err(e) => Err(e),
        Ok((content, rest)) => match path(content) {
            Err(e) => Err(e),
            Ok((method, inner_rest)) => match end(inner_rest) {
                Err(e) => Err(e),
                Ok(_) => match end(rest) {
                    Err(e) => Err(e),
                    Ok(_) => Ok(method),
                },
            },
        },
    }
}

/// Rule: two paths between parentheses, a comma between them, and nothing else: the
/// setter, then the getter.
pub open spec fn methods_arg(toks: Seq<TokenView>) -> Result<
    (Seq<char>, Seq<char>),
    ParseErrorView,
> {
    match parenthesized(toks) {
        Err(e) => Err(e),
        Ok((content, rest)) => match path(content) {
            Err(e) => Err(e),
            Ok((setter, t1)) => match punct(t1, ',', ParseErrorKind::ExpectedComma) {
                Err(e) => Err(e),
                Ok((_, t2)) => match path(t2) {
                    Err(e) => Err(e),
                    Ok((getter, t3)) => match end(t3) {
                        Err(e) => Err(e),
                        Ok(_) => match end(rest) {
                            Err(e) => Err(e),
                            Ok(_) => Ok((setter, getter)),
                        },
                    },
                },
            },
        },
    }
}

/// The word names an export hint.
pub open spec fn export_word(w: Seq<char>) -> bool {
    w == "no_export"@ || w == "export"@ || w == "export_range"@ || w == "export_exp_range"@ || w
        == "export_enum"@ || w == "export_file"@ || w == "export_dir"@ || w
        == "export_global_file"@ || w == "export_global_dir"@ || w == "export_multiline"@ || w
        == "export_color_no_alpha"@ || w == "export_node_path"@ || w == "export_flags"@ || w
        == "export_flags_2d_physics"@ || w == "export_flags_2d_render"@ || w
        == "export_flags_3d_physics"@ || w == "export_flags_3d_render"@
}

/// The hint takes arguments.
pub open spec fn takes_arguments(export: ExportTypeView) -> bool {
    export is ExportRange || export is ExportExpRange || export is ExportEnum || export
        is ExportFile || export is ExportGlobalFile || export is ExportNodePath || export
        is ExportFlags
}

/// Rule: the export hint of the annotation named `w`. A hint without arguments passes
/// over whatever follows its name; a hint with arguments has them follow its name with
/// nothing behind; a node path may do without arguments.
pub open spec fn export_annotation(w: Seq<char>, toks: Seq<TokenView>) -> Result<
    ExportTypeView,
    ParseErrorView,
> {
    if w == "export_node_path"@ && toks.len() == 0 {
        Ok(ExportTypeView::ExportNodePath(Seq::empty()))
    } else {
        match hint_for_word(w, toks) {
            Err(e) => Err(e),
            Ok((export, rest)) => if takes_arguments(export) {
                match end(rest) {
                    Err(e) => Err(e),
                    Ok(_) => Ok(export),
                }
            } else {
                Ok(export)
            },
        }
    }
}

/// Rule: what the annotation named `w`, with the tokens `toks` behind its name, says.
pub open spec fn annotation(w: Seq<char>, toks: Seq<TokenView>) -> Result<
    AnnotationView,
    ParseErrorView,
> {
    if w == "default"@ {
        match default_arg(toks) {
            Err(e) => Err(e),
            Ok(value) => Ok(AnnotationView::Default(value)),
        }
    } else if w == "set"@ {
        match method_arg(toks) {
            Err(e) => Err(e),
            Ok(method) => Ok(AnnotationView::Setter(method)),
        }
    } else if w == "get"@ {
        match method_arg(toks) {
            Err(e) => Err(e),
            Ok(method) => Ok(AnnotationView::Getter(method)),
        }
    } else if w == "setget"@ {
        match methods_arg(toks) {
            Err(e) => Err(e),
            Ok((setter, getter)) => Ok(AnnotationView::SetterGetter { setter, getter }),
        }
    } else if export_word(w) {
        match export_annotation(w, toks) {
            Err(e) => Err(e),
            Ok(export) => Ok(AnnotationView::Export(export)),
        }
    } else {
        Ok(AnnotationView::Other)
    }
}

/// Rule: what an attribute of a field says. An attribute whose path is more than one word
/// is refused.
pub open spec fn field_annotation(attr: AttributeView) -> Result<AnnotationView, ParseErrorView> {
    match attribute_name(attr.path) {
        None => Err(fail_at(ParseErrorKind::InvalidAttribute, attr.path)),
        Some(w) => annotation(w, attr.tokens),
    }
}

/// Reads a parenthesized expression that fills the whole stream.
pub fn parse_default(input: &Tokens) -> (r: Result<String, ParseError>)
    ensures
        match r {
            Ok(value) => default_arg(input@) == Ok::<Seq<char>, ParseErrorView>(
                value@,
            ),
            Err(e) => default_arg(input@) == Err::<Seq<char>, ParseErrorView>(e@),
        },
{
    let (content, rest) = expect_parenthesized(input)?;
    let (value, inner_rest) = expect_expr(&content)?;
    expect_end(&inner_rest)?;
    expect_end(&rest)?;
    Ok(value)
}

impl SetGetMethod {
    /// Reads a parenthesized path that fills the whole stream.
    pub fn parse(input: &Tokens) -> (r: Result<SetGetMethod, ParseError>)
        ensures
            match r {
                Ok(m) => method_arg(input@) == Ok::<Seq<char>, ParseErrorView>(
                    m.method@,
                ),
                Err(e) => method_arg(input@) == Err::<Seq<char>, ParseErrorView>(
                    e@,
                ),
            },
    {
        let (content, rest) = expect_parenthesized(input)?;
        let (method, inner_rest) = expect_path(&content)?;
        expect_end(&inner_rest)?;
        expect_end(&rest)?;
        Ok(SetGetMethod { method })
    }
}

impl SetGetMethods {
    /// Reads two parenthesized paths, the setter and the getter, that fill the whole
    /// stream.
    pub fn parse(input: &Tokens) -> (r: Result<SetGetMethods, ParseError>)
        ensures
            match r {
                Ok(m) => methods_arg(input@) == Ok::<
                    (Seq<char>, Seq<char>),
                    ParseErrorView,
                >((m.setter@, m.getter@)),
                Err(e) => methods_arg(input@) == Err::<
                    (Seq<char>, Seq<char>),
                    ParseErrorView,
                >(e@),
            },
    {
        let (content, rest) = expect_parenthesized(input)?;
        let (setter, t1) = expect_path(&content)?;
        let (_, t2) = expect_punct(&t1, ',', ParseErrorKind::ExpectedComma)?;
        let (getter, t3) = expect_path(&t2)?;
        expect_end(&t3)?;
        expect_end(&rest)?;
        Ok(SetGetMethods { setter, getter })
    }
}

/// Whether a word names an export hint.
pub fn is_export_word(w: &str) -> (r: bool)
    ensures
        r == export_word(w@),
{
    str_eq(w, "no_export") || str_eq(w, "export") || str_eq(w, "export_range") || str_eq(
        w,
        "export_exp_range",
    ) || str_eq(w, "export_enum") || str_eq(w, "export_file") || str_eq(w, "export_dir")
        || str_eq(w, "export_global_file") || str_eq(w, "export_global_dir") || str_eq(
        w,
        "export_multiline",
    ) || str_eq(w, "export_color_no_alpha") || str_eq(w, "export_node_path") || str_eq(
        w,
        "export_flags",
    ) || str_eq(w, "export_flags_2d_physics") || str_eq(w, "export_flags_2d_render") || str_eq(
        w,
        "export_flags_3d_physics",
    ) || str_eq(w, "export_flags_3d_render")
}

/// Whether a hint takes arguments.
pub fn has_arguments(export: &ExportType) -> (r: bool)
    ensures
        r == takes_arguments(export@),
{
    match export {
        ExportType::ExportRange(_)
        | ExportType::ExportExpRange(_)
        | ExportType::ExportEnum(_)
        | ExportType::ExportFile(_)
        | ExportType::ExportGlobalFile(_)
        | ExportType::ExportNodePath(_)
        | ExportType::ExportFlags(_) => true,
        _ => false,
    }
}

/// Reads the export hint of the annotation named `word` from the tokens behind the name.
pub fn parse_export_annotation(word: String, tokens: &Tokens) -> (r: Result<
    ExportType,
    ParseError,
>)
    ensures
        match r {
            Ok(export) => export_annotation(word@, tokens@) == Ok::<
                ExportTypeView,
                ParseErrorView,
            >(export@),
            Err(e) => export_annotation(word@, tokens@) == Err::<
                ExportTypeView,
                ParseErrorView,
            >(e@),
        },
{
    if str_eq(word.as_str(), "export_node_path") && is_empty(tokens) {
        let types: Vec<String> = Vec::new();
        assert(types.deep_view() =~= Seq::<Seq<char>>::empty());
        return Ok(ExportType::ExportNodePath(ExportNodePath { types }));
    }
    let (export, rest) = parse_hint_for_word(word, tokens.clone())?;
    if has_arguments(&export) {
        expect_end(&rest)?;
    }
    Ok(export)
}

impl Annotation {
    /// Reads what the annotation named `word` says from the tokens behind the name.
    pub fn parse(word: String, tokens: &Tokens) -> (r: Result<Annotation, ParseError>)
        ensures
            match r {
                Ok(a) => annotation(word@, tokens@) == Ok::<
                    AnnotationView,
                    ParseErrorView,
                >(a@),
                Err(e) => annotation(word@, tokens@) == Err::<
                    AnnotationView,
                    ParseErrorView,
                >(e@),
            },
    {
        let w = word.as_str();
        if str_eq(w, "default") {
            Ok(Annotation::Default(parse_default(tokens)?))
        } else if str_eq(w, "set") {
            Ok(Annotation::Setter(SetGetMethod::parse(tokens)?))
        } else if str_eq(w, "get") {
            Ok(Annotation::Getter(SetGetMethod::parse(tokens)?))
        } else if str_eq(w, "setget") {
            Ok(Annotation::SetterGetter(SetGetMethods::parse(tokens)?))
        } else if is_export_word(w) {
            Ok(Annotation::Export(parse_export_annotation(word, tokens)?))
        } else {
            Ok(Annotation::Other)
        }
    }

    /// Reads what an attribute of a field says.
    pub fn of_attribute(attr: &Attribute) -> (r: Result<Annotation, ParseError>)
        ensures
            match r {
                Ok(a) => field_annotation(attr@) == Ok::<AnnotationView, ParseErrorView>(a@),
                Err(e) => field_annotation(attr@) == Err::<AnnotationView, ParseErrorView>(e@),
            },
    {
        match attr.name() {
            None => Err(fail(ParseErrorKind::InvalidAttribute, &attr.path)),
            Some(word) => Annotation::parse(word, &attr.tokens),
        }
    }
}

} // verus!

verus! {

/// A field of a struct: its name, where it has one, its type, and its attributes in
/// their order.
#[derive(Debug)]
pub struct Field {
    pub name: Option<String>,
    pub ty: String,
    pub attrs: Vec<Attribute>,
}

/// The mathematical model of [`Field`].
pub struct FieldView {
    pub name: Option<Seq<char>>,
    pub ty: Seq<char>,
    pub attrs: Seq<AttributeView>,
}

impl View for Field {
    type V = FieldView;

    open spec fn view(&self) -> FieldView {
        FieldView { name: self.name.deep_view(), ty: self.ty@, attrs: self.attrs.deep_view() }
    }
}

impl DeepView for Field {
    type V = FieldView;

    open spec fn deep_view(&self) -> FieldView {
        self@
    }
}

/// A struct: its name, its attributes and its fields, each in their order.
#[derive(Debug)]
pub struct StructItem {
    pub name: String,
    pub attrs: Vec<Attribute>,
    pub fields: Vec<Field>,
}

/// The mathematical model of [`StructItem`].
pub struct StructItemView {
    pub name: Seq<char>,
    pub attrs: Seq<AttributeView>,
    pub fields: Seq<FieldView>,
}

impl View for StructItem {
    type V = StructItemView;

    open spec fn view(&self) -> StructItemView {
        StructItemView {
            name: self.name@,
            attrs: self.attrs.deep_view(),
            fields: self.fields.deep_view(),
        }
    }
}

} // verus!

verus! {

/// Copies a list of attributes.
pub fn clone_attributes(attrs: &Vec<Attribute>) -> (r: Vec<Attribute>)
    ensures
        r.deep_view() == attrs.deep_view(),
{
    let mut out: Vec<Attribute> = Vec::new();
    let mut i: usize = 0;
    while i < attrs.len()
        invariant
            i <= attrs.len(),
            out.len() == i,
            forall|j: int| 0 <= j < i ==> out@[j]@ == attrs@[j]@,
        decreases attrs.len() - i,
    {
        out.push(attrs[i].clone());
        i += 1;
    }
    assert(out.deep_view() =~= attrs.deep_view());
    out
}

impl Clone for Field {
    fn clone(&self) -> (r: Self)
        ensures
            r@ == self@,
    {
        Field {
            name: clone_opt_text(&self.name),
            ty: self.ty.clone(),
            attrs: clone_attributes(&self.attrs),
        }
    }
}

} // verus!

verus! {

impl Clone for StructItem {
    fn clone(&self) -> (r: Self)
        ensures
            r@ == self@,
    {
        let mut fields: Vec<Field> = Vec::new();
        let mut i: usize = 0;
        while i < self.fields.len()
            invariant
                i <= self.fields.len(),
                fields.len() == i,
                forall|j: int| 0 <= j < i ==> fields@[j]@ == self.fields@[j]@,
            decreases self.fields.len() - i,
        {
            fields.push(self.fields[i].clone());
            i += 1;
        }
        assert(fields.deep_view() =~= self.fields.deep_view());
        StructItem { name: self.name.clone(), attrs: clone_attributes(&self.attrs), fields }
    }
}

} // verus!
