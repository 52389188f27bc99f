//! From the model of a class to the text of its boilerplate.

pub mod attributes;
pub mod hints;
pub mod impl_block;
pub mod properties;
pub mod setgets;
pub mod signal_args;
pub mod signals;

use crate::compiler::attributes::StructItem;
use crate::compiler::attributes::StructItemView;
use crate::compiler::impl_block::class_impl_code;
use crate::compiler::impl_block::impl_block;
use crate::compiler::impl_block::impl_block_code;
use crate::compiler::properties::extract_properties;
use crate::compiler::properties::properties_upto;
use crate::compiler::signals::extract_signals;
use crate::compiler::signals::signals_upto;
use crate::error::Error;
use crate::error::ErrorView;
use crate::error::ParseError;
use crate::error::ParseErrorKind;
use crate::error::ParseErrorView;
use crate::parser::cursor::end;
use crate::parser::cursor::expect_end;
use crate::parser::cursor::expect_punct;
use crate::parser::cursor::expect_type;
use crate::parser::cursor::expect_word;
use crate::parser::cursor::punct;
use crate::parser::cursor::ty;
use crate::parser::cursor::word;
use crate::tokens::TokenView;
use crate::tokens::Tokens;
use crate::compiler::impl_block::code_as;
use crate::compiler::impl_block::gd_impl;
use crate::error::GenerationError;
use crate::parser::gdscript_class::parent_of;
use crate::parser::gdscript_class::vars_of;
use crate::parser::gdscript_class::GdScriptClass;
use crate::parser::gdscript_class::GdScriptClassView;
use crate::parser::gdscript_var::GdScriptVarView;
use vstd::prelude::*;
use vstd::string::StringExecFns;

verus! {

/// The first `n` attributes of a class, one to a line.
pub open spec fn attributes_code(attributes: Seq<Seq<char>>, n: int) -> Seq<char>
    decreases n,
{
    if n <= 0 {
        Seq::empty()
    } else {
        attributes_code(attributes, n - 1) + attributes[n - 1] + "\n"@
    }
}

/// The fields of the first `n` properties, in their order, a comma behind each.
pub open spec fn fields_code(vars: Seq<GdScriptVarView>, n: int) -> Seq<char>
    decreases n,
{
    if n <= 0 {
        Seq::empty()
    } else {
        fields_code(vars, n - 1) + vars[n - 1].var_name + ": "@ + vars[n - 1].ty + ", "@
    }
}

/// The struct of a class: the attributes of the class, the three attributes that bind it
/// to the engine, and one field for each property, exported or not.
pub open spec fn struct_code(class: GdScriptClassView) -> Seq<char> {
    attributes_code(class.attributes, class.attributes.len() as int)
        + "#[derive(gdnative::NativeClass)]\n#[inherit("@ + parent_of(class.extends)
        + ")]\n#[register_with(Self::__register_properties_and_signals)]\npub struct "@
        + class.name + " { "@ + fields_code(
        vars_of(class.items),
        vars_of(class.items).len() as int,
    ) + "}\n"@
}

/// The code of a class: its struct, then its implementation block.
pub open spec fn class_code(class: GdScriptClassView) -> Result<Seq<char>, GenerationError> {
    match class_impl_code(class) {
        Err(e) => Err(e),
        Ok(block) => Ok(struct_code(class) + block),
    }
}

/// Writes the struct of a class.
pub fn create_struct(class: &GdScriptClass) -> (r: String)
    ensures
        r@ == struct_code(class@),
{
    let mut attributes = String::new();
    let mut i: usize = 0;
    while i < class.attributes.len()
        invariant
            i <= class.attributes.len(),
            attributes@ == attributes_code(class@.attributes, i as int),
        decreases class.attributes.len() - i,
    {
        assert(class@.attributes[i as int] == class.attributes@[i as int]@);
        attributes.append(class.attributes[i].as_str());
        attributes.append("\n");
        i += 1;
    }
    let vars = class.vars();
    let mut fields = String::new();
    let mut j: usize = 0;
    while j < vars.len()
        invariant
            j <= vars.len(),
            vars.deep_view() == vars_of(class@.items),
            fields@ == fields_code(vars_of(class@.items), j as int),
        decreases vars.len() - j,
    {
        assert(vars.deep_view()[j as int] == vars@[j as int]@);
        fields.append(vars[j].var_name.as_str());
        fields.append(": ");
        fields.append(vars[j].ty.as_str());
        fields.append(", ");
        j += 1;
    }
    let mut out = attributes;
    out.append("#[derive(gdnative::NativeClass)]\n#[inherit(");
    out.append(class.parent().as_str());
    out.append(")]\n#[register_with(Self::__register_properties_and_signals)]\npub struct ");
    out.append(class.name.as_str());
    out.append(" { ");
    out.append(fields.as_str());
    out.append("}\n");
    out
}

/// Writes the code of a class: its struct, then its implementation block.
///
/// The result is the same text for the same class. A hint that breaks a rule leaves no
/// code at all.
pub fn compile(parsed: &GdScriptClass) -> (r: Result<String, GenerationError>)
    ensures
        code_as(r, class_code(parsed@)),
{
    let gd_struct = create_struct(parsed);
    let block = gd_impl(parsed)?;
    let mut out = gd_struct;
    out.append(block.as_str());
    Ok(out)
}

} // verus!

verus! {

/// The parent type that the attribute of a struct names.
#[derive(Debug)]
pub struct Extends {
    pub ty: String,
}

/// Rule: `'extends' '=' TYPE` and nothing else.
pub open spec fn extends_attr(toks: Seq<TokenView>) -> Result<Seq<char>, ParseErrorView> {
    match word(toks, "extends"@, ParseErrorKind::ExpectedExtends) {
        Err(e) => Err(e),
        Ok((_, t1)) => match punct(t1, '=', ParseErrorKind::ExpectedEquals) {
            Err(e) => Err(e),
            Ok((_, t2)) => match ty(t2) {
                Err(e) => Err(e),
                Ok((parent, t3)) => match end(t3) {
                    Err(e) => Err(e),
                    Ok(_) => Ok(parent),
                },
            },
        },
    }
}

impl Extends {
    /// Reads `extends = Type` from a stream that holds nothing else.
    pub fn parse(input: &Tokens) -> (r: Result<Extends, ParseError>)
        ensures
            match r {
                Ok(extends) => extends_attr(input@) == Ok::<
                    Seq<char>,
                    ParseErrorView,
                >(extends.ty@),
                Err(e) => extends_attr(input@) == Err::<Seq<char>, ParseErrorView>(
                    e@,
                ),
            },
    {
        let (_, t1) = expect_word(input, "extends", ParseErrorKind::ExpectedExtends)?;
        let (_, t2) = expect_punct(&t1, '=', ParseErrorKind::ExpectedEquals)?;
        let (ty, t3) = expect_type(&t2)?;
        expect_end(&t3)?;
        Ok(Extends { ty })
    }
}

/// What an annotated struct expands to: the attributes that bind the struct to the
/// engine, to be put on it, and its implementation block.
#[derive(Debug)]
pub struct ItemExpansion {
    pub attributes: Vec<String>,
    pub impl_block: String,
}

/// The three attributes that bind a struct to the engine: the class derive, the parent
/// type, and the registration function.
pub open spec fn binding_attributes_code(extends: Seq<char>) -> Seq<Seq<char>> {
    seq![
        "#[derive(gdnative::NativeClass)]"@,
        "#[inherit("@ + extends + ")]"@,
        "#[register_with(Self::__register_properties_and_signals)]"@,
    ]
}

/// What an annotated struct expands to, and the struct without its annotations. Signals
/// are read before properties, and properties before hints are written: the first error
/// in that order is the result.
pub open spec fn item_expansion(item: StructItemView, extends: Seq<char>) -> Result<
    (Seq<char>, StructItemView),
    ErrorView,
> {
    match signals_upto(item.attrs, item.attrs.len() as int) {
        Err(e) => Err(e),
        Ok((signals, attrs)) => match properties_upto(item.fields, item.fields.len() as int) {
            Err(e) => Err(e),
            Ok((props, fields)) => match impl_block_code(props, signals, extends, item.name) {
                Err(e) => Err(ErrorView::Generation(e)),
                Ok(code) => Ok((code, StructItemView { name: item.name, attrs, fields })),
            },
        },
    }
}

/// Writes the three attributes that bind a struct to the engine.
pub fn binding_attributes(extends: &str) -> (r: Vec<String>)
    ensures
        r.deep_view() == binding_attributes_code(extends@),
{
    let mut inherit = String::from_str("#[inherit(");
    inherit.append(extends);
    inherit.append(")]");
    let mut out: Vec<String> = Vec::new();
    out.push(String::from_str("#[derive(gdnative::NativeClass)]"));
    out.push(inherit);
    out.push(String::from_str("#[register_with(Self::__register_properties_and_signals)]"));
    assert(out.deep_view() =~= binding_attributes_code(extends@));
    out
}

/// Compiles an annotated struct: reads its signals and its properties, takes the
/// annotations off the struct, and writes its implementation block.
///
/// Where anything is refused, the struct is left as it was.
pub fn compile_item(item: &mut StructItem, extends: &Extends) -> (r: Result<ItemExpansion, Error>)
    ensures
        match r {
            Ok(x) => item_expansion(old(item)@, extends.ty@) == Ok::<
                (Seq<char>, StructItemView),
                ErrorView,
            >((x.impl_block@, final(item)@)) && x.attributes.deep_view()
                == binding_attributes_code(extends.ty@),
            Err(e) => item_expansion(old(item)@, extends.ty@) == Err::<
                (Seq<char>, StructItemView),
                ErrorView,
            >(e@) && *final(item) == *old(item),
        },
{
    let mut work = item.clone();
    let signals = extract_signals(&mut work)?;
    let properties = extract_properties(&mut work)?;
    let block = match impl_block(&properties, &signals, extends.ty.as_str(), work.name.as_str()) {
        Ok(block) => block,
        Err(e) => {
            return Err(Error::Generation(e));
        },
    };
    *item = work;
    Ok(ItemExpansion { attributes: binding_attributes(extends.ty.as_str()), impl_block: block })
}

} // verus!
