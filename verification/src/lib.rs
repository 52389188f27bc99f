//! Compiler from a declaration-style class description to engine-binding boilerplate.
//!
//! A class is declared with its properties, the hints that tell the editor how to present
//! them, their setters and getters, and its signals. The compiler reads the declaration
//! into a model and writes the code that the engine binding asks for: the struct, its
//! constructor, a constant for each signal, and the function that registers properties
//! and signals.
//!
//! The declaration comes in as text and the code goes out as text. In between, tokens are
//! lexed and printed by `proc_macro2` on its own implementation, which the library
//! switches on for the process (`proc_macro2::fallback::force`) and leaves on: a
//! procedural macro switches back (`proc_macro2::fallback::unforce`) when the library
//! has returned.

pub mod compiler;
pub mod error;
pub mod laws;
pub mod parser;
pub mod text;
pub mod tokens;
pub mod unsafe_functions;

use crate::compiler::attributes::StructItem;
use crate::compiler::attributes::StructItemView;
use crate::compiler::binding_attributes_code;
use crate::compiler::class_code;
use crate::compiler::compile;
use crate::compiler::compile_item;
use crate::compiler::extends_attr;
use crate::compiler::item_expansion;
use crate::compiler::Extends;
use crate::compiler::ItemExpansion;
use crate::error::Error;
use crate::error::ErrorView;
use crate::parser::gdscript_class::class_decl;
use crate::parser::gdscript_class::class_of_text;
use crate::parser::gdscript_class::parse_class;
use crate::parser::gdscript_class::GdScriptClass;
use crate::parser::gdscript_class::GdScriptClassView;
use crate::error::ParseErrorView;
use crate::tokens::TokenView;
use crate::tokens::Tokens;
use vstd::prelude::*;

verus! {

/// The code of a class whose declaration was read, or the error of either step. An error
/// of the grammar comes before an error of a hint.
pub open spec fn expansion(parsed: Result<GdScriptClassView, ParseErrorView>) -> Result<
    Seq<char>,
    ErrorView,
> {
    match parsed {
        Err(e) => Err(ErrorView::Parse(e)),
        Ok(class) => match class_code(class) {
            Err(e) => Err(ErrorView::Generation(e)),
            Ok(code) => Ok(code),
        },
    }
}

/// An expansion agrees with its model.
pub open spec fn expanded_as(r: Result<String, Error>, model: Result<Seq<char>, ErrorView>) -> bool {
    match r {
        Ok(code) => model == Ok::<Seq<char>, ErrorView>(code@),
        Err(e) => model == Err::<Seq<char>, ErrorView>(e@),
    }
}

/// Compiles the class declaration that a stream of tokens holds.
///
/// The result depends on the tokens alone: the same tokens give the same code. There is
/// no code for a part of a declaration: the first error ends the compilation.
pub fn gdrust(input: &Tokens) -> (r: Result<String, Error>)
    ensures
        expanded_as(r, expansion(class_decl(input@))),
{
    match GdScriptClass::parse(input) {
        Err(e) => Err(Error::Parse(e)),
        Ok(class) => match compile(&class) {
            Err(e) => Err(Error::Generation(e)),
            Ok(code) => Ok(code),
        },
    }
}

/// Compiles the class declaration that a text holds.
///
/// The result depends on the text alone: the same text gives the same code, in a
/// procedural macro as anywhere else.
pub fn gdrust_text(src: &str) -> (r: Result<String, Error>)
    ensures
        expanded_as(r, expansion(class_of_text(src@))),
{
    match parse_class(src) {
        Err(e) => Err(Error::Parse(e)),
        Ok(class) => match compile(&class) {
            Err(e) => Err(Error::Generation(e)),
            Ok(code) => Ok(code),
        },
    }
}

/// What an annotated struct under the attribute `attr` expands to, and the struct without
/// its annotations.
pub open spec fn attribute_expansion(attr: Seq<TokenView>, item: StructItemView) -> Result<
    (Seq<char>, StructItemView),
    ErrorView,
> {
    match extends_attr(attr) {
        Err(e) => Err(ErrorView::Parse(e)),
        Ok(parent) => item_expansion(item, parent),
    }
}

/// The parent type that the attribute `attr` names, where it names one.
pub open spec fn attribute_parent(attr: Seq<TokenView>) -> Seq<char> {
    match extends_attr(attr) {
        Ok(parent) => parent,
        Err(_) => Seq::empty(),
    }
}

/// Compiles a struct that carries its class declaration as annotations. The tokens `attr`
/// name the parent type: `extends = Type`.
///
/// On success the annotations are taken off the struct; where anything is refused, the
/// struct is left as it was.
pub fn gdrust2(attr: &Tokens, item: &mut StructItem) -> (r: Result<ItemExpansion, Error>)
    ensures
        match r {
            Ok(x) => attribute_expansion(attr@, old(item)@) == Ok::<
                (Seq<char>, StructItemView),
                ErrorView,
            >((x.impl_block@, final(item)@)) && x.attributes.deep_view()
                == binding_attributes_code(attribute_parent(attr@)),
            Err(e) => attribute_expansion(attr@, old(item)@) == Err::<
                (Seq<char>, StructItemView),
                ErrorView,
            >(e@) && *final(item) == *old(item),
        },
{
    let extends = match Extends::parse(attr) {
        Ok(extends) => extends,
        Err(e) => {
            return Err(Error::Parse(e));
        },
    };
    compile_item(item, &extends)
}

} // verus!
