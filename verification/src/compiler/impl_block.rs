//! The implementation block of a class: the signal constants, the constructor, and the
//! function that registers properties and signals with the engine.

use crate::compiler::hints::hint;
use crate::compiler::hints::property_hint;
use crate::compiler::properties::ExportType;
use crate::compiler::properties::property_of_var;
use crate::compiler::properties::Property;
use crate::compiler::properties::PropertyView;
use crate::compiler::setgets::getter_call;
use crate::compiler::setgets::property_getter;
use crate::compiler::setgets::property_setter;
use crate::compiler::setgets::setter_call;
use crate::compiler::signal_args::create_signal_arg;
use crate::compiler::signal_args::signal_arg_code;
use crate::compiler::signals::SignalArgDeclView;
use crate::compiler::signals::SignalDecl;
use crate::compiler::signals::SignalDeclView;
use crate::error::GenerationError;
use crate::parser::gdscript_class::parent_of;
use crate::parser::gdscript_class::signals_of;
use crate::parser::gdscript_class::vars_of;
use crate::parser::gdscript_class::GdScriptClass;
use crate::parser::gdscript_class::GdScriptClassView;
use crate::parser::gdscript_var::GdScriptVar;
use crate::parser::gdscript_var::GdScriptVarView;
use crate::text::quoted;
use crate::text::shouty_snake;
use crate::tokens::accepts_ident;
use crate::tokens::ident_accepted;
use crate::text::shouty_snake_case;
use crate::text::string_literal;
use vstd::prelude::*;
use vstd::string::StringExecFns;

verus! {

/// The value that a field starts with: the default of the property, or the default of
/// its type where the property has none.
pub open spec fn default_value(default: Option<Seq<char>>) -> Seq<char> {
    match default {
        Some(value) => value,
        None => "Default::default()"@,
    }
}

/// The line of the constructor that sets the field of a property.
pub open spec fn property_init(p: PropertyView) -> Seq<char> {
    p.name + ": "@ + default_value(p.default)
}

/// The statement that registers a property. A property that is not exported is not
/// registered: its statement is empty.
pub open spec fn property_registration(p: PropertyView) -> Result<Seq<char>, GenerationError> {
    if p.export_type is NoExport {
        Ok(""@)
    } else {
        match hint(p.export_type, p.ty) {
            Err(e) => Err(e),
            Ok(h) => Ok(
                "builder.add_property::<"@ + p.ty + ">("@ + quoted(p.name) + ")"@ + h + getter_call(
                    p.setget,
                    p.name,
                ) + setter_call(p.setget, p.name) + ".with_default("@ + default_value(p.default)
                    + ").done();\n"@,
            ),
        }
    }
}

/// The descriptions of the first `n` arguments of a signal, in their order, a comma
/// behind each.
pub open spec fn signal_args_code(args: Seq<SignalArgDeclView>, n: int) -> Seq<char>
    decreases n,
{
    if n <= 0 {
        Seq::empty()
    } else {
        signal_args_code(args, n - 1) + signal_arg_code(args[n - 1]) + ", "@
    }
}

/// The statement that registers a signal.
pub open spec fn signal_registration(s: SignalDeclView) -> Seq<char> {
    "builder.add_signal(gdnative::nativescript::Signal { name: "@ + quoted(s.name) + ", args: &["@
        + signal_args_code(s.args, s.args.len() as int) + "] });\n"@
}

/// The name of the signal, in upper case with underscores, is an identifier: the
/// constant of the signal can bear it.
pub open spec fn constant_named(s: SignalDeclView) -> bool {
    ident_accepted(shouty_snake(s.name))
}

/// The constant that holds the name of a signal.
pub open spec fn signal_const(s: SignalDeclView) -> Seq<char> {
    "pub const "@ + shouty_snake(s.name) + ": &'static str = "@ + quoted(s.name) + ";\n"@
}

/// The place of the first among the first `n` signals whose constant has no name.
pub open spec fn first_unnamed(signals: Seq<SignalDeclView>, n: int) -> Option<int>
    decreases n,
{
    if n <= 0 {
        None
    } else {
        match first_unnamed(signals, n - 1) {
            Some(i) => Some(i),
            None => if constant_named(signals[n - 1]) {
                None
            } else {
                Some(n - 1)
            },
        }
    }
}

/// A signal whose constant has no name decides the result, whatever stands behind it.
pub proof fn lemma_unnamed_stays(signals: Seq<SignalDeclView>, k: int, n: int)
    requires
        k <= n,
        first_unnamed(signals, k) is Some,
    ensures
        first_unnamed(signals, n) == first_unnamed(signals, k),
    decreases n - k,
{
    if k < n {
        lemma_unnamed_stays(signals, k, n - 1);
    }
}

/// The registration statements of the first `n` properties, in their order. The first
/// property whose hint breaks a rule decides the error.
pub open spec fn property_registrations(props: Seq<PropertyView>, n: int) -> Result<
    Seq<char>,
    GenerationError,
>
    decreases n,
{
    if n <= 0 {
        Ok(Seq::empty())
    } else {
        match property_registrations(props, n - 1) {
            Err(e) => Err(e),
            Ok(before) => match property_registration(props[n - 1]) {
                Err(e) => Err(e),
                Ok(statement) => Ok(before + statement),
            },
        }
    }
}

/// The registration statements of the first `n` signals, in their order.
pub open spec fn signal_registrations(signals: Seq<SignalDeclView>, n: int) -> Seq<char>
    decreases n,
{
    if n <= 0 {
        Seq::empty()
    } else {
        signal_registrations(signals, n - 1) + signal_registration(signals[n - 1])
    }
}

/// The constants of the first `n` signals, in their order.
pub open spec fn signal_consts_code(signals: Seq<SignalDeclView>, n: int) -> Seq<char>
    decreases n,
{
    if n <= 0 {
        Seq::empty()
    } else {
        signal_consts_code(signals, n - 1) + signal_const(signals[n - 1])
    }
}

/// The constructor lines of the first `n` properties, in their order, a comma behind
/// each.
pub open spec fn property_inits_code(props: Seq<PropertyView>, n: int) -> Seq<char>
    decreases n,
{
    if n <= 0 {
        Seq::empty()
    } else {
        property_inits_code(props, n - 1) + property_init(props[n - 1]) + ", "@
    }
}

/// The function that registers all properties, then all signals, each in the order of
/// declaration.
pub open spec fn registration_fn(props: Seq<PropertyView>, signals: Seq<SignalDeclView>) -> Result<
    Seq<char>,
    GenerationError,
> {
    match property_registrations(props, props.len() as int) {
        Err(e) => Err(e),
        Ok(statements) => Ok(
            "#[allow(clippy::default_trait_access)]\nfn __register_properties_and_signals(builder: &gdnative::prelude::ClassBuilder<Self>) {\n"@
                + statements + signal_registrations(signals, signals.len() as int) + "}\n"@,
        ),
    }
}

/// The implementation block of a class. A hint that breaks a rule is judged first; then
/// the first signal whose name gives no identifier for its constant is refused.
pub open spec fn impl_block_code(
    props: Seq<PropertyView>,
    signals: Seq<SignalDeclView>,
    extends: Seq<char>,
    struct_name: Seq<char>,
) -> Result<Seq<char>, GenerationError> {
    match registration_fn(props, signals) {
        Err(e) => Err(e),
        Ok(register) => match first_unnamed(signals, signals.len() as int) {
            Some(i) => Err(GenerationError::SignalConstant { index: i as usize }),
            None => Ok(
                "impl "@ + struct_name + " {\n"@ + signal_consts_code(
                    signals,
                    signals.len() as int,
                )
                    + "#[allow(clippy::default_trait_access)]\nfn new(_owner: gdnative::prelude::TRef<"@
                    + extends + ">) -> Self {\nSelf { "@ + property_inits_code(
                    props,
                    props.len() as int,
                ) + "}\n}\n"@ + register + "}\n"@,
            ),
        },
    }
}

/// The properties that the first `n` declarations stand for.
pub open spec fn properties_of(vars: Seq<GdScriptVarView>) -> Seq<PropertyView> {
    Seq::new(vars.len(), |i: int| property_of_var(vars[i]))
}

/// The implementation block of a parsed class.
pub open spec fn class_impl_code(class: GdScriptClassView) -> Result<Seq<char>, GenerationError> {
    impl_block_code(
        properties_of(vars_of(class.items)),
        signals_of(class.items),
        parent_of(class.extends),
        class.name,
    )
}

/// A text result agrees with its model.
pub open spec fn code_as(r: Result<String, GenerationError>, model: Result<Seq<char>, GenerationError>) -> bool {
    match r {
        Ok(text) => model == Ok::<Seq<char>, GenerationError>(text@),
        Err(e) => model == Err::<Seq<char>, GenerationError>(e),
    }
}

/// A rule that a property breaks decides the result, whatever stands behind it.
pub proof fn lemma_registration_error_stays(props: Seq<PropertyView>, k: int, n: int)
    requires
        k <= n,
        property_registrations(props, k) is Err,
    ensures
        property_registrations(props, n) == property_registrations(props, k),
    decreases n - k,
{
    if k < n {
        lemma_registration_error_stays(props, k, n - 1);
    }
}

/// Writes the value that a field starts with.
pub fn get_default(default: &Option<String>) -> (r: String)
    ensures
        r@ == default_value(default.deep_view()),
{
    match default {
        Some(value) => value.clone(),
        None => String::from_str("Default::default()"),
    }
}

/// Writes the constructor line of each property, in the order of the properties.
pub fn property_inits(properties: &Vec<Property>) -> (r: Vec<String>)
    ensures
        r.len() == properties.len(),
        forall|i: int| 0 <= i < r.len() ==> r[i]@ == property_init(#[trigger] properties[i]@),
{
    let mut out: Vec<String> = Vec::new();
    let mut i: usize = 0;
    while i < properties.len()
        invariant
            i <= properties.len(),
            out.len() == i,
            forall|j: int| 0 <= j < i ==> out[j]@ == property_init(#[trigger] properties[j]@),
        decreases properties.len() - i,
    {
        let p = &properties[i];
        let mut line = p.name.clone();
        line.append(": ");
        line.append(get_default(&p.default).as_str());
        out.push(line);
        i += 1;
    }
    out
}

/// Writes the statement that registers a property: its type, its name, its hint, its
/// getter, its setter and its default. Writes nothing for a property that is not
/// exported.
pub fn builder_for_property(property: &Property) -> (r: Result<String, GenerationError>)
    ensures
        code_as(r, property_registration(property@)),
{
    if let ExportType::NoExport = property.export_type {
        return Ok(String::from_str(""));
    }
    let name = property.name.as_str();
    let hint = property_hint(&property.export_type, property.ty.as_str())?;
    let mut out = String::from_str("builder.add_property::<");
    out.append(property.ty.as_str());
    out.append(">(");
    out.append(string_literal(name).as_str());
    out.append(")");
    out.append(hint.as_str());
    out.append(property_getter(&property.setget, name).as_str());
    out.append(property_setter(&property.setget, name).as_str());
    out.append(".with_default(");
    out.append(get_default(&property.default).as_str());
    out.append(").done();\n");
    Ok(out)
}

/// Writes the statement that registers the property of a declaration.
pub fn builder_for_var(var: &GdScriptVar) -> (r: Result<String, GenerationError>)
    ensures
        code_as(r, property_registration(property_of_var(var@))),
{
    builder_for_property(&Property::from_var(var))
}

/// Writes the statement that registers a signal with its arguments in their order.
pub fn builder_for_signal(signal: &SignalDecl) -> (r: String)
    ensures
        r@ == signal_registration(signal@),
{
    let mut args = String::new();
    let mut i: usize = 0;
    while i < signal.args.len()
        invariant
            i <= signal.args.len(),
            args@ == signal_args_code(signal@.args, i as int),
        decreases signal.args.len() - i,
    {
        assert(signal@.args[i as int] == signal.args@[i as int]@);
        args.append(create_signal_arg(&signal.args[i]).as_str());
        args.append(", ");
        i += 1;
    }
    let mut out = String::from_str("builder.add_signal(gdnative::nativescript::Signal { name: ");
    out.append(string_literal(signal.name.as_str()).as_str());
    out.append(", args: &[");
    out.append(args.as_str());
    out.append("] });\n");
    out
}

/// Writes the constant of each signal, in the order of the signals: its name in upper
/// case with underscores holds the name as the signal was declared.
///
/// A signal whose name in upper case with underscores is no identifier (a name made of
/// underscores alone) has no constant: the first such signal is refused.
pub fn signal_consts(signals: &Vec<SignalDecl>) -> (r: Result<Vec<String>, GenerationError>)
    ensures
        match r {
            Ok(lines) => {
                &&& first_unnamed(signals.deep_view(), signals.len() as int) is None
                &&& lines.len() == signals.len()
                &&& forall|i: int|
                    0 <= i < lines.len() ==> lines[i]@ == signal_const(#[trigger] signals[i]@)
            },
            Err(e) => {
                &&& first_unnamed(signals.deep_view(), signals.len() as int) matches Some(i)
                &&& e == GenerationError::SignalConstant { index: i as usize }
            },
        },
{
    let mut out: Vec<String> = Vec::new();
    let mut i: usize = 0;
    while i < signals.len()
        invariant
            i <= signals.len(),
            out.len() == i,
            first_unnamed(signals.deep_view(), i as int) is None,
            forall|j: int| 0 <= j < i ==> out[j]@ == signal_const(#[trigger] signals[j]@),
        decreases signals.len() - i,
    {
        assert(signals.deep_view()[i as int] == signals@[i as int]@);
        let name = signals[i].name.as_str();
        let constant = shouty_snake_case(name);
        if !accepts_ident(constant.as_str()) {
            proof {
                lemma_unnamed_stays(signals.deep_view(), i + 1, signals.len() as int);
            }
            return Err(GenerationError::SignalConstant { index: i });
        }
        let mut line = String::from_str("pub const ");
        line.append(constant.as_str());
        line.append(": &'static str = ");
        line.append(string_literal(name).as_str());
        line.append(";\n");
        out.push(line);
        i += 1;
    }
    Ok(out)
}

/// Writes the function that registers the properties and the signals of a class: one
/// statement for each exported property in the order of the properties, then one for each
/// signal in the order of the signals.
pub fn register_properties(properties: &Vec<Property>, signals: &Vec<SignalDecl>) -> (r: Result<
    String,
    GenerationError,
>)
    ensures
        code_as(r, registration_fn(properties.deep_view(), signals.deep_view())),
{
    let mut statements = String::new();
    let mut i: usize = 0;
    while i < properties.len()
        invariant
            i <= properties.len(),
            property_registrations(properties.deep_view(), i as int) == Ok::<Seq<char>, GenerationError>(
                statements@,
            ),
        decreases properties.len() - i,
    {
        assert(properties.deep_view()[i as int] == properties@[i as int]@);
        match builder_for_property(&properties[i]) {
            Ok(statement) => {
                statements.append(statement.as_str());
            },
            Err(e) => {
                proof {
                    lemma_registration_error_stays(
                        properties.deep_view(),
                        i + 1,
                        properties.deep_view().len() as int,
                    );
                }
                return Err(e);
            },
        }
        i += 1;
    }
    let mut j: usize = 0;
    let mut signal_statements = String::new();
    while j < signals.len()
        invariant
            j <= signals.len(),
            signal_statements@ == signal_registrations(signals.deep_view(), j as int),
        decreases signals.len() - j,
    {
        assert(signals.deep_view()[j as int] == signals@[j as int]@);
        signal_statements.append(builder_for_signal(&signals[j]).as_str());
        j += 1;
    }
    let mut out = String::from_str(
        "#[allow(clippy::default_trait_access)]\nfn __register_properties_and_signals(builder: &gdnative::prelude::ClassBuilder<Self>) {\n",
    );
    out.append(statements.as_str());
    out.append(signal_statements.as_str());
    out.append("}\n");
    Ok(out)
}

/// Writes the implementation block of the class `struct_name` with parent `extends`: the
/// signal constants, the constructor that sets every field, exported or not, to its
/// default, and the registration function. Hints are judged before the names of the
/// constants.
pub fn impl_block(
    properties: &Vec<Property>,
    signals: &Vec<SignalDecl>,
    extends: &str,
    struct_name: &str,
) -> (r: Result<String, GenerationError>)
    ensures
        code_as(
            r,
            impl_block_code(properties.deep_view(), signals.deep_view(), extends@, struct_name@),
        ),
{
    let register = register_properties(properties, signals)?;
    let consts = signal_consts(signals)?;
    let mut consts_code = String::new();
    let mut i: usize = 0;
    while i < consts.len()
        invariant
            i <= consts.len(),
            consts.len() == signals.len(),
            forall|k: int| 0 <= k < consts.len() ==> consts[k]@ == signal_const(#[trigger] signals[k]@),
            consts_code@ == signal_consts_code(signals.deep_view(), i as int),
        decreases consts.len() - i,
    {
        assert(signals.deep_view()[i as int] == signals@[i as int]@);
        consts_code.append(consts[i].as_str());
        i += 1;
    }
    let inits = property_inits(properties);
    let mut inits_code = String::new();
    let mut j: usize = 0;
    while j < inits.len()
        invariant
            j <= inits.len(),
            inits.len() == properties.len(),
            forall|k: int| 0 <= k < inits.len() ==> inits[k]@ == property_init(#[trigger] properties[k]@),
            inits_code@ == property_inits_code(properties.deep_view(), j as int),
        decreases inits.len() - j,
    {
        assert(properties.deep_view()[j as int] == properties@[j as int]@);
        inits_code.append(inits[j].as_str());
        inits_code.append(", ");
        j += 1;
    }
    let mut out = String::from_str("impl ");
    out.append(struct_name);
    out.append(" {\n");
    out.append(consts_code.as_str());
    out.append(
        "#[allow(clippy::default_trait_access)]\nfn new(_owner: gdnative::prelude::TRef<",
    );
    out.append(extends);
    out.append(">) -> Self {\nSelf { ");
    out.append(inits_code.as_str());
    out.append("}\n}\n");
    out.append(register.as_str());
    out.append("}\n");
    Ok(out)
}

/// The properties that declarations stand for, in the order of the declarations.
pub fn properties_from_vars(vars: &Vec<GdScriptVar>) -> (r: Vec<Property>)
    ensures
        r.deep_view() == properties_of(vars.deep_view()),
{
    let mut out: Vec<Property> = Vec::new();
    let mut i: usize = 0;
    while i < vars.len()
        invariant
            i <= vars.len(),
            out.len() == i,
            forall|j: int| 0 <= j < i ==> out[j]@ == property_of_var(#[trigger] vars[j]@),
        decreases vars.len() - i,
    {
        out.push(Property::from_var(&vars[i]));
        i += 1;
    }
    assert(out.deep_view() =~= properties_of(vars.deep_view()));
    out
}

/// Writes the implementation block of a parsed class.
pub fn gd_impl(class: &GdScriptClass) -> (r: Result<String, GenerationError>)
    ensures
        code_as(r, class_impl_code(class@)),
{
    let properties = properties_from_vars(&class.vars());
    let signals = class.signals();
    let parent = class.parent();
    impl_block(&properties, &signals, parent.as_str(), class.name.as_str())
}

} // verus!
