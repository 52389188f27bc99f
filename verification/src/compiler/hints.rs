//! The hint of a property: the code that tells the editor how to present it.

use crate::compiler::properties::numeric;
use crate::compiler::properties::ExportEnum;
use crate::compiler::properties::ExportExpRange;
use crate::compiler::properties::ExportFile;
use crate::compiler::properties::ExportFlags;
use crate::compiler::properties::ExportGlobalFile;
use crate::compiler::properties::ExportRange;
use crate::compiler::properties::ExportType;
use crate::compiler::properties::ExportTypeView;
use crate::error::GenerationError;
use crate::tokens::str_eq;
use crate::tokens::Lit;
use crate::tokens::LitKind;
use crate::tokens::LitView;
use vstd::prelude::*;
use vstd::string::StringExecFns;

verus! {

/// The type is one of the integer types.
pub open spec fn int_type(ty: Seq<char>) -> bool {
    ty == "u8"@ || ty == "u16"@ || ty == "u32"@ || ty == "u64"@ || ty == "u128"@ || ty
        == "usize"@ || ty == "i8"@ || ty == "i16"@ || ty == "i32"@ || ty == "i64"@ || ty
        == "i128"@ || ty == "isize"@
}

/// The type is one of the two floating-point types.
pub open spec fn float_type(ty: Seq<char>) -> bool {
    ty == "f32"@ || ty == "f64"@
}

/// The type is a number type.
pub open spec fn number_type(ty: Seq<char>) -> bool {
    int_type(ty) || float_type(ty)
}

/// Whether a type, given by its name, is an integer type.
pub fn is_int(ty: &str) -> (r: bool)
    ensures
        r == int_type(ty@),
{
    str_eq(ty, "u8") || str_eq(ty, "u16") || str_eq(ty, "u32") || str_eq(ty, "u64") || str_eq(
        ty,
        "u128",
    ) || str_eq(ty, "usize") || str_eq(ty, "i8") || str_eq(ty, "i16") || str_eq(ty, "i32")
        || str_eq(ty, "i64") || str_eq(ty, "i128") || str_eq(ty, "isize")
}

/// Whether a type, given by its name, is a floating-point type.
pub fn is_float(ty: &str) -> (r: bool)
    ensures
        r == float_type(ty@),
{
    str_eq(ty, "f32") || str_eq(ty, "f64")
}

/// Whether a type, given by its name, is a number type.
pub fn is_number(ty: &str) -> (r: bool)
    ensures
        r == number_type(ty@),
{
    is_int(ty) || is_float(ty)
}

/// What the arguments of a range hint say beyond its two bounds.
#[derive(Debug)]
pub struct RangeModifiers {
    /// The step, as written.
    pub step: Option<String>,
    /// Values below the lower bound are allowed.
    pub or_lesser: bool,
    /// Values above the upper bound are allowed.
    pub or_greater: bool,
}

/// The mathematical model of [`RangeModifiers`].
pub struct RangeModifiersView {
    pub step: Option<Seq<char>>,
    pub or_lesser: bool,
    pub or_greater: bool,
}

impl View for RangeModifiers {
    type V = RangeModifiersView;

    open spec fn view(&self) -> RangeModifiersView {
        RangeModifiersView {
            step: self.step.deep_view(),
            or_lesser: self.or_lesser,
            or_greater: self.or_greater,
        }
    }
}

/// A range hint without modifiers.
pub open spec fn no_modifiers() -> RangeModifiersView {
    RangeModifiersView { step: None, or_lesser: false, or_greater: false }
}

/// The literal is a number, which behind the bounds of a range is its step.
pub open spec fn is_step(item: LitView) -> bool {
    numeric(item)
}

/// The literal is the string that allows values below the lower bound.
pub open spec fn is_or_lesser(item: LitView) -> bool {
    item.kind == LitKind::Str && item.value == "or_lesser"@
}

/// The literal is the string that allows values above the upper bound.
pub open spec fn is_or_greater(item: LitView) -> bool {
    item.kind == LitKind::Str && item.value == "or_greater"@
}

/// The modifiers after one more argument: a number is the step, a clamp marker switches
/// its clamp on, and anything else is refused.
pub open spec fn with_modifier(m: RangeModifiersView, item: LitView, index: int) -> Result<
    RangeModifiersView,
    GenerationError,
> {
    if is_step(item) {
        Ok(RangeModifiersView { step: Some(item.token), ..m })
    } else if is_or_lesser(item) {
        Ok(RangeModifiersView { or_lesser: true, ..m })
    } else if is_or_greater(item) {
        Ok(RangeModifiersView { or_greater: true, ..m })
    } else if item.kind == LitKind::Str {
        Err(GenerationError::UnexpectedString { index: index as usize })
    } else {
        Err(GenerationError::UnexpectedItem { index: index as usize })
    }
}

/// The modifiers that the arguments from the third up to, not including, position `n`
/// give. The first argument that is refused decides the error.
pub open spec fn modifiers_upto(range: Seq<LitView>, n: int) -> Result<
    RangeModifiersView,
    GenerationError,
>
    decreases n,
{
    if n <= 2 {
        Ok(no_modifiers())
    } else {
        match modifiers_upto(range, n - 1) {
            Err(e) => Err(e),
            Ok(m) => with_modifier(m, range[n - 1], n - 1),
        }
    }
}

/// The modifiers of a range hint.
pub open spec fn modifiers(range: Seq<LitView>) -> Result<RangeModifiersView, GenerationError> {
    modifiers_upto(range, range.len() as int)
}

/// An argument that is refused decides the result, whatever stands behind it.
pub proof fn lemma_modifiers_error_stays(range: Seq<LitView>, k: int, n: int)
    requires
        k <= n,
        modifiers_upto(range, k) is Err,
    ensures
        modifiers_upto(range, n) == modifiers_upto(range, k),
    decreases n - k,
{
    if k < n {
        lemma_modifiers_error_stays(range, k, n - 1);
    }
}

/// Reads the modifiers of a range hint from its arguments.
pub fn range_modifiers(range: &Vec<Lit>) -> (r: Result<RangeModifiers, GenerationError>)
    ensures
        match r {
            Ok(m) => modifiers(range.deep_view()) == Ok::<RangeModifiersView, GenerationError>(m@),
            Err(e) => modifiers(range.deep_view()) == Err::<RangeModifiersView, GenerationError>(e),
        },
{
    let mut m = RangeModifiers { step: None, or_lesser: false, or_greater: false };
    let mut i: usize = 2;
    while i < range.len()
        invariant
            2 <= i,
            i <= range.len() || (range.len() < 2 && i == 2),
            modifiers_upto(range.deep_view(), i as int) == Ok::<RangeModifiersView, GenerationError>(m@),
        decreases range.len() - i,
    {
        let item = &range[i];
        assert(range.deep_view()[i as int] == item@);
        match item.kind {
            LitKind::Int | LitKind::Float => {
                m.step = Some(item.token.clone());
            },
            LitKind::Str => {
                if str_eq(item.value.as_str(), "or_lesser") {
                    m.or_lesser = true;
                } else if str_eq(item.value.as_str(), "or_greater") {
                    m.or_greater = true;
                } else {
                    proof {
                        lemma_modifiers_error_stays(
                            range.deep_view(),
                            i + 1,
                            range.deep_view().len() as int,
                        );
                    }
                    return Err(GenerationError::UnexpectedString { index: i });
                }
            },
            LitKind::Other => {
                proof {
                    lemma_modifiers_error_stays(
                        range.deep_view(),
                        i + 1,
                        range.deep_view().len() as int,
                    );
                }
                return Err(GenerationError::UnexpectedItem { index: i });
            },
        }
        i += 1;
    }
    Ok(m)
}

} // verus!

verus! {

/// The code that attaches a hint to a property under construction.
pub open spec fn with_hint(hint: Seq<char>) -> Seq<char> {
    ".with_hint("@ + hint + ")"@
}

/// The first `n` names of a list, each turned into the item type of the list and followed
/// by a comma. The position of a name in the text is its position in the list.
pub open spec fn into_items(values: Seq<LitView>, n: int) -> Seq<char>
    decreases n,
{
    if n <= 0 {
        Seq::empty()
    } else {
        into_items(values, n - 1) + values[n - 1].token + ".into(), "@
    }
}

/// The code that builds the list of names of an enumeration, flag or filter hint.
pub open spec fn enum_hint(values: Seq<LitView>) -> Seq<char> {
    "gdnative::nativescript::init::property::EnumHint::new(vec!["@ + into_items(
        values,
        values.len() as int,
    ) + "])"@
}

/// What is written behind a bound: for a floating-point property, the conversion to it.
pub open spec fn bound_suffix(float: bool) -> Seq<char> {
    if float {
        ".into()"@
    } else {
        ""@
    }
}

/// The code that builds a range hint: the base range, then the step, then the clamp below,
/// then the clamp above.
pub open spec fn range_hint_code(
    min: Seq<char>,
    max: Seq<char>,
    m: RangeModifiersView,
    float: bool,
    exp: bool,
) -> Seq<char> {
    "gdnative::nativescript::init::property::"@ + (if float {
        "FloatHint::"@
    } else {
        "IntHint::"@
    }) + (if exp {
        "ExpRange("@
    } else {
        "Range("@
    }) + "gdnative::nativescript::property::RangeHint::new("@ + min + bound_suffix(float) + ", "@
        + max + bound_suffix(float) + ")"@ + (match m.step {
        Some(step) => ".with_step("@ + step + ")"@,
        None => ""@,
    }) + (if m.or_lesser {
        ".or_lesser()"@
    } else {
        ""@
    }) + (if m.or_greater {
        ".or_greater()"@
    } else {
        ""@
    }) + ")"@
}

/// The hint of a range: refused where the property is no number, then where a bound is
/// missing, then where the first bound is no number, then where the second bound is not
/// of the kind of the first, then where an argument behind the bounds is refused.
pub open spec fn range_hint(range: Seq<LitView>, ty: Seq<char>, exp: bool) -> Result<
    Seq<char>,
    GenerationError,
> {
    if !number_type(ty) {
        Err(GenerationError::RangeNotANumber)
    } else if range.len() < 2 {
        Err(GenerationError::RangeWithoutBounds)
    } else if !numeric(range[0]) {
        Err(GenerationError::BoundNotANumber)
    } else if range[1].kind != range[0].kind {
        Err(GenerationError::BoundsOfTwoKinds)
    } else {
        match modifiers(range) {
            Err(e) => Err(e),
            Ok(m) => Ok(
                with_hint(range_hint_code(range[0].token, range[1].token, m, float_type(ty), exp)),
            ),
        }
    }
}

/// The hint of an enumeration: over integers for a number property, over strings for any
/// other.
pub open spec fn export_enum(values: Seq<LitView>, ty: Seq<char>) -> Seq<char> {
    with_hint(
        "gdnative::nativescript::init::property::"@ + (if number_type(ty) {
            "IntHint::Enum("@
        } else {
            "StringHint::Enum("@
        }) + enum_hint(values) + ")"@,
    )
}

/// The list that holds the filter of a file hint, if there is one.
pub open spec fn filter_list(filter: Option<LitView>) -> Seq<char> {
    match filter {
        Some(f) => "vec!["@ + f.token + ".into()]"@,
        None => "vec![]"@,
    }
}

/// The hint of a file or, with `global`, of a file anywhere on disk.
pub open spec fn export_file(filter: Option<LitView>, global: bool) -> Seq<char> {
    with_hint(
        "gdnative::nativescript::init::property::"@ + (if global {
            "StringHint::GlobalFile("@
        } else {
            "StringHint::File("@
        }) + "gdnative::nativescript::init::property::EnumHint::new("@ + filter_list(filter)
            + "))"@,
    )
}

/// The hint of a set of named bit flags.
pub open spec fn export_flags(values: Seq<LitView>) -> Seq<char> {
    with_hint("gdnative::nativescript::init::property::IntHint::Flags("@ + enum_hint(values) + ")"@)
}

/// The hint of a property of the given type: empty for a plain export and for a node
/// path, an error for a range that breaks a rule.
pub open spec fn hint(export: ExportTypeView, ty: Seq<char>) -> Result<Seq<char>, GenerationError> {
    match export {
        ExportTypeView::NoHint => Ok(""@),
        ExportTypeView::NoExport => Ok(""@),
        ExportTypeView::Export => Ok(""@),
        ExportTypeView::ExportRange(range) => range_hint(range, ty, false),
        ExportTypeView::ExportExpRange(range) => range_hint(range, ty, true),
        ExportTypeView::ExportEnum(values) => Ok(export_enum(values, ty)),
        ExportTypeView::ExportFile(filter) => Ok(export_file(filter, false)),
        ExportTypeView::ExportDir => Ok(
            with_hint("gdnative::nativescript::init::property::StringHint::Dir"@),
        ),
        ExportTypeView::ExportGlobalFile(filter) => Ok(export_file(filter, true)),
        ExportTypeView::ExportGlobalDir => Ok(
            with_hint("gdnative::nativescript::init::property::StringHint::GlobalDir"@),
        ),
        ExportTypeView::ExportMultiline => Ok(
            with_hint("gdnative::nativescript::init::property::StringHint::Multiline"@),
        ),
        ExportTypeView::ExportColorNoAlpha => Ok(
            with_hint("gdnative::nativescript::init::property::ColorHint::NoAlpha"@),
        ),
        ExportTypeView::ExportNodePath(_) => Ok(""@),
        ExportTypeView::ExportFlags(values) => Ok(export_flags(values)),
        ExportTypeView::ExportFlags2dPhysics => Ok(
            with_hint("gdnative::nativescript::init::property::IntHint::Layers2DPhysics"@),
        ),
        ExportTypeView::ExportFlags2dRender => Ok(
            with_hint("gdnative::nativescript::init::property::IntHint::Layers2DRender"@),
        ),
        ExportTypeView::ExportFlags3dPhysics => Ok(
            with_hint("gdnative::nativescript::init::property::IntHint::Layers3DPhysics"@),
        ),
        ExportTypeView::ExportFlags3dRender => Ok(
            with_hint("gdnative::nativescript::init::property::IntHint::Layers3DRender"@),
        ),
    }
}

/// A hint result agrees with its model.
pub open spec fn hint_as(r: Result<String, GenerationError>, model: Result<Seq<char>, GenerationError>) -> bool {
    match r {
        Ok(text) => model == Ok::<Seq<char>, GenerationError>(text@),
        Err(e) => model == Err::<Seq<char>, GenerationError>(e),
    }
}

/// Wraps the code of a hint into the call that attaches it.
fn attach(hint: &str) -> (r: String)
    ensures
        r@ == with_hint(hint@),
{
    let mut out = String::from_str(".with_hint(");
    out.append(hint);
    out.append(")");
    out
}

/// Writes the list of names of an enumeration, flag or filter hint.
fn enum_hint_code(values: &Vec<Lit>) -> (r: String)
    ensures
        r@ == enum_hint(values.deep_view()),
{
    let mut items = String::new();
    let mut i: usize = 0;
    while i < values.len()
        invariant
            i <= values.len(),
            items@ == into_items(values.deep_view(), i as int),
        decreases values.len() - i,
    {
        assert(values.deep_view()[i as int] == values@[i as int]@);
        items.append(values[i].token.as_str());
        items.append(".into(), ");
        i += 1;
    }
    let mut out = String::from_str("gdnative::nativescript::init::property::EnumHint::new(vec![");
    out.append(items.as_str());
    out.append("])");
    out
}

/// Writes the hint of a range from its arguments.
///
/// The rules are held in this order: the property is a number; there are two bounds; the
/// bounds are numbers of one kind; every argument behind them is a number, which is the
/// step (the last one counts), or one of the strings `"or_lesser"` and `"or_greater"`.
pub fn export_range_hint_helper(range: &Vec<Lit>, ty: &str, is_exp: bool) -> (r: Result<
    String,
    GenerationError,
>)
    ensures
        hint_as(r, range_hint(range.deep_view(), ty@, is_exp)),
{
    if !is_number(ty) {
        return Err(GenerationError::RangeNotANumber);
    }
    if range.len() < 2 {
        return Err(GenerationError::RangeWithoutBounds);
    }
    assert(range.deep_view()[0] == range@[0]@);
    assert(range.deep_view()[1] == range@[1]@);
    let first_is_number = match range[0].kind {
        LitKind::Int | LitKind::Float => true,
        _ => false,
    };
    if !first_is_number {
        return Err(GenerationError::BoundNotANumber);
    }
    if range[1].kind != range[0].kind {
        return Err(GenerationError::BoundsOfTwoKinds);
    }
    let m = range_modifiers(range)?;
    let float = is_float(ty);
    let suffix = if float {
        ".into()"
    } else {
        ""
    };
    let mut out = String::from_str("gdnative::nativescript::init::property::");
    out.append(
        if float {
            "FloatHint::"
        } else {
            "IntHint::"
        },
    );
    out.append(
        if is_exp {
            "ExpRange("
        } else {
            "Range("
        },
    );
    out.append("gdnative::nativescript::property::RangeHint::new(");
    out.append(range[0].token.as_str());
    out.append(suffix);
    out.append(", ");
    out.append(range[1].token.as_str());
    out.append(suffix);
    out.append(")");
    match &m.step {
        Some(step) => {
            let mut call = String::from_str(".with_step(");
            call.append(step.as_str());
            call.append(")");
            out.append(call.as_str());
        },
        None => {
            out.append("");
        },
    }
    out.append(
        if m.or_lesser {
            ".or_lesser()"
        } else {
            ""
        },
    );
    out.append(
        if m.or_greater {
            ".or_greater()"
        } else {
            ""
        },
    );
    out.append(")");
    Ok(attach(out.as_str()))
}

/// Writes the hint of an enumeration for a property of the given type.
pub fn export_enum_hint(export_enum: &ExportEnum, ty: &str) -> (r: String)
    ensures
        r@ == self::export_enum(export_enum.values.deep_view(), ty@),
{
    let values = &export_enum.values;
    let mut out = String::from_str("gdnative::nativescript::init::property::");
    out.append(
        if is_number(ty) {
            "IntHint::Enum("
        } else {
            "StringHint::Enum("
        },
    );
    out.append(enum_hint_code(values).as_str());
    out.append(")");
    attach(out.as_str())
}

/// Writes the hint of a file or, with `global`, of a file anywhere on disk.
fn file_hint_code(filter: &Option<Lit>, global: bool) -> (r: String)
    ensures
        r@ == export_file(filter.deep_view(), global),
{
    let list = match filter {
        Some(f) => {
            let mut list = String::from_str("vec![");
            list.append(f.token.as_str());
            list.append(".into()]");
            list
        },
        None => String::from_str("vec![]"),
    };
    let mut out = String::from_str("gdnative::nativescript::init::property::");
    out.append(
        if global {
            "StringHint::GlobalFile("
        } else {
            "StringHint::File("
        },
    );
    out.append("gdnative::nativescript::init::property::EnumHint::new(");
    out.append(list.as_str());
    out.append("))");
    attach(out.as_str())
}

/// Writes the hint of a file.
pub fn export_file_hint(export_file: &ExportFile) -> (r: String)
    ensures
        r@ == self::export_file(export_file.filter.deep_view(), false),
{
    file_hint_code(&export_file.filter, false)
}

/// Writes the hint of a file anywhere on disk.
pub fn export_global_file_hint(export_global_file: &ExportGlobalFile) -> (r: String)
    ensures
        r@ == export_file(export_global_file.filter.deep_view(), true),
{
    file_hint_code(&export_global_file.filter, true)
}

/// Writes the hint of a range.
pub fn export_range_hint(range: &ExportRange, ty: &str) -> (r: Result<String, GenerationError>)
    ensures
        hint_as(r, range_hint(range.range.deep_view(), ty@, false)),
{
    export_range_hint_helper(&range.range, ty, false)
}

/// Writes the hint of a range that is shown on an exponential scale.
pub fn export_exp_range_hint(range: &ExportExpRange, ty: &str) -> (r: Result<String, GenerationError>)
    ensures
        hint_as(r, range_hint(range.range.deep_view(), ty@, true)),
{
    export_range_hint_helper(&range.range, ty, true)
}

/// Writes the hint of a set of named bit flags.
pub fn export_flags_hint(flags: &ExportFlags) -> (r: String)
    ensures
        r@ == export_flags(flags.values.deep_view()),
{
    let values = &flags.values;
    let mut out = String::from_str("gdnative::nativescript::init::property::IntHint::Flags(");
    out.append(enum_hint_code(values).as_str());
    out.append(")");
    attach(out.as_str())
}

/// Writes the hint of a property from its export type and its declared type.
///
/// A property that is not exported has no hint to write: such a property is never handed
/// to this function.
pub fn property_hint(export: &ExportType, ty: &str) -> (r: Result<String, GenerationError>)
    requires
        !(export@ is NoExport),
    ensures
        hint_as(r, hint(export@, ty@)),
{
    match export {
        ExportType::NoHint | ExportType::Export | ExportType::NoExport => Ok(String::from_str("")),
        ExportType::ExportRange(range) => export_range_hint(range, ty),
        ExportType::ExportExpRange(range) => export_exp_range_hint(range, ty),
        ExportType::ExportEnum(e) => Ok(export_enum_hint(e, ty)),
        ExportType::ExportFile(f) => Ok(export_file_hint(f)),
        ExportType::ExportDir => Ok(
            attach("gdnative::nativescript::init::property::StringHint::Dir"),
        ),
        ExportType::ExportGlobalFile(f) => Ok(export_global_file_hint(f)),
        ExportType::ExportGlobalDir => Ok(
            attach("gdnative::nativescript::init::property::StringHint::GlobalDir"),
        ),
        ExportType::ExportMultiline => Ok(
            attach("gdnative::nativescript::init::property::StringHint::Multiline"),
        ),
        ExportType::ExportColorNoAlpha => Ok(
            attach("gdnative::nativescript::init::property::ColorHint::NoAlpha"),
        ),
        ExportType::ExportNodePath(_) => Ok(String::from_str("")),
        ExportType::ExportFlags(f) => Ok(export_flags_hint(f)),
        ExportType::ExportFlags2dPhysics => Ok(
            attach("gdnative::nativescript::init::property::IntHint::Layers2DPhysics"),
        ),
        ExportType::ExportFlags2dRender => Ok(
            attach("gdnative::nativescript::init::property::IntHint::Layers2DRender"),
        ),
        ExportType::ExportFlags3dPhysics => Ok(
            attach("gdnative::nativescript::init::property::IntHint::Layers3DPhysics"),
        ),
        ExportType::ExportFlags3dRender => Ok(
            attach("gdnative::nativescript::init::property::IntHint::Layers3DRender"),
        ),
    }
}

} // verus!
