//! The description of a signal argument that the engine is given.

use crate::compiler::signals::SignalArgDecl;
use crate::compiler::signals::SignalArgDeclView;
use crate::text::quoted;
use crate::text::string_literal;
use crate::tokens::str_eq;
use vstd::prelude::*;
use vstd::string::StringExecFns;

verus! {

/// The type is one of the engine's built-in value types.
pub open spec fn variant_type(ty: Seq<char>) -> bool {
    ty == "Nil"@ || ty == "Bool"@ || ty == "I64"@ || ty == "F64"@ || ty == "GodotString"@ || ty
        == "Vector2"@ || ty == "Rect2"@ || ty == "Vector3"@ || ty == "Transform2D"@ || ty
        == "Plane"@ || ty == "Quat"@ || ty == "Aabb"@ || ty == "Basis"@ || ty == "Transform"@
        || ty == "Color"@ || ty == "NodePath"@ || ty == "Rid"@ || ty == "Object"@ || ty
        == "Dictionary"@ || ty == "VariantArray"@ || ty == "ByteArray"@ || ty == "Int32Array"@
        || ty == "Float32Array"@ || ty == "StringArray"@ || ty == "Vector2Array"@ || ty
        == "Vector3Array"@ || ty == "ColorArray"@
}

/// The type tag of an argument: the tag of a built-in value type, or a reference to an
/// engine class.
pub open spec fn export_info_code(ty: Seq<char>) -> Seq<char> {
    if variant_type(ty) {
        "gdnative::nativescript::ExportInfo::new(gdnative::core_types::VariantType::"@ + ty + ")"@
    } else {
        "gdnative::nativescript::ExportInfo::resource_type::<"@ + ty + ">()"@
    }
}

/// The default value of an argument: the given expression turned into an engine value, or
/// the engine's empty value.
pub open spec fn default_code(default: Option<Seq<char>>) -> Seq<char> {
    match default {
        Some(value) => "gdnative::core_types::ToVariant::to_variant(&("@ + value + "))"@,
        None => "gdnative::core_types::Variant::new()"@,
    }
}

/// The description of one signal argument.
pub open spec fn signal_arg_code(arg: SignalArgDeclView) -> Seq<char> {
    "gdnative::nativescript::SignalArgument { name: "@ + quoted(arg.name) + ", default: "@
        + default_code(arg.default) + ", export_info: "@ + export_info_code(arg.ty)
        + ", usage: gdnative::nativescript::PropertyUsage::DEFAULT }"@
}

/// Whether a type, given by its name, is one of the engine's built-in value types.
pub fn is_variant_type(ty: &str) -> (r: bool)
    ensures
        r == variant_type(ty@),
{
    str_eq(ty, "Nil") || str_eq(ty, "Bool") || str_eq(ty, "I64") || str_eq(ty, "F64") || str_eq(
        ty,
        "GodotString",
    ) || str_eq(ty, "Vector2") || str_eq(ty, "Rect2") || str_eq(ty, "Vector3") || str_eq(
        ty,
        "Transform2D",
    ) || str_eq(ty, "Plane") || str_eq(ty, "Quat") || str_eq(ty, "Aabb") || str_eq(ty, "Basis")
        || str_eq(ty, "Transform") || str_eq(ty, "Color") || str_eq(ty, "NodePath") || str_eq(
        ty,
        "Rid",
    ) || str_eq(ty, "Object") || str_eq(ty, "Dictionary") || str_eq(ty, "VariantArray")
        || str_eq(ty, "ByteArray") || str_eq(ty, "Int32Array") || str_eq(ty, "Float32Array")
        || str_eq(ty, "StringArray") || str_eq(ty, "Vector2Array") || str_eq(ty, "Vector3Array")
        || str_eq(ty, "ColorArray")
}

/// Writes the type tag of a signal argument.
pub fn export_info(arg: &SignalArgDecl) -> (r: String)
    ensures
        r@ == export_info_code(arg@.ty),
{
    let ty = arg.ty.as_str();
    if is_variant_type(ty) {
        let mut out = String::from_str(
            "gdnative::nativescript::ExportInfo::new(gdnative::core_types::VariantType::",
        );
        out.append(ty);
        out.append(")");
        out
    } else {
        let mut out = String::from_str("gdnative::nativescript::ExportInfo::resource_type::<");
        out.append(ty);
        out.append(">()");
        out
    }
}

/// Writes the description of a signal argument: its name, its default, its type tag and
/// the default usage.
pub fn create_signal_arg(arg: &SignalArgDecl) -> (r: String)
    ensures
        r@ == signal_arg_code(arg@),
{
    let default = match &arg.default {
        Some(value) => {
            let mut code = String::from_str("gdnative::core_types::ToVariant::to_variant(&(");
            code.append(value.as_str());
            code.append("))");
            code
        },
        None => String::from_str("gdnative::core_types::Variant::new()"),
    };
    let mut out = String::from_str("gdnative::nativescript::SignalArgument { name: ");
    out.append(string_literal(arg.name.as_str()).as_str());
    out.append(", default: ");
    out.append(default.as_str());
    out.append(", export_info: ");
    out.append(export_info(arg).as_str());
    out.append(", usage: gdnative::nativescript::PropertyUsage::DEFAULT }");
    out
}

} // verus!
