use gdrust::compiler::compile;
use gdrust::compiler::create_struct;
use gdrust::compiler::impl_block::builder_for_property;
use gdrust::compiler::impl_block::builder_for_signal;
use gdrust::compiler::impl_block::builder_for_var;
use gdrust::compiler::impl_block::gd_impl;
use gdrust::compiler::impl_block::get_default;
use gdrust::compiler::impl_block::impl_block;
use gdrust::compiler::impl_block::properties_from_vars;
use gdrust::compiler::impl_block::property_inits;
use gdrust::compiler::impl_block::register_properties;
use gdrust::compiler::impl_block::signal_consts;
use gdrust::compiler::properties::ExportRange;
use gdrust::compiler::properties::ExportType;
use gdrust::compiler::properties::Property;
use gdrust::compiler::properties::SetGet;
use gdrust::compiler::setgets::property_getter;
use gdrust::compiler::setgets::property_setter;
use gdrust::compiler::signal_args::create_signal_arg;
use gdrust::compiler::signal_args::export_info;
use gdrust::compiler::signal_args::is_variant_type;
use gdrust::compiler::signals::SignalArgDecl;
use gdrust::compiler::signals::SignalDecl;
use gdrust::error::GenerationError;
use gdrust::parser::gdscript_class::parse_class;
use gdrust::tokens::Lit;
use gdrust::tokens::LitKind;

fn property(name: &str, ty: &str, export: ExportType) -> Property {
    let mut p = Property::new(name.to_string(), ty.to_string());
    p.export_type = export;
    p
}

fn argument(name: &str, ty: &str, default: Option<&str>) -> SignalArgDecl {
    SignalArgDecl {
        name: name.to_string(),
        ty: ty.to_string(),
        default: default.map(|d| d.to_string()),
    }
}

fn number(n: &str) -> Lit {
    Lit { kind: LitKind::Int, token: n.to_string(), value: String::new() }
}

const GETTER_A: &str = ".with_ref_getter(|this, _owner| { &this.a })";
const SETTER_A: &str = ".with_setter(|this, _owner, val| { this.a = val })";

#[test]
fn new_property_has_nothing_but_name_and_type() {
    let p = Property::new("a".to_string(), "u8".to_string());
    assert_eq!(p.name, "a");
    assert_eq!(p.ty, "u8");
    assert!(matches!(p.export_type, ExportType::NoHint));
    assert!(matches!(p.setget, SetGet::NoSetGet));
    assert_eq!(p.default, None);
}

#[test]
fn default_falls_back_to_the_default_of_the_type() {
    assert_eq!(get_default(&Some("10".to_string())), "10");
    assert_eq!(get_default(&None), "Default::default()");
}

#[test]
fn setter_and_getter_fall_back_to_the_field() {
    assert_eq!(property_setter(&SetGet::NoSetGet, "a"), SETTER_A);
    assert_eq!(property_getter(&SetGet::NoSetGet, "a"), GETTER_A);
}

#[test]
fn one_override_leaves_the_other_side_plain() {
    let only_setter = SetGet::NoSetGet.set("Self::set_a".to_string());
    assert_eq!(property_setter(&only_setter, "a"), ".with_setter(Self::set_a)");
    assert_eq!(property_getter(&only_setter, "a"), GETTER_A);
    let only_getter = SetGet::NoSetGet.get("Self::get_a".to_string());
    assert_eq!(property_setter(&only_getter, "a"), SETTER_A);
    assert_eq!(property_getter(&only_getter, "a"), ".with_ref_getter(Self::get_a)");
}

#[test]
fn getter_then_setter_equals_setter_then_getter() {
    let first = SetGet::NoSetGet.get("g".to_string()).set("s".to_string());
    let second = SetGet::NoSetGet.set("s".to_string()).get("g".to_string());
    match (&first, &second) {
        (SetGet::Both(a), SetGet::Both(b)) => {
            assert_eq!(a.setter, "s");
            assert_eq!(a.getter, "g");
            assert_eq!(b.setter, "s");
            assert_eq!(b.getter, "g");
        }
        other => panic!("unexpected methods {:?}", other),
    }
    assert_eq!(property_setter(&first, "a"), ".with_setter(s)");
    assert_eq!(property_getter(&first, "a"), ".with_ref_getter(g)");
}

#[test]
fn repeated_annotation_overwrites() {
    let twice = SetGet::NoSetGet.set("first".to_string()).set("second".to_string());
    assert!(matches!(twice, SetGet::SetterOnly(ref m) if m.method == "second"));
    let both = SetGet::NoSetGet
        .set("s1".to_string())
        .get("g1".to_string())
        .get("g2".to_string())
        .set("s2".to_string());
    assert!(matches!(both, SetGet::Both(ref m) if m.setter == "s2" && m.getter == "g2"));
}

#[test]
fn built_in_value_types() {
    for ty in [
        "Nil", "Bool", "I64", "F64", "GodotString", "Vector2", "Rect2", "Vector3", "Transform2D",
        "Plane", "Quat", "Aabb", "Basis", "Transform", "Color", "NodePath", "Rid", "Object",
        "Dictionary", "VariantArray", "ByteArray", "Int32Array", "Float32Array", "StringArray",
        "Vector2Array", "Vector3Array", "ColorArray",
    ] {
        assert!(is_variant_type(ty), "{}", ty);
    }
    for ty in ["Texture", "i64", "bool", "KinematicBody", "", "Vector4"] {
        assert!(!is_variant_type(ty), "{}", ty);
    }
}

#[test]
fn argument_type_is_a_tag_or_a_resource() {
    assert_eq!(
        export_info(&argument("a", "I64", None)),
        "gdnative::nativescript::ExportInfo::new(gdnative::core_types::VariantType::I64)"
    );
    assert_eq!(
        export_info(&argument("a", "Texture", None)),
        "gdnative::nativescript::ExportInfo::resource_type::<Texture>()"
    );
}

#[test]
fn argument_without_default_gets_the_empty_value() {
    assert_eq!(
        create_signal_arg(&argument("reason", "I64", None)),
        [
            "gdnative::nativescript::SignalArgument { name: \"reason\", ",
            "default: gdnative::core_types::Variant::new(), ",
            "export_info: gdnative::nativescript::ExportInfo::new(gdnative::core_types::VariantType::I64), ",
            "usage: gdnative::nativescript::PropertyUsage::DEFAULT }",
        ]
        .concat()
    );
}

#[test]
fn argument_with_default_converts_the_expression() {
    assert_eq!(
        create_signal_arg(&argument("tex", "Texture", Some("1 + 2"))),
        [
            "gdnative::nativescript::SignalArgument { name: \"tex\", ",
            "default: gdnative::core_types::ToVariant::to_variant(&(1 + 2)), ",
            "export_info: gdnative::nativescript::ExportInfo::resource_type::<Texture>(), ",
            "usage: gdnative::nativescript::PropertyUsage::DEFAULT }",
        ]
        .concat()
    );
}

#[test]
fn names_are_written_as_string_literals() {
    let text = create_signal_arg(&argument("say \"hi\"", "I64", None));
    assert!(text.starts_with("gdnative::nativescript::SignalArgument { name: \"say \\\"hi\\\"\", "));
}

#[test]
fn signal_constants_are_shouty() {
    let signals = vec![
        SignalDecl { name: "died".to_string(), args: vec![] },
        SignalDecl { name: "healthChanged".to_string(), args: vec![] },
        SignalDecl { name: "my_signal".to_string(), args: vec![] },
    ];
    assert_eq!(
        signal_consts(&signals).unwrap(),
        vec![
            "pub const DIED: &'static str = \"died\";\n",
            "pub const HEALTH_CHANGED: &'static str = \"healthChanged\";\n",
            "pub const MY_SIGNAL: &'static str = \"my_signal\";\n",
        ]
    );
    assert!(signal_consts(&vec![]).unwrap().is_empty());
}

#[test]
fn signal_registration_keeps_the_order_of_arguments() {
    let signal = SignalDecl {
        name: "hit".to_string(),
        args: vec![argument("first", "I64", None), argument("second", "F64", None)],
    };
    let text = builder_for_signal(&signal);
    let first = text.find("name: \"first\"").unwrap();
    let second = text.find("name: \"second\"").unwrap();
    assert!(first < second);
    assert!(text.starts_with("builder.add_signal(gdnative::nativescript::Signal { name: \"hit\", args: &["));
    assert!(text.ends_with(", ] });\n"));
    assert_eq!(
        builder_for_signal(&SignalDecl { name: "empty".to_string(), args: vec![] }),
        "builder.add_signal(gdnative::nativescript::Signal { name: \"empty\", args: &[] });\n"
    );
}

#[test]
fn property_registration() {
    let mut p = property("a", "u8", ExportType::Export);
    p.default = Some("7".to_string());
    assert_eq!(
        builder_for_property(&p).unwrap(),
        format!("builder.add_property::<u8>(\"a\"){GETTER_A}{SETTER_A}.with_default(7).done();\n")
    );
    let p = property("a", "u8", ExportType::NoHint);
    assert_eq!(
        builder_for_property(&p).unwrap(),
        format!(
            "builder.add_property::<u8>(\"a\"){GETTER_A}{SETTER_A}.with_default(Default::default()).done();\n"
        )
    );
}

#[test]
fn property_that_is_not_exported_is_not_registered() {
    let mut p = property("a", "u8", ExportType::NoExport);
    p.default = Some("7".to_string());
    assert_eq!(builder_for_property(&p).unwrap(), "");
    assert_eq!(property_inits(&vec![p]), vec!["a: 7"]);
}

#[test]
fn not_exported_property_is_a_field_and_a_constructor_line() {
    let class = parse_class(
        "class Foo { @no_export var hidden: u8 = 1 @export var seen: u8 = 2 }",
    )
    .unwrap();
    assert!(create_struct(&class).ends_with("pub struct Foo { hidden: u8, seen: u8, }\n"));
    let code = compile(&class).unwrap();
    assert!(code.contains("Self { hidden: 1, seen: 2, }"));
    assert!(code.contains("add_property::<u8>(\"seen\")"));
    assert!(!code.contains("\"hidden\""));
    assert_eq!(code.matches("add_property").count(), 1);
}

#[test]
fn broken_hint_leaves_no_statement() {
    let p = property("a", "String", ExportType::ExportRange(ExportRange { range: vec![] }));
    assert_eq!(builder_for_property(&p), Err(GenerationError::RangeNotANumber));
    let p = property("a", "u8", ExportType::ExportRange(ExportRange { range: vec![number("1")] }));
    assert_eq!(builder_for_property(&p), Err(GenerationError::RangeWithoutBounds));
}

#[test]
fn properties_are_registered_in_their_order_before_the_signals() {
    let props = vec![
        property("a", "u8", ExportType::Export),
        property("b", "u8", ExportType::NoExport),
        property("c", "u8", ExportType::Export),
    ];
    let signals = vec![
        SignalDecl { name: "s1".to_string(), args: vec![] },
        SignalDecl { name: "s2".to_string(), args: vec![] },
    ];
    let text = register_properties(&props, &signals).unwrap();
    let a = text.find("add_property::<u8>(\"a\")").unwrap();
    let c = text.find("add_property::<u8>(\"c\")").unwrap();
    let s1 = text.find("name: \"s1\"").unwrap();
    let s2 = text.find("name: \"s2\"").unwrap();
    assert!(a < c && c < s1 && s1 < s2);
    assert_eq!(text.find("\"b\""), None);
    assert!(text.starts_with(
        "#[allow(clippy::default_trait_access)]\nfn __register_properties_and_signals(builder: &gdnative::prelude::ClassBuilder<Self>) {\n"
    ));
    assert!(text.ends_with("}\n"));
}

#[test]
fn first_broken_hint_decides() {
    let props = vec![
        property("a", "u8", ExportType::ExportRange(ExportRange { range: vec![] })),
        property("b", "String", ExportType::ExportRange(ExportRange { range: vec![] })),
    ];
    assert_eq!(register_properties(&props, &vec![]), Err(GenerationError::RangeWithoutBounds));
    assert_eq!(impl_block(&props, &vec![], "Node", "Foo"), Err(GenerationError::RangeWithoutBounds));
}

#[test]
fn implementation_block() {
    let mut a = property("a", "u8", ExportType::NoExport);
    a.default = Some("1".to_string());
    let signals = vec![SignalDecl { name: "done".to_string(), args: vec![] }];
    let text = impl_block(&vec![a], &signals, "Node", "Foo").unwrap();
    assert_eq!(
        text,
        [
            "impl Foo {\n",
            "pub const DONE: &'static str = \"done\";\n",
            "#[allow(clippy::default_trait_access)]\n",
            "fn new(_owner: gdnative::prelude::TRef<Node>) -> Self {\n",
            "Self { a: 1, }\n",
            "}\n",
            "#[allow(clippy::default_trait_access)]\n",
            "fn __register_properties_and_signals(builder: &gdnative::prelude::ClassBuilder<Self>) {\n",
            "builder.add_signal(gdnative::nativescript::Signal { name: \"done\", args: &[] });\n",
            "}\n",
            "}\n",
        ]
        .concat()
    );
}

#[test]
fn declaration_becomes_property() {
    let class = parse_class("class Foo { @export var a: u8 = 7 var b: f32 = 1.0 }").unwrap();
    let props = properties_from_vars(&class.vars());
    assert_eq!(props.len(), 2);
    assert_eq!(props[0].name, "a");
    assert_eq!(props[0].ty, "u8");
    assert!(matches!(props[0].export_type, ExportType::Export));
    assert!(matches!(props[0].setget, SetGet::NoSetGet));
    assert_eq!(props[0].default.as_deref(), Some("7"));
    assert_eq!(props[1].name, "b");
    assert_eq!(
        builder_for_var(&class.vars()[0]).unwrap(),
        builder_for_property(&props[0]).unwrap()
    );
}

#[test]
fn class_code_is_struct_then_block() {
    let class = parse_class("class Foo { var a: u8 = 7 signal s() }").unwrap();
    let gd_struct = create_struct(&class);
    assert_eq!(
        gd_struct,
        [
            "#[derive(gdnative::NativeClass)]\n",
            "#[inherit(gdnative::prelude::Object)]\n",
            "#[register_with(Self::__register_properties_and_signals)]\n",
            "pub struct Foo { a: u8, }\n",
        ]
        .concat()
    );
    let block = gd_impl(&class).unwrap();
    assert!(block.starts_with("impl Foo {\npub const S: &'static str = \"s\";\n"));
    assert!(block.contains("fn new(_owner: gdnative::prelude::TRef<gdnative::prelude::Object>) -> Self {\n"));
    assert_eq!(compile(&class).unwrap(), format!("{}{}", gd_struct, block));
}

#[test]
fn signal_without_a_name_for_its_constant_is_refused() {
    let signals = vec![
        SignalDecl { name: "fine".to_string(), args: vec![] },
        SignalDecl { name: "__".to_string(), args: vec![] },
        SignalDecl { name: "_".to_string(), args: vec![] },
    ];
    let err = signal_consts(&signals).unwrap_err();
    assert_eq!(err, GenerationError::SignalConstant { index: 1 });
    assert_eq!(
        err.message(),
        "The name of a signal must give an identifier in upper case for its constant"
    );
    assert_eq!(
        impl_block(&vec![], &signals, "Node", "Foo"),
        Err(GenerationError::SignalConstant { index: 1 })
    );
    let class = parse_class("class Foo { var a: u8 = 1 signal __() }").unwrap();
    assert_eq!(gd_impl(&class), Err(GenerationError::SignalConstant { index: 0 }));
    assert_eq!(compile(&class), Err(GenerationError::SignalConstant { index: 0 }));
    let named = vec![SignalDecl { name: "_a".to_string(), args: vec![] }];
    assert_eq!(signal_consts(&named).unwrap(), vec!["pub const A: &'static str = \"_a\";\n"]);
}

#[test]
fn hint_is_judged_before_the_constants() {
    let props =
        vec![property("a", "String", ExportType::ExportRange(ExportRange { range: vec![] }))];
    let signals = vec![SignalDecl { name: "__".to_string(), args: vec![] }];
    assert_eq!(impl_block(&props, &signals, "Node", "Foo"), Err(GenerationError::RangeNotANumber));
}
