use gdrust::error::Error;
use gdrust::error::GenerationError;
use gdrust::error::ParseErrorKind;
use gdrust::gdrust;
use gdrust::gdrust_text;
use gdrust::tokens::Tokens;

const HEALTH: &str =
    "class Foo extends Node { @export_range(0, 10, 2) var health: u8 = 10  signal died(reason: I64) }";

#[test]
fn health_and_died() {
    let code = gdrust_text(HEALTH).unwrap();
    let expected = [
        "#[derive(gdnative::NativeClass)]\n",
        "#[inherit(Node)]\n",
        "#[register_with(Self::__register_properties_and_signals)]\n",
        "pub struct Foo { health: u8, }\n",
        "impl Foo {\n",
        "pub const DIED: &'static str = \"died\";\n",
        "#[allow(clippy::default_trait_access)]\n",
        "fn new(_owner: gdnative::prelude::TRef<Node>) -> Self {\n",
        "Self { health: 10, }\n",
        "}\n",
        "#[allow(clippy::default_trait_access)]\n",
        "fn __register_properties_and_signals(builder: &gdnative::prelude::ClassBuilder<Self>) {\n",
        "builder.add_property::<u8>(\"health\")",
        ".with_hint(gdnative::nativescript::init::property::IntHint::Range(",
        "gdnative::nativescript::property::RangeHint::new(0, 10).with_step(2)))",
        ".with_ref_getter(|this, _owner| { &this.health })",
        ".with_setter(|this, _owner, val| { this.health = val })",
        ".with_default(10).done();\n",
        "builder.add_signal(gdnative::nativescript::Signal { name: \"died\", args: &[",
        "gdnative::nativescript::SignalArgument { name: \"reason\", ",
        "default: gdnative::core_types::Variant::new(), ",
        "export_info: gdnative::nativescript::ExportInfo::new(gdnative::core_types::VariantType::I64), ",
        "usage: gdnative::nativescript::PropertyUsage::DEFAULT }, ] });\n",
        "}\n",
        "}\n",
    ]
    .concat();
    assert_eq!(code, expected);
}

#[test]
fn generated_code_is_rust() {
    let code = gdrust_text(HEALTH).unwrap();
    let file = syn::parse_file(&code).unwrap();
    assert_eq!(file.items.len(), 2);
    assert!(matches!(file.items[0], syn::Item::Struct(_)));
    assert!(matches!(file.items[1], syn::Item::Impl(_)));
}

#[test]
fn same_text_gives_the_same_code() {
    let first = gdrust_text(HEALTH).unwrap();
    let second = gdrust_text(HEALTH).unwrap();
    assert_eq!(first, second);
    let tokens = Tokens::lex(HEALTH).unwrap();
    assert_eq!(gdrust(&tokens).unwrap(), first);
    assert_eq!(gdrust(&tokens.clone()).unwrap(), first);
}

#[test]
fn grammar_errors_come_as_parse_errors() {
    match gdrust_text("class Foo { var a: u8 }") {
        Err(Error::Parse(e)) => assert_eq!(e.kind, ParseErrorKind::ExpectedEquals),
        other => panic!("unexpected result {:?}", other),
    }
    let err = gdrust_text("class Foo { @wrong var a: u8 = 1 }").unwrap_err();
    assert_eq!(err.message(), "Expected a valid export type");
}

#[test]
fn hint_errors_come_as_hint_errors() {
    match gdrust_text("class Foo { @export_range(0, 10) var name: String = x }") {
        Err(Error::Generation(e)) => assert_eq!(e, GenerationError::RangeNotANumber),
        other => panic!("unexpected result {:?}", other),
    }
    let err = gdrust_text("class Foo { @export_range(0) var a: u8 = 1 }").unwrap_err();
    assert_eq!(err.message(), "Export range must contain at least a min and a max");
}

#[test]
fn grammar_error_comes_before_hint_error() {
    let result = gdrust_text("class Foo { @export_range(0) var a: u8 = 1 var b u8 = 2 }");
    assert!(matches!(result, Err(Error::Parse(_))));
}

#[test]
fn test() {
    let code = gdrust_text(
        r#"class HelloWorld extends gdnative::api::KinematicBody {
        @export var test_a: u8 = 10
        @no_export var test_b: &'static str = "Test string"
        var test_c: f32 = 10.0

        @export_range(0.0, 10.0) var simple_range: f32 = 0.0
        @export_range(0, 10, 1) var step_range: u8 = 2
        @export_range(0, 10, "or_lesser") var simple_range_or_lesser: u64 = 10
        @export_range(0.0, 10.0, 1.5, "or_lesser") var simple_range_step_or_lesser: f64 = 10.0
        @export_range(0, 10, "or_greater") var simple_range_or_greater: u64 = 10
        @export_range(0, 10, 10, "or_greater") var simple_range_step_or_greater: u64 = 10
        @export_range(0, 10, 10, "or_lesser", "or_greater") var range_with_all: u64 = 10

        @export var texture: Option<Ref<Texture>> = None
    }"#,
    );
    assert!(code.is_ok());
    assert!(syn::parse_file(&code.unwrap()).is_ok());
}

#[test]
fn every_kind_of_item_compiles() {
    let code = gdrust_text(
        r#"#[derive(Debug)]
        class HelloWorld extends Node {
        @export_enum("This", "is", "a", "test") var string_enum: String = "This".to_string()
        @export_enum("This", "will", "be", "enum", "ordinals") var int_enum: u32 = 0
        @export_file var file: String = "".to_string()
        @export_file("*.png") var png_file: String = "".to_string()
        @export_dir var dir: String = "".to_string()
        @export_global_file("*.png") var glob_file: String = "".to_string()
        @export_global_dir var glob_dir: String = "".to_string()
        @export_multiline var multiline: String = "This is multiline text".to_string()
        @export_exp_range(0.0, 10.0) var simple_exp_range: f32 = 0.0
        @export_exp_range(0, 10, 10, "or_lesser", "or_greater") var exp_range_with_all: u64 = 10
        @export var color: Color = Color::rgba(0.0, 0.0, 0.0, 0.5)
        @export_color_no_alpha var color_no_alpha: Color = Color::rgb(0.0, 0.0, 0.0)
        @export_flags("Fire", "Water", "Earth", "Wind") var spell_elements: u32 = 0
        @export_node_path(KinematicBody, RigidBody) var physics_body: NodePath = NodePath::default()
        signal my_signal(int: I64, float: F64, tex: Texture)
        signal typed_signal(bool: Bool = true, float: F64 = std::f64::consts::PI, tex: Texture)
        @export_flags_2d_physics var layers_2d_physics: u32 = 0
        @export_flags_2d_render var layers_2d_render: u32 = 0
        @export_flags_3d_physics var layers_3d_physics: u32 = 0
        @export_flags_3d_render var layers_3d_render: u32 = 0
    }"#,
    )
    .unwrap();
    let file = syn::parse_file(&code).unwrap();
    assert_eq!(file.items.len(), 2);
    assert!(code.starts_with("# [derive (Debug)]\n#[derive(gdnative::NativeClass)]\n"));
    assert!(code.contains("pub const MY_SIGNAL: &'static str = \"my_signal\";\n"));
    assert!(code.contains("pub const TYPED_SIGNAL: &'static str = \"typed_signal\";\n"));
}

#[test]
fn range_with_a_string_bound_gives_no_code() {
    match gdrust_text("class Foo { @export_range(\"a\", 10) var x: u8 = 0 }") {
        Err(Error::Parse(e)) => {
            assert_eq!(e.kind, ParseErrorKind::ExpectedNumber);
            assert_eq!(e.report(), "expected a number as the bound of a range, found `\"a\"`");
        }
        other => panic!("unexpected result {:?}", other),
    }
    let err = gdrust_text("class Foo { @export_range(0, 1.5) var x: f32 = 0.0 }").unwrap_err();
    assert_eq!(
        err.message(),
        "expected a bound of the same kind as the first bound of the range"
    );
}

#[test]
fn signal_of_underscores_gives_no_code() {
    match gdrust_text("class Foo { signal __() }") {
        Err(Error::Generation(e)) => assert_eq!(e, GenerationError::SignalConstant { index: 0 }),
        other => panic!("unexpected result {:?}", other),
    }
}
