use gdrust::compiler::properties::ExportType;
use gdrust::compiler::signals::SignalDecl;
use gdrust::error::Found;
use gdrust::error::ParseErrorKind;
use gdrust::parser::gdscript_class::parse_class;
use gdrust::parser::gdscript_class::GdScriptClass;
use gdrust::parser::gdscript_items::GdScriptItem;
use gdrust::parser::gdscript_signal::next_is_signal;
use gdrust::parser::gdscript_signal::parse_signal_decl;
use gdrust::parser::gdscript_signal::GdScriptSignal;
use gdrust::parser::gdscript_var::next_is_var;
use gdrust::parser::gdscript_var::GdScriptVar;
use gdrust::tokens::Delim;
use gdrust::tokens::LitKind;
use gdrust::tokens::Tokens;
use gdrust::tokens::Token;

fn stream(src: &str) -> Tokens {
    Tokens::lex(src).unwrap()
}

fn text(tokens: &Tokens) -> String {
    tokens.stream().to_string()
}

fn hint_of(src: &str) -> ExportType {
    let (hint, _) = ExportType::parse(&stream(src)).unwrap();
    hint
}

fn var_of(src: &str) -> GdScriptVar {
    let (var, rest) = GdScriptVar::parse(&stream(src)).unwrap();
    assert!(rest.is_empty());
    var
}

fn tokens_of(lits: &[gdrust::tokens::Lit]) -> Vec<String> {
    lits.iter().map(|l| l.token.clone()).collect()
}

fn values_of(lits: &[gdrust::tokens::Lit]) -> Vec<String> {
    lits.iter().map(|l| l.value.clone()).collect()
}

#[test]
fn class_with_property_and_signal() {
    let class = parse_class(
        "class Foo extends Node { @export_range(0, 10, 2) var health: u8 = 10  signal died(reason: I64) }",
    )
    .unwrap();
    assert_eq!(class.name, "Foo");
    assert_eq!(class.extends.as_deref(), Some("Node"));
    assert_eq!(class.parent(), "Node");
    assert!(class.attributes.is_empty());
    assert_eq!(class.items.len(), 2);
    match &class.items[0] {
        GdScriptItem::Variable(var) => {
            assert_eq!(var.var_name, "health");
            assert_eq!(var.ty, "u8");
            assert_eq!(var.value, "10");
            match &var.export {
                ExportType::ExportRange(range) => {
                    assert_eq!(tokens_of(&range.range), vec!["0", "10", "2"]);
                    assert!(range.range.iter().all(|l| l.kind == LitKind::Int));
                }
                other => panic!("unexpected hint {:?}", other),
            }
        }
        other => panic!("unexpected item {:?}", other),
    }
    match &class.items[1] {
        GdScriptItem::Signal(signal) => {
            assert_eq!(signal.name, "died");
            assert_eq!(signal.args.len(), 1);
            assert_eq!(signal.args[0].name, "reason");
            assert_eq!(signal.args[0].ty, "I64");
            assert_eq!(signal.args[0].default, None);
        }
        other => panic!("unexpected item {:?}", other),
    }
}

#[test]
fn no_marker_is_no_hint_and_reads_nothing() {
    let (hint, rest) = ExportType::parse(&stream("var a: u8 = 1")).unwrap();
    assert!(matches!(hint, ExportType::NoHint));
    assert_eq!(text(&rest), text(&stream("var a: u8 = 1")));
}

#[test]
fn hints_without_arguments() {
    assert!(matches!(hint_of("@export"), ExportType::Export));
    assert!(matches!(hint_of("@no_export"), ExportType::NoExport));
    assert!(matches!(hint_of("@export_dir"), ExportType::ExportDir));
    assert!(matches!(hint_of("@export_global_dir"), ExportType::ExportGlobalDir));
    assert!(matches!(hint_of("@export_multiline"), ExportType::ExportMultiline));
    assert!(matches!(hint_of("@export_color_no_alpha"), ExportType::ExportColorNoAlpha));
    assert!(matches!(hint_of("@export_flags_2d_physics"), ExportType::ExportFlags2dPhysics));
    assert!(matches!(hint_of("@export_flags_2d_render"), ExportType::ExportFlags2dRender));
    assert!(matches!(hint_of("@export_flags_3d_physics"), ExportType::ExportFlags3dPhysics));
    assert!(matches!(hint_of("@export_flags_3d_render"), ExportType::ExportFlags3dRender));
}

#[test]
fn hint_leaves_the_declaration_behind_it() {
    let (hint, rest) = ExportType::parse(&stream("@export_dir var d: String = x")).unwrap();
    assert!(matches!(hint, ExportType::ExportDir));
    assert_eq!(text(&rest), text(&stream("var d: String = x")));
}

#[test]
fn range_hints_keep_every_argument() {
    match hint_of("@export_range(0.0, 10.0, 1.5, \"or_lesser\")") {
        ExportType::ExportRange(r) => {
            assert_eq!(tokens_of(&r.range), vec!["0.0", "10.0", "1.5", "\"or_lesser\""]);
            let kinds: Vec<LitKind> = r.range.iter().map(|l| l.kind).collect();
            assert_eq!(kinds, vec![LitKind::Float, LitKind::Float, LitKind::Float, LitKind::Str]);
            assert_eq!(r.range[3].value, "or_lesser");
            assert_eq!(r.range[0].value, "");
        }
        other => panic!("unexpected hint {:?}", other),
    }
    match hint_of("@export_exp_range(1, 100, )") {
        ExportType::ExportExpRange(r) => assert_eq!(tokens_of(&r.range), vec!["1", "100"]),
        other => panic!("unexpected hint {:?}", other),
    }
    match hint_of("@export_range()") {
        ExportType::ExportRange(r) => assert!(r.range.is_empty()),
        other => panic!("unexpected hint {:?}", other),
    }
    match hint_of("@export_range(0, 10, true, 'c')") {
        ExportType::ExportRange(r) => {
            assert_eq!(r.range[2].kind, LitKind::Other);
            assert_eq!(r.range[3].kind, LitKind::Other);
        }
        other => panic!("unexpected hint {:?}", other),
    }
}

#[test]
fn negative_numbers_are_literals() {
    match hint_of("@export_range(-10, 10)") {
        ExportType::ExportRange(r) => {
            assert_eq!(r.range.len(), 2);
            assert_eq!(r.range[0].kind, LitKind::Int);
            assert_eq!(r.range[0].token.replace(' ', ""), "-10");
        }
        other => panic!("unexpected hint {:?}", other),
    }
}

#[test]
fn enum_and_flags_take_strings_only() {
    match hint_of("@export_enum(\"a\", \"b\", \"c\")") {
        ExportType::ExportEnum(e) => {
            assert_eq!(values_of(&e.values), vec!["a", "b", "c"]);
            assert_eq!(tokens_of(&e.values), vec!["\"a\"", "\"b\"", "\"c\""]);
        }
        other => panic!("unexpected hint {:?}", other),
    }
    match hint_of("@export_flags(\"Fire\", \"Water\")") {
        ExportType::ExportFlags(f) => assert_eq!(values_of(&f.values), vec!["Fire", "Water"]),
        other => panic!("unexpected hint {:?}", other),
    }
    let err = ExportType::parse(&stream("@export_enum(\"a\", 2)")).unwrap_err();
    assert_eq!(err.kind, ParseErrorKind::ExpectedStringLiteral);
    assert!(matches!(err.found, Found::Literal(ref l) if l == "2"));
    let err = ExportType::parse(&stream("@export_enum \"a\"")).unwrap_err();
    assert_eq!(err.kind, ParseErrorKind::ExpectedParentheses);
    let err = ExportType::parse(&stream("@export_flags(\"a\" \"b\")")).unwrap_err();
    assert_eq!(err.kind, ParseErrorKind::ExpectedComma);
}

#[test]
fn file_hints_take_an_optional_filter() {
    match hint_of("@export_file") {
        ExportType::ExportFile(f) => assert!(f.filter.is_none()),
        other => panic!("unexpected hint {:?}", other),
    }
    match hint_of("@export_file(\"*.png\")") {
        ExportType::ExportFile(f) => assert_eq!(f.filter.unwrap().value, "*.png"),
        other => panic!("unexpected hint {:?}", other),
    }
    match hint_of("@export_global_file(\"*.txt\")") {
        ExportType::ExportGlobalFile(f) => assert_eq!(f.filter.unwrap().token, "\"*.txt\""),
        other => panic!("unexpected hint {:?}", other),
    }
    match hint_of("@export_global_file") {
        ExportType::ExportGlobalFile(f) => assert!(f.filter.is_none()),
        other => panic!("unexpected hint {:?}", other),
    }
    let err = ExportType::parse(&stream("@export_file(\"a\" \"b\")")).unwrap_err();
    assert_eq!(err.kind, ParseErrorKind::UnexpectedToken);
    assert!(matches!(err.found, Found::Literal(ref l) if l == "\"b\""));
    let err = ExportType::parse(&stream("@export_file(1)")).unwrap_err();
    assert_eq!(err.kind, ParseErrorKind::ExpectedStringLiteral);
    let err = ExportType::parse(&stream("@export_file()")).unwrap_err();
    assert_eq!(err.kind, ParseErrorKind::ExpectedStringLiteral);
    assert!(matches!(err.found, Found::End));
}

#[test]
fn node_path_takes_types() {
    match hint_of("@export_node_path(KinematicBody, RigidBody)") {
        ExportType::ExportNodePath(p) => assert_eq!(p.types, vec!["KinematicBody", "RigidBody"]),
        other => panic!("unexpected hint {:?}", other),
    }
    let err = ExportType::parse(&stream("@export_node_path var a: NodePath = x")).unwrap_err();
    assert_eq!(err.kind, ParseErrorKind::ExpectedParentheses);
    let err = ExportType::parse(&stream("@export_node_path(1)")).unwrap_err();
    assert_eq!(err.kind, ParseErrorKind::ExpectedType);
}

#[test]
fn unknown_hint_is_refused() {
    let err = parse_class("class Foo { @export_nothing var a: u8 = 1 }").unwrap_err();
    assert_eq!(err.kind, ParseErrorKind::ExpectedExportType);
    assert!(matches!(err.found, Found::Ident(ref w) if w == "export_nothing"));
    assert_eq!(err.kind.message(), "Expected a valid export type");
    let err = ExportType::parse(&stream("@ 3")).unwrap_err();
    assert_eq!(err.kind, ParseErrorKind::ExpectedExportType);
    assert!(matches!(err.found, Found::Literal(ref l) if l == "3"));
    let err = ExportType::parse(&stream("@")).unwrap_err();
    assert_eq!(err.kind, ParseErrorKind::ExpectedExportType);
    assert!(matches!(err.found, Found::End));
}

#[test]
fn declaration_needs_name_type_and_default() {
    let var = var_of("var texture: Option<Ref<Texture>> = None");
    assert!(matches!(var.export, ExportType::NoHint));
    assert_eq!(var.var_name, "texture");
    assert_eq!(var.ty.replace(' ', ""), "Option<Ref<Texture>>");
    assert_eq!(var.value, "None");

    let var = var_of("@export var color: Color = Color::rgba(0.0, 0.0, 0.0, 0.5)");
    assert!(matches!(var.export, ExportType::Export));
    assert_eq!(var.value.replace(' ', ""), "Color::rgba(0.0,0.0,0.0,0.5)");

    let err = GdScriptVar::parse(&stream("var a u8 = 1")).unwrap_err();
    assert_eq!(err.kind, ParseErrorKind::ExpectedColon);
    assert!(matches!(err.found, Found::Ident(ref w) if w == "u8"));
    let err = GdScriptVar::parse(&stream("var a: = 1")).unwrap_err();
    assert_eq!(err.kind, ParseErrorKind::ExpectedType);
    assert!(matches!(err.found, Found::Punct('=')));
    let err = GdScriptVar::parse(&stream("var a: u8")).unwrap_err();
    assert_eq!(err.kind, ParseErrorKind::ExpectedEquals);
    assert!(matches!(err.found, Found::End));
    let err = GdScriptVar::parse(&stream("var a: u8 =")).unwrap_err();
    assert_eq!(err.kind, ParseErrorKind::ExpectedExpression);
    let err = GdScriptVar::parse(&stream("@export a: u8 = 1")).unwrap_err();
    assert_eq!(err.kind, ParseErrorKind::ExpectedVar);
    let err = GdScriptVar::parse(&stream("var (a): u8 = 1")).unwrap_err();
    assert_eq!(err.kind, ParseErrorKind::ExpectedIdentifier);
    assert!(matches!(err.found, Found::Group(Delim::Paren)));
}

#[test]
fn reserved_word_is_no_name() {
    let err = GdScriptVar::parse(&stream("var fn: u8 = 1")).unwrap_err();
    assert_eq!(err.kind, ParseErrorKind::ExpectedIdentifier);
    assert!(matches!(err.found, Found::Ident(ref w) if w == "fn"));
    assert!(GdScriptVar::parse(&stream("var fun: u8 = 1")).is_ok());
}

#[test]
fn declaration_ends_where_the_default_ends() {
    let (var, rest) = GdScriptVar::parse(&stream("var a: u8 = 1 + 2 var b: u8 = 3")).unwrap();
    assert_eq!(var.value.replace(' ', ""), "1+2");
    assert_eq!(text(&rest), text(&stream("var b: u8 = 3")));
}

#[test]
fn signal_declaration_starts_with_its_word() {
    let (signal, rest) = parse_signal_decl(&stream("signal hit(by: Object) var a: u8 = 1")).unwrap();
    let signal: GdScriptSignal = signal;
    assert_eq!(signal.name, "hit");
    assert_eq!(signal.args.len(), 1);
    assert_eq!(text(&rest), text(&stream("var a: u8 = 1")));
    let err = parse_signal_decl(&stream("hit()")).unwrap_err();
    assert_eq!(err.kind, ParseErrorKind::ExpectedVarOrSignal);
}

#[test]
fn signals_with_and_without_arguments() {
    let (signal, rest) = SignalDecl::parse(&stream("empty()")).unwrap();
    assert_eq!(signal.name, "empty");
    assert!(signal.args.is_empty());
    assert!(rest.is_empty());

    let (signal, _) = SignalDecl::parse(&stream(
        "typed_signal(bool: Bool = true, float: F64 = std::f64::consts::PI, tex: Texture,)",
    ))
    .unwrap();
    assert_eq!(signal.args.len(), 3);
    assert_eq!(signal.args[0].name, "bool");
    assert_eq!(signal.args[0].ty, "Bool");
    assert_eq!(signal.args[0].default.as_deref(), Some("true"));
    assert_eq!(
        signal.args[1].default.as_ref().map(|d| d.replace(' ', "")),
        Some("std::f64::consts::PI".to_string())
    );
    assert_eq!(signal.args[2].name, "tex");
    assert_eq!(signal.args[2].default, None);

    let err = SignalDecl::parse(&stream("bad(a: I64 b: I64)")).unwrap_err();
    assert_eq!(err.kind, ParseErrorKind::ExpectedComma);
    let err = SignalDecl::parse(&stream("bad(a I64)")).unwrap_err();
    assert_eq!(err.kind, ParseErrorKind::ExpectedColon);
    let err = SignalDecl::parse(&stream("bad")).unwrap_err();
    assert_eq!(err.kind, ParseErrorKind::ExpectedParentheses);
    let err = SignalDecl::parse(&stream("bad(a: I64 = )")).unwrap_err();
    assert_eq!(err.kind, ParseErrorKind::ExpectedExpression);
}

#[test]
fn items_are_told_apart_by_their_first_token() {
    assert!(next_is_signal(&stream("signal a()")));
    assert!(!next_is_signal(&stream("var a: u8 = 1")));
    assert!(next_is_var(&stream("var a: u8 = 1")));
    assert!(next_is_var(&stream("@export var a: u8 = 1")));
    assert!(!next_is_var(&stream("signal a()")));
    assert!(!next_is_var(&stream("")));

    let err = parse_class("class Foo { fn a() {} }").unwrap_err();
    assert_eq!(err.kind, ParseErrorKind::ExpectedVarOrSignal);
    assert_eq!(err.kind.message(), "Expected either a var or a signal");
    assert!(matches!(err.found, Found::Ident(ref w) if w == "fn"));
}

#[test]
fn parent_defaults_to_the_base_object() {
    let class = parse_class("class Foo { }").unwrap();
    assert_eq!(class.extends, None);
    assert_eq!(class.parent(), "gdnative::prelude::Object");
    assert!(class.items.is_empty());
    let class = parse_class("class Foo extends gdnative::api::Node { }").unwrap();
    assert_eq!(class.parent().replace(' ', ""), "gdnative::api::Node");
}

#[test]
fn views_keep_the_order_of_declaration() {
    let class = parse_class(
        "class Foo { var a: u8 = 1 signal s1() @export var b: u8 = 2 signal s2(x: I64) var c: u8 = 3 }",
    )
    .unwrap();
    let vars: Vec<String> = class.vars().iter().map(|v| v.var_name.clone()).collect();
    assert_eq!(vars, vec!["a", "b", "c"]);
    let signals: Vec<String> = class.signals().iter().map(|s| s.name.clone()).collect();
    assert_eq!(signals, vec!["s1", "s2"]);
    assert_eq!(class.items.len(), 5);
    assert!(matches!(class.items[1], GdScriptItem::Signal(_)));
    assert!(matches!(class.items[2], GdScriptItem::Variable(_)));
}

#[test]
fn braces_may_be_left_out() {
    let with = parse_class("class Foo extends Node { var a: u8 = 1 signal s() }").unwrap();
    let without = parse_class("class Foo extends Node var a: u8 = 1 signal s()").unwrap();
    assert_eq!(format!("{:?}", with), format!("{:?}", without));
}

#[test]
fn nothing_may_follow_the_class() {
    let err = parse_class("class Foo { var a: u8 = 1 } var b: u8 = 2").unwrap_err();
    assert_eq!(err.kind, ParseErrorKind::UnexpectedToken);
    assert!(matches!(err.found, Found::Ident(ref w) if w == "var"));
    assert_eq!(err.kind.message(), "unexpected token");
}

#[test]
fn class_header_errors() {
    let err = parse_class("struct Foo { }").unwrap_err();
    assert_eq!(err.kind, ParseErrorKind::ExpectedClass);
    assert!(matches!(err.found, Found::Ident(ref w) if w == "struct"));
    let err = parse_class("class { }").unwrap_err();
    assert_eq!(err.kind, ParseErrorKind::ExpectedIdentifier);
    let err = parse_class("class Foo extends { }").unwrap_err();
    assert_eq!(err.kind, ParseErrorKind::ExpectedType);
    let err = parse_class("").unwrap_err();
    assert_eq!(err.kind, ParseErrorKind::ExpectedClass);
    assert!(matches!(err.found, Found::End));
}

#[test]
fn attributes_of_the_class_are_kept() {
    let class = parse_class("#[derive(Debug)] #[allow(dead_code)] class Foo { }").unwrap();
    let attrs: Vec<String> = class.attributes.iter().map(|a| a.replace(' ', "")).collect();
    assert_eq!(attrs, vec!["#[derive(Debug)]", "#[allow(dead_code)]"]);
    let err = parse_class("# class Foo { }").unwrap_err();
    assert_eq!(err.kind, ParseErrorKind::InvalidAttribute);
}

#[test]
fn text_that_is_no_tokens_is_refused() {
    let err = parse_class("class Foo { var a: u8 = (1 }").unwrap_err();
    assert_eq!(err.kind, ParseErrorKind::InvalidTokens);
    assert!(matches!(err.found, Found::End));
    assert_eq!(err.kind.message(), "cannot split the input into tokens");
}

#[test]
fn first_error_wins() {
    let err = parse_class("class Foo { var a u8 = 1 @bogus var b: u8 = 2 }").unwrap_err();
    assert_eq!(err.kind, ParseErrorKind::ExpectedColon);
}

#[test]
fn class_from_a_stream() {
    let class = GdScriptClass::parse(&stream("class A extends B { signal s() }")).unwrap();
    assert_eq!(class.name, "A");
    assert_eq!(class.signals().len(), 1);
    assert!(class.vars().is_empty());
}

#[test]
fn readable_stream_is_read_token_by_token() {
    let tokens = stream("a :: (b) 1");
    assert!(!tokens.is_empty());
    let (first, rest) = tokens.first().unwrap();
    assert!(matches!(first, Token::Ident(ref name) if name == "a"));
    let (second, rest) = rest.first().unwrap();
    assert!(matches!(second, Token::Punct(':', true)));
    let (third, rest) = rest.first().unwrap();
    assert!(matches!(third, Token::Punct(':', false)));
    let (fourth, rest) = rest.first().unwrap();
    match fourth {
        Token::Group(Delim::Paren, content) => assert_eq!(content.to_string(), "b"),
        other => panic!("unexpected token {:?}", other),
    }
    let (fifth, rest) = rest.first().unwrap();
    assert!(matches!(fifth, Token::Literal(ref l) if l == "1"));
    assert!(rest.is_empty());
    assert!(rest.first().is_none());
    assert_eq!(text(&tokens.clone()), text(&tokens));
    assert!(Tokens::lex("(").is_none());
}

#[test]
fn readable_stream_gives_types_expressions_paths_and_literals() {
    let (ty, rest) = stream("Vec<u8> = 1").take_type().unwrap();
    assert_eq!(ty.replace(' ', ""), "Vec<u8>");
    assert_eq!(text(&rest), text(&stream("= 1")));
    assert!(stream("= 1").take_type().is_none());
    let (value, rest) = stream("a.b(1) c").take_expr().unwrap();
    assert_eq!(value.replace(' ', ""), "a.b(1)");
    assert_eq!(text(&rest), "c");
    assert!(stream(", a").take_expr().is_none());
    let (method, rest) = stream("Self::set_a, x").take_path().unwrap();
    assert_eq!(method.replace(' ', ""), "Self::set_a");
    assert_eq!(text(&rest), text(&stream(", x")));
    assert!(stream("1").take_path().is_none());
    let (lit, rest) = stream("\"a\\n\" 2").take_lit().unwrap();
    assert_eq!(lit.kind, LitKind::Str);
    assert_eq!(lit.value, "a\n");
    assert_eq!(lit.token, "\"a\\n\"");
    assert_eq!(text(&rest), "2");
    let (lit, _) = stream("1.5").take_lit().unwrap();
    assert_eq!(lit.kind, LitKind::Float);
    assert!(stream("x").take_lit().is_none());
    let (attrs, rest) = stream("#[a] #[b(c)] class").take_outer_attrs().unwrap();
    assert_eq!(attrs.len(), 2);
    assert_eq!(text(&rest), "class");
    let (attrs, _) = stream("class").take_outer_attrs().unwrap();
    assert!(attrs.is_empty());
}

#[test]
fn report_names_the_rule_and_the_token() {
    let err = parse_class("class Foo { var a u8 = 1 }").unwrap_err();
    assert_eq!(err.report(), "expected `:`, found `u8`");
    let err = parse_class("class Foo { var a: u8 ; }").unwrap_err();
    assert_eq!(err.report(), "expected `=`, found `;`");
    let err = parse_class("class Foo { var a: u8 }").unwrap_err();
    assert_eq!(err.report(), "expected `=`, found the end of the input");
    let err = parse_class("class Foo { var (a): u8 = 1 }").unwrap_err();
    assert_eq!(err.report(), "expected identifier, found parentheses");
    let err = parse_class("class Foo { @export_enum(1) var a: u8 = 1 }").unwrap_err();
    assert_eq!(err.report(), "expected string literal, found `1`");
    let err = parse_class("class Foo { @export_this var a: u8 = 1 }").unwrap_err();
    assert_eq!(err.report(), "Expected a valid export type, found `export_this`");
    let err = parse_class("class Foo { [a] }").unwrap_err();
    assert_eq!(err.report(), "Expected either a var or a signal, found brackets");
    let err = parse_class("class Foo { signal a() {} }").unwrap_err();
    assert_eq!(err.report(), "Expected either a var or a signal, found braces");
}

#[test]
fn range_takes_literals_only() {
    let err = ExportType::parse(&stream("@export_range(a, 10)")).unwrap_err();
    assert_eq!(err.kind, ParseErrorKind::ExpectedLiteral);
    assert!(matches!(err.found, Found::Ident(ref w) if w == "a"));
    assert_eq!(err.report(), "expected literal, found `a`");
    let err = ExportType::parse(&stream("@export_range(0 10)")).unwrap_err();
    assert_eq!(err.kind, ParseErrorKind::ExpectedComma);
    let err = ExportType::parse(&stream("@export_range[0, 10]")).unwrap_err();
    assert_eq!(err.kind, ParseErrorKind::ExpectedParentheses);
    assert!(matches!(err.found, Found::Group(Delim::Bracket)));
}

#[test]
fn first_bound_of_a_range_is_a_number() {
    let err = ExportType::parse(&stream("@export_range(\"a\", 10) var x: u8 = 0")).unwrap_err();
    assert_eq!(err.kind, ParseErrorKind::ExpectedNumber);
    assert!(matches!(err.found, Found::Literal(ref l) if l == "\"a\""));
    assert_eq!(err.report(), "expected a number as the bound of a range, found `\"a\"`");
    let err = parse_class("class Foo { @export_range(\"a\", 10) var x: u8 = 0 }").unwrap_err();
    assert_eq!(err.kind, ParseErrorKind::ExpectedNumber);
    let err = ExportType::parse(&stream("@export_exp_range(true, 10)")).unwrap_err();
    assert_eq!(err.kind, ParseErrorKind::ExpectedNumber);
    assert!(matches!(err.found, Found::Literal(ref l) if l == "true"));
    let err = ExportType::parse(&stream("@export_range(\"or_lesser\")")).unwrap_err();
    assert_eq!(err.kind, ParseErrorKind::ExpectedNumber);
    let err = ExportType::parse(&stream("@export_range('c', 'd')")).unwrap_err();
    assert_eq!(err.kind, ParseErrorKind::ExpectedNumber);
}

#[test]
fn second_bound_of_a_range_is_of_the_kind_of_the_first() {
    let err = ExportType::parse(&stream("@export_range(0, 10.0)")).unwrap_err();
    assert_eq!(err.kind, ParseErrorKind::ExpectedSameKind);
    assert!(matches!(err.found, Found::Literal(ref l) if l == "10.0"));
    assert_eq!(
        err.report(),
        "expected a bound of the same kind as the first bound of the range, found `10.0`"
    );
    let err = ExportType::parse(&stream("@export_exp_range(0.5, 10, 1)")).unwrap_err();
    assert_eq!(err.kind, ParseErrorKind::ExpectedSameKind);
    assert!(matches!(err.found, Found::Literal(ref l) if l == "10"));
    let err = ExportType::parse(&stream("@export_range(0, \"or_greater\")")).unwrap_err();
    assert_eq!(err.kind, ParseErrorKind::ExpectedSameKind);
    assert!(matches!(err.found, Found::Literal(ref l) if l == "\"or_greater\""));
}

#[test]
fn bounds_that_are_not_there_are_not_judged() {
    assert!(matches!(hint_of("@export_range()"), ExportType::ExportRange(ref r) if r.range.is_empty()));
    assert!(matches!(hint_of("@export_range(0)"), ExportType::ExportRange(ref r) if r.range.len() == 1));
    assert!(matches!(hint_of("@export_range(0.5)"), ExportType::ExportRange(ref r) if r.range.len() == 1));
    assert!(matches!(hint_of("@export_range(-1, 1)"), ExportType::ExportRange(_)));
    assert!(matches!(hint_of("@export_range(-1.0, 1.0)"), ExportType::ExportRange(_)));
    assert!(matches!(hint_of("@export_range(0, 10, 0.5)"), ExportType::ExportRange(_)));
    assert!(matches!(hint_of("@export_exp_range(0u8, 10u8)"), ExportType::ExportExpRange(_)));
}

#[test]
fn list_is_read_before_its_bounds_are_judged() {
    let err = ExportType::parse(&stream("@export_range(\"a\", 10 11)")).unwrap_err();
    assert_eq!(err.kind, ParseErrorKind::ExpectedComma);
    let err = ExportType::parse(&stream("@export_range(\"a\", b)")).unwrap_err();
    assert_eq!(err.kind, ParseErrorKind::ExpectedLiteral);
}

#[test]
fn text_lexes_to_readable_streams_at_every_depth() {
    let class = parse_class(
        "class Foo { @export_range(((0)), 10) var a: u8 = f([{ (1) }]) signal s(a: Vec<(u8, [u8; 2])>) }",
    );
    assert_eq!(class.unwrap_err().kind, ParseErrorKind::ExpectedLiteral);
    let class = parse_class("class Foo { var a: u8 = f([{ (1) }]) signal s(a: Vec<(u8, [u8; 2])>) }");
    assert!(class.is_ok());
    assert_eq!(
        ParseErrorKind::InvisibleGroup.message(),
        "cannot read a group without brackets"
    );
}
