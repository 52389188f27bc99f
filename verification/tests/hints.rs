use gdrust::compiler::hints::export_enum_hint;
use gdrust::compiler::hints::export_exp_range_hint;
use gdrust::compiler::hints::export_file_hint;
use gdrust::compiler::hints::export_flags_hint;
use gdrust::compiler::hints::export_global_file_hint;
use gdrust::compiler::hints::export_range_hint;
use gdrust::compiler::hints::export_range_hint_helper;
use gdrust::compiler::hints::is_float;
use gdrust::compiler::hints::is_int;
use gdrust::compiler::hints::is_number;
use gdrust::compiler::hints::property_hint;
use gdrust::compiler::hints::range_modifiers;
use gdrust::compiler::properties::ExportEnum;
use gdrust::compiler::properties::ExportExpRange;
use gdrust::compiler::properties::ExportFile;
use gdrust::compiler::properties::ExportFlags;
use gdrust::compiler::properties::ExportGlobalFile;
use gdrust::compiler::properties::ExportNodePath;
use gdrust::compiler::properties::ExportRange;
use gdrust::compiler::properties::ExportType;
use gdrust::error::GenerationError;
use gdrust::tokens::Lit;
use gdrust::tokens::LitKind;

const P: &str = "gdnative::nativescript::init::property::";
const RANGE: &str = "gdnative::nativescript::property::RangeHint::new";

fn whole(n: &str) -> Lit {
    Lit { kind: LitKind::Int, token: n.to_string(), value: String::new() }
}

fn decimal(n: &str) -> Lit {
    Lit { kind: LitKind::Float, token: n.to_string(), value: String::new() }
}

fn text(s: &str) -> Lit {
    Lit { kind: LitKind::Str, token: format!("\"{}\"", s), value: s.to_string() }
}

fn other(s: &str) -> Lit {
    Lit { kind: LitKind::Other, token: s.to_string(), value: String::new() }
}

#[test]
fn number_types() {
    for ty in ["u8", "u16", "u32", "u64", "u128", "usize", "i8", "i16", "i32", "i64", "i128", "isize"] {
        assert!(is_int(ty), "{}", ty);
        assert!(!is_float(ty), "{}", ty);
        assert!(is_number(ty), "{}", ty);
    }
    for ty in ["f32", "f64"] {
        assert!(!is_int(ty), "{}", ty);
        assert!(is_float(ty), "{}", ty);
        assert!(is_number(ty), "{}", ty);
    }
    for ty in ["String", "bool", "U8", "u 8", "", "Option < u8 >", "f16"] {
        assert!(!is_number(ty), "{}", ty);
    }
}

#[test]
fn range_on_a_float_takes_the_float_path() {
    let hint = export_range_hint_helper(&vec![whole("0"), whole("10")], "f32", false).unwrap();
    assert_eq!(
        hint,
        format!(".with_hint({P}FloatHint::Range({RANGE}(0.into(), 10.into())))")
    );
}

#[test]
fn range_on_an_integer_takes_the_integer_path() {
    let hint = export_range_hint_helper(&vec![whole("0"), whole("10")], "i64", false).unwrap();
    assert_eq!(hint, format!(".with_hint({P}IntHint::Range({RANGE}(0, 10)))"));
}

#[test]
fn range_on_a_string_is_refused() {
    let err = export_range_hint_helper(&vec![whole("0"), whole("10")], "String", false).unwrap_err();
    assert_eq!(err, GenerationError::RangeNotANumber);
    assert_eq!(err.message(), "Export range must be a number (int, float)");
}

#[test]
fn range_with_one_bound_is_refused() {
    let err = export_range_hint_helper(&vec![whole("0")], "u8", false).unwrap_err();
    assert_eq!(err, GenerationError::RangeWithoutBounds);
    assert_eq!(err.message(), "Export range must contain at least a min and a max");
    let err = export_range_hint_helper(&vec![], "u8", true).unwrap_err();
    assert_eq!(err, GenerationError::RangeWithoutBounds);
}

#[test]
fn type_is_judged_before_bounds_and_bounds_before_modifiers() {
    let err = export_range_hint_helper(&vec![whole("0")], "String", false).unwrap_err();
    assert_eq!(err, GenerationError::RangeNotANumber);
    let err = export_range_hint_helper(&vec![text("x")], "u8", false).unwrap_err();
    assert_eq!(err, GenerationError::RangeWithoutBounds);
}

#[test]
fn both_clamp_markers_in_either_order() {
    let forward = export_range_hint_helper(
        &vec![whole("0"), whole("10"), text("or_lesser"), text("or_greater")],
        "u64",
        false,
    )
    .unwrap();
    let backward = export_range_hint_helper(
        &vec![whole("0"), whole("10"), text("or_greater"), text("or_lesser")],
        "u64",
        false,
    )
    .unwrap();
    assert_eq!(
        forward,
        format!(".with_hint({P}IntHint::Range({RANGE}(0, 10).or_lesser().or_greater()))")
    );
    assert_eq!(forward, backward);
    let m = range_modifiers(&vec![whole("0"), whole("10"), text("or_greater"), text("or_lesser")])
        .unwrap();
    assert!(m.or_lesser);
    assert!(m.or_greater);
    assert_eq!(m.step, None);
}

#[test]
fn step_comes_before_the_clamps() {
    let hint = export_range_hint_helper(
        &vec![decimal("0.0"), decimal("10.0"), text("or_greater"), decimal("1.5")],
        "f64",
        true,
    )
    .unwrap();
    assert_eq!(
        hint,
        format!(
            ".with_hint({P}FloatHint::ExpRange({RANGE}(0.0.into(), 10.0.into()).with_step(1.5).or_greater()))"
        )
    );
}

#[test]
fn last_step_wins() {
    let m = range_modifiers(&vec![whole("0"), whole("10"), whole("2"), text("or_lesser"), whole("5")])
        .unwrap();
    assert_eq!(m.step.as_deref(), Some("5"));
    assert!(m.or_lesser);
    assert!(!m.or_greater);
    let hint = export_range_hint_helper(&vec![whole("0"), whole("10"), whole("2"), whole("5")], "u8", false)
        .unwrap();
    assert_eq!(hint, format!(".with_hint({P}IntHint::Range({RANGE}(0, 10).with_step(5)))"));
}

#[test]
fn bounds_are_no_modifiers() {
    let m = range_modifiers(&vec![text("or_lesser"), other("true")]).unwrap();
    assert_eq!(m.step, None);
    assert!(!m.or_lesser);
    assert!(!m.or_greater);
    let m = range_modifiers(&vec![]).unwrap();
    assert_eq!(m.step, None);
}

#[test]
fn other_strings_and_other_literals_are_refused() {
    let err = range_modifiers(&vec![whole("0"), whole("10"), text("or_more")]).unwrap_err();
    assert_eq!(err, GenerationError::UnexpectedString { index: 2 });
    assert_eq!(
        err.message(),
        "Unexpected string literal. Expected \"or_lesser\" or \"or_greater\""
    );
    let err = range_modifiers(&vec![whole("0"), whole("10"), whole("1"), other("true")]).unwrap_err();
    assert_eq!(err, GenerationError::UnexpectedItem { index: 3 });
    assert_eq!(err.message(), "Unexpected item in range");
    let err = range_modifiers(&vec![whole("0"), whole("10"), other("'c'"), text("bad")]).unwrap_err();
    assert_eq!(err, GenerationError::UnexpectedItem { index: 2 });
    let err = export_range_hint_helper(&vec![whole("0"), whole("10"), text("bad")], "u8", false)
        .unwrap_err();
    assert_eq!(err, GenerationError::UnexpectedString { index: 2 });
}

#[test]
fn range_and_exponential_range() {
    let range = ExportRange { range: vec![whole("1"), whole("9")] };
    assert_eq!(
        export_range_hint(&range, "u8").unwrap(),
        format!(".with_hint({P}IntHint::Range({RANGE}(1, 9)))")
    );
    let range = ExportExpRange { range: vec![whole("1"), whole("9")] };
    assert_eq!(
        export_exp_range_hint(&range, "u8").unwrap(),
        format!(".with_hint({P}IntHint::ExpRange({RANGE}(1, 9)))")
    );
}

#[test]
fn enum_names_keep_their_ordinals() {
    let names = ExportEnum { values: vec![text("a"), text("b"), text("c")] };
    assert_eq!(
        export_enum_hint(&names, "u32"),
        format!(
            ".with_hint({P}IntHint::Enum({P}EnumHint::new(vec![\"a\".into(), \"b\".into(), \"c\".into(), ])))"
        )
    );
    assert_eq!(
        export_enum_hint(&names, "String"),
        format!(
            ".with_hint({P}StringHint::Enum({P}EnumHint::new(vec![\"a\".into(), \"b\".into(), \"c\".into(), ])))"
        )
    );
    assert_eq!(
        export_enum_hint(&ExportEnum { values: vec![] }, "f32"),
        format!(".with_hint({P}IntHint::Enum({P}EnumHint::new(vec![])))")
    );
}

#[test]
fn flags_keep_their_bits() {
    let flags = ExportFlags { values: vec![text("Fire"), text("Water")] };
    assert_eq!(
        export_flags_hint(&flags),
        format!(
            ".with_hint({P}IntHint::Flags({P}EnumHint::new(vec![\"Fire\".into(), \"Water\".into(), ])))"
        )
    );
}

#[test]
fn file_hints_carry_at_most_one_filter() {
    assert_eq!(
        export_file_hint(&ExportFile { filter: None }),
        format!(".with_hint({P}StringHint::File({P}EnumHint::new(vec![])))")
    );
    assert_eq!(
        export_file_hint(&ExportFile { filter: Some(text("*.png")) }),
        format!(".with_hint({P}StringHint::File({P}EnumHint::new(vec![\"*.png\".into()])))")
    );
    assert_eq!(
        export_global_file_hint(&ExportGlobalFile { filter: None }),
        format!(".with_hint({P}StringHint::GlobalFile({P}EnumHint::new(vec![])))")
    );
    assert_eq!(
        export_global_file_hint(&ExportGlobalFile { filter: Some(text("*.txt")) }),
        format!(".with_hint({P}StringHint::GlobalFile({P}EnumHint::new(vec![\"*.txt\".into()])))")
    );
}

#[test]
fn hint_of_every_export_type() {
    let hint = |e: ExportType, ty: &str| property_hint(&e, ty).unwrap();
    assert_eq!(hint(ExportType::NoHint, "u8"), "");
    assert_eq!(hint(ExportType::Export, "u8"), "");
    assert_eq!(
        hint(ExportType::ExportNodePath(ExportNodePath { types: vec!["Node".to_string()] }), "NodePath"),
        ""
    );
    assert_eq!(hint(ExportType::ExportDir, "String"), format!(".with_hint({P}StringHint::Dir)"));
    assert_eq!(
        hint(ExportType::ExportGlobalDir, "String"),
        format!(".with_hint({P}StringHint::GlobalDir)")
    );
    assert_eq!(
        hint(ExportType::ExportMultiline, "String"),
        format!(".with_hint({P}StringHint::Multiline)")
    );
    assert_eq!(
        hint(ExportType::ExportColorNoAlpha, "Color"),
        format!(".with_hint({P}ColorHint::NoAlpha)")
    );
    assert_eq!(
        hint(ExportType::ExportFlags2dPhysics, "u32"),
        format!(".with_hint({P}IntHint::Layers2DPhysics)")
    );
    assert_eq!(
        hint(ExportType::ExportFlags2dRender, "u32"),
        format!(".with_hint({P}IntHint::Layers2DRender)")
    );
    assert_eq!(
        hint(ExportType::ExportFlags3dPhysics, "u32"),
        format!(".with_hint({P}IntHint::Layers3DPhysics)")
    );
    assert_eq!(
        hint(ExportType::ExportFlags3dRender, "u32"),
        format!(".with_hint({P}IntHint::Layers3DRender)")
    );
    assert_eq!(
        hint(ExportType::ExportRange(ExportRange { range: vec![whole("0"), whole("3")] }), "u8"),
        format!(".with_hint({P}IntHint::Range({RANGE}(0, 3)))")
    );
    assert_eq!(
        hint(ExportType::ExportExpRange(ExportExpRange { range: vec![whole("0"), whole("3")] }), "f32"),
        format!(".with_hint({P}FloatHint::ExpRange({RANGE}(0.into(), 3.into())))")
    );
    assert_eq!(
        hint(ExportType::ExportEnum(ExportEnum { values: vec![text("x")] }), "String"),
        format!(".with_hint({P}StringHint::Enum({P}EnumHint::new(vec![\"x\".into(), ])))")
    );
    assert_eq!(
        hint(ExportType::ExportFlags(ExportFlags { values: vec![text("x")] }), "u8"),
        format!(".with_hint({P}IntHint::Flags({P}EnumHint::new(vec![\"x\".into(), ])))")
    );
    assert_eq!(
        hint(ExportType::ExportFile(ExportFile { filter: None }), "String"),
        format!(".with_hint({P}StringHint::File({P}EnumHint::new(vec![])))")
    );
    assert_eq!(
        hint(ExportType::ExportGlobalFile(ExportGlobalFile { filter: None }), "String"),
        format!(".with_hint({P}StringHint::GlobalFile({P}EnumHint::new(vec![])))")
    );
    assert_eq!(
        property_hint(&ExportType::ExportRange(ExportRange { range: vec![] }), "bool"),
        Err(GenerationError::RangeNotANumber)
    );
}

#[test]
fn bounds_must_be_numbers_of_one_kind() {
    let err = export_range_hint_helper(&vec![text("a"), decimal("1.5")], "u8", false).unwrap_err();
    assert_eq!(err, GenerationError::BoundNotANumber);
    assert_eq!(err.message(), "The bounds of an export range must be numbers");
    let err = export_range_hint_helper(&vec![other("true"), whole("1")], "u8", true).unwrap_err();
    assert_eq!(err, GenerationError::BoundNotANumber);
    let err = export_range_hint_helper(&vec![whole("0"), decimal("10.0")], "f32", false).unwrap_err();
    assert_eq!(err, GenerationError::BoundsOfTwoKinds);
    assert_eq!(
        err.message(),
        "The bounds of an export range must be of one kind (both int, or both float)"
    );
    let err = export_range_hint_helper(&vec![decimal("0.0"), whole("10")], "f32", false).unwrap_err();
    assert_eq!(err, GenerationError::BoundsOfTwoKinds);
    let err = export_range_hint_helper(&vec![whole("0"), text("or_lesser")], "u8", false).unwrap_err();
    assert_eq!(err, GenerationError::BoundsOfTwoKinds);
    assert!(export_range_hint_helper(&vec![decimal("0.0"), decimal("1.0")], "u8", false).is_ok());
    assert!(export_range_hint_helper(&vec![whole("0"), whole("1")], "f64", false).is_ok());
}

#[test]
fn bounds_are_judged_after_their_number_and_before_the_modifiers() {
    let err = export_range_hint_helper(&vec![text("a")], "u8", false).unwrap_err();
    assert_eq!(err, GenerationError::RangeWithoutBounds);
    let err = export_range_hint_helper(&vec![text("a"), whole("1")], "String", false).unwrap_err();
    assert_eq!(err, GenerationError::RangeNotANumber);
    let err =
        export_range_hint_helper(&vec![text("a"), whole("1"), text("bad")], "u8", false).unwrap_err();
    assert_eq!(err, GenerationError::BoundNotANumber);
    let err = export_range_hint_helper(&vec![whole("0"), decimal("1.0"), other("'c'")], "u8", false)
        .unwrap_err();
    assert_eq!(err, GenerationError::BoundsOfTwoKinds);
    let range = ExportRange { range: vec![text("a"), whole("10")] };
    assert_eq!(
        property_hint(&ExportType::ExportRange(range), "u8"),
        Err(GenerationError::BoundNotANumber)
    );
}
