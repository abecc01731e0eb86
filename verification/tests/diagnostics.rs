use imgui_gen::ast::LitKind;
use imgui_gen::compile::compile;
use imgui_gen::diag::{Coord, DiagKind};
use imgui_gen::schema::{Field, RawDirective, TypeCategory};

fn scalar() -> TypeCategory {
    TypeCategory::NumericScalar { width: 32, signed: true }
}

fn one_field(name: &str, cat: TypeCategory, payload: &str) -> Vec<Field> {
    vec![Field {
        name: name.to_string(),
        category: cat,
        directives: vec![RawDirective { text: payload.to_string(), at: Coord { line: 7, col: 3 } }],
    }]
}

#[test]
fn two_directives_fail_at_the_second_coordinate() {
    let fields = vec![Field {
        name: "speed".to_string(),
        category: scalar(),
        directives: vec![
            RawDirective { text: "input".to_string(), at: Coord { line: 1, col: 1 } },
            RawDirective { text: "@@nonsense@@".to_string(), at: Coord { line: 2, col: 5 } },
        ],
    }];
    let e = compile("Demo", &fields).unwrap_err();
    assert_eq!(e.kind, DiagKind::MultipleDirectives);
    assert_eq!(e.at, Coord { line: 2, col: 5 });
}

#[test]
fn three_directives_fail_the_same_way() {
    let fields = vec![Field {
        name: "speed".to_string(),
        category: scalar(),
        directives: vec![
            RawDirective { text: "input".to_string(), at: Coord { line: 1, col: 1 } },
            RawDirective { text: "slider".to_string(), at: Coord { line: 2, col: 5 } },
            RawDirective { text: "drag".to_string(), at: Coord { line: 3, col: 9 } },
        ],
    }];
    let e = compile("Demo", &fields).unwrap_err();
    assert_eq!(e.kind, DiagKind::MultipleDirectives);
    assert_eq!(e.at, Coord { line: 2, col: 5 });
}

#[test]
fn slider_without_min_and_max_names_min_first() {
    let fields = one_field("level", scalar(), "slider(label = \"Level\")");
    let e = compile("Demo", &fields).unwrap_err();
    assert_eq!(e.kind, DiagKind::MissingRequiredParameter { param: "min".to_string() });
    assert_eq!(e.at, Coord { line: 7, col: 3 });
}

#[test]
fn slider_with_empty_arguments_names_min_first() {
    let fields = one_field("level", scalar(), "slider()");
    let e = compile("Demo", &fields).unwrap_err();
    assert_eq!(e.kind, DiagKind::MissingRequiredParameter { param: "min".to_string() });
}

#[test]
fn slider_with_only_max_names_min() {
    let fields = one_field("level", scalar(), "slider(max = 1.0)");
    let e = compile("Demo", &fields).unwrap_err();
    assert_eq!(e.kind, DiagKind::MissingRequiredParameter { param: "min".to_string() });
}

#[test]
fn combobox_on_numeric_scalar_is_type_incompatible() {
    let fields = one_field("speed", scalar(), "combobox(label = \"c\", selected = 1)");
    let e = compile("Demo", &fields).unwrap_err();
    assert_eq!(
        e.kind,
        DiagKind::TypeIncompatible { widget: "combobox".to_string(), category: scalar() },
    );
}

#[test]
fn slider_on_boolean_is_type_incompatible() {
    let fields = one_field("flag", TypeCategory::Boolean, "slider(min = 0.0, max = 1.0)");
    let e = compile("Demo", &fields).unwrap_err();
    assert_eq!(
        e.kind,
        DiagKind::TypeIncompatible {
            widget: "slider".to_string(),
            category: TypeCategory::Boolean,
        },
    );
}

#[test]
fn combobox_selection_out_of_bounds() {
    let fields = one_field(
        "tags",
        TypeCategory::FixedStringArray { len: 3 },
        "combobox(label = \"choose one\", selected = 5)",
    );
    let e = compile("Demo", &fields).unwrap_err();
    assert_eq!(e.kind, DiagKind::IndexOutOfRange { selected: 5, len: 3 });
}

#[test]
fn combobox_negative_selection_out_of_bounds() {
    let fields = one_field(
        "tags",
        TypeCategory::FixedStringArray { len: 3 },
        "combobox(label = \"c\", selected = -1)",
    );
    let e = compile("Demo", &fields).unwrap_err();
    assert_eq!(e.kind, DiagKind::IndexOutOfRange { selected: -1, len: 3 });
}

#[test]
fn unknown_widget_kind_is_unsupported() {
    let fields = one_field("speed", scalar(), "foo(x = 1)");
    let e = compile("Demo", &fields).unwrap_err();
    assert_eq!(e.kind, DiagKind::UnsupportedWidgetKind { kind: "foo".to_string() });
}

#[test]
fn unknown_parameter_is_unrecognized() {
    let fields = one_field("level", scalar(), "slider(wibble = 1.0)");
    let e = compile("Demo", &fields).unwrap_err();
    assert_eq!(e.kind, DiagKind::UnrecognizedParameter { param: "wibble".to_string() });
}

#[test]
fn repeated_parameter_is_already_set() {
    let fields = one_field("level", scalar(), "slider(min = 1.0, min = 2.0)");
    let e = compile("Demo", &fields).unwrap_err();
    assert_eq!(e.kind, DiagKind::ParameterAlreadySet { param: "min".to_string() });
}

#[test]
fn wrong_literal_kind_names_the_expected_kind() {
    let fields = one_field("level", scalar(), "slider(min = \"low\", max = 1.0)");
    let e = compile("Demo", &fields).unwrap_err();
    assert_eq!(
        e.kind,
        DiagKind::LiteralKindMismatch { param: "min".to_string(), expected: LitKind::Float },
    );
}

#[test]
fn integer_where_float_is_expected_is_a_mismatch() {
    let fields = one_field("level", scalar(), "slider(min = 1, max = 2.0)");
    let e = compile("Demo", &fields).unwrap_err();
    assert_eq!(
        e.kind,
        DiagKind::LiteralKindMismatch { param: "min".to_string(), expected: LitKind::Float },
    );
}

#[test]
fn bare_literal_payload_is_a_syntax_error() {
    let fields = one_field("speed", scalar(), "5");
    let e = compile("Demo", &fields).unwrap_err();
    assert_eq!(e.kind, DiagKind::SyntaxError);
    assert_eq!(e.at, Coord { line: 7, col: 3 });
}

#[test]
fn unterminated_string_is_a_syntax_error() {
    let fields = one_field("speed", scalar(), "label = \"oops");
    let e = compile("Demo", &fields).unwrap_err();
    assert_eq!(e.kind, DiagKind::SyntaxError);
}

#[test]
fn flat_list_beyond_a_label_is_a_syntax_error() {
    let fields = one_field("speed", scalar(), "label = \"a\", display = \"b\"");
    let e = compile("Demo", &fields).unwrap_err();
    assert_eq!(e.kind, DiagKind::SyntaxError);
}

#[test]
fn oversized_integer_literal_is_a_syntax_error() {
    let fields = one_field(
        "tags",
        TypeCategory::FixedStringArray { len: 3 },
        "combobox(selected = 99999999999999999999)",
    );
    let e = compile("Demo", &fields).unwrap_err();
    assert_eq!(e.kind, DiagKind::SyntaxError);
}

#[test]
fn lone_minus_is_a_syntax_error() {
    let fields = one_field("speed", scalar(), "drag(min = -)");
    let e = compile("Demo", &fields).unwrap_err();
    assert_eq!(e.kind, DiagKind::SyntaxError);
}

#[test]
fn first_failing_field_wins() {
    let fields = vec![
        Field {
            name: "ok_first".to_string(),
            category: scalar(),
            directives: vec![RawDirective {
                text: "input".to_string(),
                at: Coord { line: 1, col: 1 },
            }],
        },
        Field {
            name: "bad".to_string(),
            category: scalar(),
            directives: vec![RawDirective {
                text: "slider()".to_string(),
                at: Coord { line: 2, col: 1 },
            }],
        },
        Field {
            name: "also_bad".to_string(),
            category: scalar(),
            directives: vec![RawDirective {
                text: "foo(x = 1)".to_string(),
                at: Coord { line: 3, col: 1 },
            }],
        },
    ];
    let e = compile("Demo", &fields).unwrap_err();
    assert_eq!(e.kind, DiagKind::MissingRequiredParameter { param: "min".to_string() });
    assert_eq!(e.at, Coord { line: 2, col: 1 });
}

#[test]
fn messages_are_human_readable() {
    let e = compile("Demo", &one_field("level", scalar(), "slider()")).unwrap_err();
    assert_eq!(e.message(), "missing required parameter `min`");
    let e = compile("Demo", &one_field("level", scalar(), "slider(min = 1, max = 2.0)"))
        .unwrap_err();
    assert_eq!(e.message(), "parameter `min` expects a float literal");
    let e = compile("Demo", &one_field("speed", scalar(), "combobox(label = \"c\", selected = 1)"))
        .unwrap_err();
    assert_eq!(e.message(), "widget kind `combobox` rejects a numeric scalar field");
    let e = compile("Demo", &one_field("speed", scalar(), "5")).unwrap_err();
    assert_eq!(e.message(), "malformed directive");
}
