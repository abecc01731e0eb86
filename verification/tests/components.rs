use imgui_gen::ast::{IntLit, LitKind, Literal, Node, Pair};
use imgui_gen::check::check_tag;
use imgui_gen::diag::DiagKind;
use imgui_gen::emit::{members_of, render_declaration, render_routine, Binding, Member};
use imgui_gen::lex::{lex, Token};
use imgui_gen::parse::parse_payload;
use imgui_gen::registry::{registry, Accepts, ResultKind};
use imgui_gen::resolve::resolve;
use imgui_gen::schema::TypeCategory;
use imgui_gen::tag::Tag;

#[test]
fn lexer_splits_a_pair() {
    let toks = lex("min = -1.5").unwrap();
    assert_eq!(
        toks,
        vec![Token::Word("min".to_string()), Token::Eq, Token::Float("-1.5".to_string())],
    );
}

#[test]
fn lexer_reads_integers_with_their_spelling() {
    let toks = lex("selected = -42").unwrap();
    assert_eq!(
        toks,
        vec![
            Token::Word("selected".to_string()),
            Token::Eq,
            Token::Int(IntLit { value: -42, text: "-42".to_string() }),
        ],
    );
}

#[test]
fn lexer_rejects_stray_characters() {
    assert!(lex("min = #").is_none());
}

#[test]
fn parser_builds_a_named_node() {
    let node = parse_payload("slider(min = 0.5, max = 1.5)").unwrap();
    assert_eq!(
        node,
        Node::Named {
            kind: "slider".to_string(),
            args: vec![
                Pair { key: "min".to_string(), value: Literal::Float("0.5".to_string()) },
                Pair { key: "max".to_string(), value: Literal::Float("1.5".to_string()) },
            ],
        },
    );
}

#[test]
fn parser_accepts_an_empty_payload() {
    assert_eq!(parse_payload(""), Some(Node::Unit));
    assert_eq!(parse_payload("   "), Some(Node::Unit));
}

#[test]
fn parser_rejects_a_trailing_comma() {
    assert!(parse_payload("slider(min = 0.5,)").is_none());
}

#[test]
fn parser_rejects_nested_named_nodes() {
    assert!(parse_payload("slider(inner(min = 0.5))").is_none());
}

#[test]
fn registry_holds_the_four_widget_kinds() {
    let reg = registry();
    let names: Vec<String> = reg.iter().map(|k| k.name.clone()).collect();
    assert_eq!(names, vec!["input", "slider", "drag", "combobox"]);
    let slider = &reg[1];
    assert_eq!(slider.accepts, Accepts::NumericScalarOnly);
    assert_eq!(slider.result, ResultKind::Flag);
    let required: Vec<String> =
        slider.params.iter().filter(|p| p.required).map(|p| p.name.clone()).collect();
    assert_eq!(required, vec!["min", "max"]);
    assert_eq!(slider.params[2].kind, LitKind::Float);
    let combobox = &reg[3];
    assert_eq!(combobox.accepts, Accepts::FixedStringArrayOnly);
    assert_eq!(combobox.result, ResultKind::Selection);
}

#[test]
fn resolver_defaults_the_label_to_the_field_name() {
    let tag = resolve(&Node::Unit, "speed").unwrap();
    assert_eq!(tag, Tag::Simple { label: "speed".to_string() });
}

#[test]
fn resolver_fills_a_slider_record() {
    let node = parse_payload("slider(min = 0.5, max = 1.5)").unwrap();
    let tag = resolve(&node, "level").unwrap();
    assert_eq!(
        tag,
        Tag::Slider {
            label: "level".to_string(),
            display: None,
            min: "0.5".to_string(),
            max: "1.5".to_string(),
        },
    );
}

#[test]
fn resolver_reports_unknown_kinds() {
    let node = parse_payload("banana(x = 1)").unwrap();
    let e = resolve(&node, "level").unwrap_err();
    assert_eq!(e, DiagKind::UnsupportedWidgetKind { kind: "banana".to_string() });
}

#[test]
fn checker_accepts_a_simple_tag_anywhere() {
    let tag = Tag::Simple { label: "x".to_string() };
    assert!(check_tag(&tag, TypeCategory::Other).is_none());
    assert!(check_tag(&tag, TypeCategory::Boolean).is_none());
    assert!(check_tag(&tag, TypeCategory::NumericArray { len: 4 }).is_none());
}

#[test]
fn checker_bounds_the_combobox_selection() {
    let tag = Tag::Combobox {
        label: "c".to_string(),
        selected: IntLit { value: 2, text: "2".to_string() },
    };
    assert!(check_tag(&tag, TypeCategory::FixedStringArray { len: 3 }).is_none());
    let e = check_tag(&tag, TypeCategory::FixedStringArray { len: 2 }).unwrap();
    assert_eq!(e, DiagKind::IndexOutOfRange { selected: 2, len: 2 });
}

#[test]
fn emitter_pairs_members_with_bindings() {
    let bindings = vec![
        Binding {
            field: "speed".to_string(),
            tag: Tag::Simple { label: "speed".to_string() },
        },
        Binding {
            field: "tags".to_string(),
            tag: Tag::Combobox {
                label: "tags".to_string(),
                selected: IntLit { value: 0, text: "0".to_string() },
            },
        },
    ];
    let members = members_of(&bindings);
    assert_eq!(
        members,
        vec![
            Member { name: "speed".to_string(), result: ResultKind::Flag },
            Member { name: "tags".to_string(), result: ResultKind::Selection },
        ],
    );
}

#[test]
fn renderers_work_from_explicit_pieces() {
    let bindings = vec![Binding {
        field: "speed".to_string(),
        tag: Tag::Simple { label: "v".to_string() },
    }];
    let members = members_of(&bindings);
    let routine = render_routine("Demo", &bindings);
    assert!(routine.contains("SimpleParams { label: \"v\" }"));
    let decl = render_declaration("Demo", &members);
    assert!(decl.contains("pub speed: bool,"));
    assert!(decl.contains("speed: false,"));
}
