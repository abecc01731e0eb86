use imgui_gen::compile::compile;
use imgui_gen::diag::Coord;
use imgui_gen::registry::ResultKind;
use imgui_gen::schema::{Field, RawDirective, TypeCategory};

fn scalar() -> TypeCategory {
    TypeCategory::NumericScalar { width: 32, signed: true }
}

fn plain_field(name: &str, cat: TypeCategory) -> Field {
    Field { name: name.to_string(), category: cat, directives: Vec::new() }
}

fn annotated_field(name: &str, cat: TypeCategory, payload: &str) -> Field {
    Field {
        name: name.to_string(),
        category: cat,
        directives: vec![RawDirective { text: payload.to_string(), at: Coord { line: 1, col: 1 } }],
    }
}

const EMPTY_ROUTINE: &str = "pub fn draw_gui(ui: &imgui::Ui, ext: &mut Demo) -> DemoEvents {\n    let mut events = DemoEvents::default();\n    events\n}\n";

const EMPTY_DECL: &str = "pub struct DemoEvents {\n}\nimpl Default for DemoEvents {\n    fn default() -> Self {\n        Self {\n        }\n    }\n}\n";

#[test]
fn empty_schema_emits_nothing() {
    let fields: Vec<Field> = Vec::new();
    let a = compile("Demo", &fields).unwrap();
    assert_eq!(a.bindings.len(), 0);
    assert_eq!(a.members.len(), 0);
    assert_eq!(a.routine, EMPTY_ROUTINE);
    assert_eq!(a.declaration, EMPTY_DECL);
}

#[test]
fn unannotated_fields_emit_nothing() {
    let fields = vec![plain_field("x", scalar()), plain_field("y", TypeCategory::Boolean)];
    let a = compile("Demo", &fields).unwrap();
    assert_eq!(a.bindings.len(), 0);
    assert_eq!(a.members.len(), 0);
    assert_eq!(a.routine, EMPTY_ROUTINE);
    assert_eq!(a.declaration, EMPTY_DECL);
}

#[test]
fn drag_end_to_end() {
    let fields = vec![annotated_field(
        "speed",
        scalar(),
        "drag(label = \"Speed\", min = 0.0, max = 10.0)",
    )];
    let a = compile("Demo", &fields).unwrap();
    assert_eq!(a.bindings.len(), 1);
    let expected_routine = "pub fn draw_gui(ui: &imgui::Ui, ext: &mut Demo) -> DemoEvents {\n    let mut events = DemoEvents::default();\n    events.speed = imgui_ext_traits::Drag::build(ui, &mut ext.speed, imgui_ext_traits::DragParams { label: \"Speed\", display: None, min: Some(0.0), max: Some(10.0), speed: None, power: None });\n    events\n}\n";
    assert_eq!(a.routine, expected_routine);
    assert_eq!(a.members.len(), 1);
    assert_eq!(a.members[0].name, "speed");
    assert_eq!(a.members[0].result, ResultKind::Flag);
    let expected_decl = "pub struct DemoEvents {\n    pub speed: bool,\n}\nimpl Default for DemoEvents {\n    fn default() -> Self {\n        Self {\n            speed: false,\n        }\n    }\n}\n";
    assert_eq!(a.declaration, expected_decl);
}

#[test]
fn compilation_is_deterministic() {
    let fields = vec![
        annotated_field("speed", scalar(), "drag(label = \"Speed\", min = 0.0, max = 10.0)"),
        plain_field("silent", TypeCategory::Other),
        annotated_field("level", scalar(), "slider(min = -1.0, max = 1.0)"),
    ];
    let a = compile("Demo", &fields).unwrap();
    let b = compile("Demo", &fields).unwrap();
    assert_eq!(a.routine, b.routine);
    assert_eq!(a.declaration, b.declaration);
    assert_eq!(a.bindings, b.bindings);
    assert_eq!(a.members, b.members);
}

#[test]
fn combobox_end_to_end() {
    let fields = vec![annotated_field(
        "tags",
        TypeCategory::FixedStringArray { len: 3 },
        "combobox(label = \"choose one\", selected = 1)",
    )];
    let a = compile("Demo", &fields).unwrap();
    assert_eq!(a.members.len(), 1);
    assert_eq!(a.members[0].name, "tags");
    assert_eq!(a.members[0].result, ResultKind::Selection);
    assert!(a.routine.contains("events.tags = imgui_ext_traits::Combobox::build(ui, &mut ext.tags, imgui_ext_traits::ComboboxParams { label: \"choose one\", selected: 1 });"));
    assert!(a.declaration.contains("pub tags: Option<usize>,"));
    assert!(a.declaration.contains("tags: None,"));
}

#[test]
fn mixed_schema_skips_unannotated_field() {
    let fields = vec![
        annotated_field("speed", scalar(), "input"),
        plain_field("inner", TypeCategory::Other),
    ];
    let a = compile("Demo", &fields).unwrap();
    let expected_routine = "pub fn draw_gui(ui: &imgui::Ui, ext: &mut Demo) -> DemoEvents {\n    let mut events = DemoEvents::default();\n    events.speed = imgui_ext_traits::Input::build(ui, &mut ext.speed, imgui_ext_traits::InputParams { label: \"speed\", precision: None, step: None, step_fast: None });\n    events\n}\n";
    assert_eq!(a.routine, expected_routine);
    let expected_decl = "pub struct DemoEvents {\n    pub speed: bool,\n}\nimpl Default for DemoEvents {\n    fn default() -> Self {\n        Self {\n            speed: false,\n        }\n    }\n}\n";
    assert_eq!(a.declaration, expected_decl);
}

#[test]
fn empty_payload_is_simple_widget_with_field_name_label() {
    let fields = vec![annotated_field("speed", scalar(), "")];
    let a = compile("Demo", &fields).unwrap();
    assert!(a.routine.contains("events.speed = imgui_ext_traits::Simple::build(ui, &mut ext.speed, imgui_ext_traits::SimpleParams { label: \"speed\" });"));
}

#[test]
fn flat_label_list_is_simple_widget_with_explicit_label() {
    let fields = vec![annotated_field("speed", scalar(), "label = \"Custom\"")];
    let a = compile("Demo", &fields).unwrap();
    assert!(a.routine.contains("SimpleParams { label: \"Custom\" }"));
}

#[test]
fn bare_unknown_word_is_simple_widget() {
    let fields = vec![annotated_field("speed", scalar(), "separator")];
    let a = compile("Demo", &fields).unwrap();
    assert!(a.routine.contains("SimpleParams { label: \"speed\" }"));
}

#[test]
fn bare_word_with_required_parameters_is_simple_widget() {
    let fields = vec![annotated_field("speed", scalar(), "slider")];
    let a = compile("Demo", &fields).unwrap();
    assert!(a.routine.contains("SimpleParams { label: \"speed\" }"));
}

#[test]
fn bare_input_word_takes_all_defaults() {
    let fields = vec![annotated_field("speed", scalar(), "input")];
    let a = compile("Demo", &fields).unwrap();
    assert!(a.routine.contains("InputParams { label: \"speed\", precision: None, step: None, step_fast: None }"));
}

#[test]
fn input_keeps_given_parameters() {
    let fields = vec![annotated_field("speed", scalar(), "input(precision = 2, step = 0.5)")];
    let a = compile("Demo", &fields).unwrap();
    assert!(a.routine.contains("InputParams { label: \"speed\", precision: Some(2), step: Some(0.5), step_fast: None }"));
}

#[test]
fn negative_float_spelling_is_kept() {
    let fields = vec![annotated_field("speed", scalar(), "drag(min = -1.5)")];
    let a = compile("Demo", &fields).unwrap();
    assert!(a.routine.contains("DragParams { label: \"speed\", display: None, min: Some(-1.5), max: None, speed: None, power: None }"));
}

#[test]
fn slider_display_is_quoted_and_bounds_are_verbatim() {
    let fields = vec![annotated_field(
        "level",
        scalar(),
        "slider(display = \"%d\", min = -1.0, max = 1.0)",
    )];
    let a = compile("Demo", &fields).unwrap();
    assert!(a.routine.contains("SliderParams { label: \"level\", display: Some(\"%d\"), min: -1.0, max: 1.0 }"));
}
