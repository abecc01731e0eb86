use vstd::prelude::*;
use vstd::string::*;
use crate::ast::{IntLit, IntLitV};
use crate::registry::ResultKind;
use crate::tag::{opt_int_view, opt_str_view, Tag, TagV};

verus! {

/// One emitted pairing of a field and its resolved tag: it becomes one
/// widget-build statement and one interaction-result member.
#[derive(Clone, PartialEq, Eq, Debug)]
pub struct Binding {
    pub field: String,
    pub tag: Tag,
}

/// Mathematical model of a binding.
pub struct BindingV {
    pub field: Seq<char>,
    pub tag: TagV,
}

impl View for Binding {
    type V = BindingV;

    open spec fn view(&self) -> BindingV {
        BindingV { field: self.field@, tag: self.tag@ }
    }
}

pub open spec fn bindings_view(bs: Seq<Binding>) -> Seq<BindingV> {
    bs.map_values(|b: Binding| b@)
}

/// One member of the synthesized interaction-result record.
#[derive(Clone, PartialEq, Eq, Debug)]
pub struct Member {
    pub name: String,
    pub result: ResultKind,
}

/// Mathematical model of a member.
pub struct MemberV {
    pub name: Seq<char>,
    pub result: ResultKind,
}

impl View for Member {
    type V = MemberV;

    open spec fn view(&self) -> MemberV {
        MemberV { name: self.name@, result: self.result }
    }
}

pub open spec fn members_view(ms: Seq<Member>) -> Seq<MemberV> {
    ms.map_values(|m: Member| m@)
}

/// The result type a tag's build operation reports.
pub open spec fn spec_result_of(t: TagV) -> ResultKind {
    match t {
        TagV::Combobox { .. } => ResultKind::Selection,
        _ => ResultKind::Flag,
    }
}

/// Executable twin of [`spec_result_of`].
pub fn result_of(t: &Tag) -> (r: ResultKind)
    ensures
        r == spec_result_of(t@),
{
    match t {
        Tag::Combobox { .. } => ResultKind::Selection,
        _ => ResultKind::Flag,
    }
}

/// The interaction-result member a binding contributes.
pub open spec fn spec_member_of(b: BindingV) -> MemberV {
    MemberV { name: b.field, result: spec_result_of(b.tag) }
}

/// The member list: one member per binding, in binding order.
pub open spec fn spec_members(bs: Seq<BindingV>) -> Seq<MemberV> {
    bs.map_values(|b: BindingV| spec_member_of(b))
}

/// Collect the interaction-result members, in binding order.
pub fn members_of(bindings: &Vec<Binding>) -> (r: Vec<Member>)
    ensures
        members_view(r@) == spec_members(bindings_view(bindings@)),
{
    let ghost bv = bindings_view(bindings@);
    let mut r: Vec<Member> = Vec::new();
    let mut i: usize = 0;
    while i < bindings.len()
        invariant
            i <= bindings@.len(),
            bv == bindings_view(bindings@),
            members_view(r@) == spec_members(bv.take(i as int)),
        decreases bindings@.len() - i,
    {
        let b = &bindings[i];
        let m = Member { name: b.field.clone(), result: result_of(&b.tag) };
        proof {
            assert(m@ == spec_member_of(bv[i as int]));
        }
        let ghost before = r@;
        r.push(m);
        proof {
            assert(members_view(r@) =~= members_view(before).push(spec_member_of(bv[i as int])));
            assert(bv.take(i as int + 1).drop_last() =~= bv.take(i as int));
            assert(spec_members(bv.take(i as int + 1)) =~= spec_members(bv.take(i as int)).push(
                spec_member_of(bv[i as int]),
            ));
            assert(members_view(r@) =~= spec_members(bv.take(i as int + 1)));
        }
        i = i + 1;
    }
    proof {
        assert(bv.take(bv.len() as int) =~= bv);
    }
    r
}

pub open spec fn quoted(s: Seq<char>) -> Seq<char> {
    "\""@ + s + "\""@
}

/// An optional raw-spelling parameter, rendered explicitly present or
/// explicitly absent.
pub open spec fn opt_raw(o: Option<Seq<char>>) -> Seq<char> {
    match o {
        Some(t) => "Some("@ + t + ")"@,
        None => "None"@,
    }
}

/// An optional string parameter, quoted.
pub open spec fn opt_quoted(o: Option<Seq<char>>) -> Seq<char> {
    match o {
        Some(t) => "Some("@ + quoted(t) + ")"@,
        None => "None"@,
    }
}

/// An optional integer parameter, re-emitted by its source spelling.
pub open spec fn opt_int(o: Option<IntLitV>) -> Seq<char> {
    match o {
        Some(i) => "Some("@ + i.text + ")"@,
        None => "None"@,
    }
}

/// The toolkit builder a tag's widget kind binds to.
pub open spec fn spec_builder_of(t: TagV) -> Seq<char> {
    match t {
        TagV::Simple { .. } => "Simple"@,
        TagV::NumericInput { .. } => "Input"@,
        TagV::Slider { .. } => "Slider"@,
        TagV::Drag { .. } => "Drag"@,
        TagV::Combobox { .. } => "Combobox"@,
    }
}

/// The parameter-record text of one tag, every optional parameter
/// explicitly `Some(..)` or `None`.
pub open spec fn spec_params_text(t: TagV) -> Seq<char> {
    match t {
        TagV::Simple { label } => "label: "@ + quoted(label),
        TagV::NumericInput { label, precision, step, step_fast } => "label: "@ + quoted(label)
            + ", precision: "@ + opt_int(precision) + ", step: "@ + opt_raw(step)
            + ", step_fast: "@ + opt_raw(step_fast),
        TagV::Slider { label, display, min, max } => "label: "@ + quoted(label) + ", display: "@
            + opt_quoted(display) + ", min: "@ + min + ", max: "@ + max,
        TagV::Drag { label, display, min, max, speed, power } => "label: "@ + quoted(label)
            + ", display: "@ + opt_quoted(display) + ", min: "@ + opt_raw(min) + ", max: "@
            + opt_raw(max) + ", speed: "@ + opt_raw(speed) + ", power: "@ + opt_raw(power),
        TagV::Combobox { label, selected } => "label: "@ + quoted(label) + ", selected: "@
            + selected.text,
    }
}

/// The one generated statement of a binding: build the widget and store
/// its result in the matching member.
pub open spec fn spec_binding_text(b: BindingV) -> Seq<char> {
    "    events."@ + b.field + " = imgui_ext_traits::"@ + spec_builder_of(b.tag)
        + "::build(ui, &mut ext."@ + b.field + ", imgui_ext_traits::"@ + spec_builder_of(b.tag)
        + "Params { "@ + spec_params_text(b.tag) + " });\n"@
}

/// All binding statements, in binding order.
pub open spec fn spec_bindings_text(bs: Seq<BindingV>) -> Seq<char>
    decreases bs.len(),
{
    if bs.len() == 0 {
        Seq::empty()
    } else {
        spec_bindings_text(bs.drop_last()) + spec_binding_text(bs.last())
    }
}

/// The rendering routine: construct the default interaction-result value,
/// apply one binding statement per annotated field, return the value.
pub open spec fn spec_routine_text(record: Seq<char>, bs: Seq<BindingV>) -> Seq<char> {
    "pub fn draw_gui(ui: &imgui::Ui, ext: &mut "@ + record + ") -> "@ + record
        + "Events {\n    let mut events = "@ + record + "Events::default();\n"@
        + spec_bindings_text(bs) + "    events\n}\n"@
}

/// The declared type of a member.
pub open spec fn spec_ty_text(r: ResultKind) -> Seq<char> {
    match r {
        ResultKind::Flag => "bool"@,
        ResultKind::Selection => "Option<usize>"@,
    }
}

/// The "no interaction occurred" default of a member.
pub open spec fn spec_default_text(r: ResultKind) -> Seq<char> {
    match r {
        ResultKind::Flag => "false"@,
        ResultKind::Selection => "None"@,
    }
}

pub open spec fn spec_member_decl(m: MemberV) -> Seq<char> {
    "    pub "@ + m.name + ": "@ + spec_ty_text(m.result) + ",\n"@
}

pub open spec fn spec_members_decl(ms: Seq<MemberV>) -> Seq<char>
    decreases ms.len(),
{
    if ms.len() == 0 {
        Seq::empty()
    } else {
        spec_members_decl(ms.drop_last()) + spec_member_decl(ms.last())
    }
}

pub open spec fn spec_member_init(m: MemberV) -> Seq<char> {
    "            "@ + m.name + ": "@ + spec_default_text(m.result) + ",\n"@
}

pub open spec fn spec_members_init(ms: Seq<MemberV>) -> Seq<char>
    decreases ms.len(),
{
    if ms.len() == 0 {
        Seq::empty()
    } else {
        spec_members_init(ms.drop_last()) + spec_member_init(ms.last())
    }
}

/// The interaction-result record declaration, with an explicit per-member
/// default constructor.
pub open spec fn spec_decl_text(record: Seq<char>, ms: Seq<MemberV>) -> Seq<char> {
    "pub struct "@ + record + "Events {\n"@ + spec_members_decl(ms)
        + "}\nimpl Default for "@ + record
        + "Events {\n    fn default() -> Self {\n        Self {\n"@ + spec_members_init(ms)
        + "        }\n    }\n}\n"@
}

fn quoted_x(s: &str) -> (r: String)
    ensures
        r@ == quoted(s@),
{
    let mut out = String::from_str("\"");
    out.append(s);
    out.append("\"");
    proof {
        assert(out@ =~= quoted(s@));
    }
    out
}

fn opt_raw_x(o: &Option<String>) -> (r: String)
    ensures
        r@ == opt_raw(opt_str_view(*o)),
{
    match o {
        Some(t) => {
            let mut out = String::from_str("Some(");
            out.append(t.as_str());
            out.append(")");
            proof {
                assert(out@ =~= opt_raw(opt_str_view(*o)));
            }
            out
        },
        None => String::from_str("None"),
    }
}

fn opt_quoted_x(o: &Option<String>) -> (r: String)
    ensures
        r@ == opt_quoted(opt_str_view(*o)),
{
    match o {
        Some(t) => {
            let mut out = String::from_str("Some(");
            let q = quoted_x(t.as_str());
            out.append(q.as_str());
            out.append(")");
            proof {
                assert(out@ =~= opt_quoted(opt_str_view(*o)));
            }
            out
        },
        None => String::from_str("None"),
    }
}

fn opt_int_x(o: &Option<IntLit>) -> (r: String)
    ensures
        r@ == opt_int(opt_int_view(*o)),
{
    match o {
        Some(i) => {
            let mut out = String::from_str("Some(");
            out.append(i.text.as_str());
            out.append(")");
            proof {
                assert(out@ =~= opt_int(opt_int_view(*o)));
            }
            out
        },
        None => String::from_str("None"),
    }
}

fn builder_of(t: &Tag) -> (r: &'static str)
    ensures
        r@ == spec_builder_of(t@),
{
    match t {
        Tag::Simple { .. } => "Simple",
        Tag::NumericInput { .. } => "Input",
        Tag::Slider { .. } => "Slider",
        Tag::Drag { .. } => "Drag",
        Tag::Combobox { .. } => "Combobox",
    }
}

fn params_text(t: &Tag) -> (r: String)
    ensures
        r@ == spec_params_text(t@),
{
    match t {
        Tag::Simple { label } => {
            let mut out = String::from_str("label: ");
            let q = quoted_x(label.as_str());
            out.append(q.as_str());
            proof {
                assert(out@ =~= spec_params_text(t@));
            }
            out
        },
        Tag::NumericInput { label, precision, step, step_fast } => {
            let mut out = String::from_str("label: ");
            let q = quoted_x(label.as_str());
            out.append(q.as_str());
            out.append(", precision: ");
            let pr = opt_int_x(precision);
            out.append(pr.as_str());
            out.append(", step: ");
            let st = opt_raw_x(step);
            out.append(st.as_str());
            out.append(", step_fast: ");
            let sf = opt_raw_x(step_fast);
            out.append(sf.as_str());
            proof {
                assert(out@ =~= spec_params_text(t@));
            }
            out
        },
        Tag::Slider { label, display, min, max } => {
            let mut out = String::from_str("label: ");
            let q = quoted_x(label.as_str());
            out.append(q.as_str());
            out.append(", display: ");
            let d = opt_quoted_x(display);
            out.append(d.as_str());
            out.append(", min: ");
            out.append(min.as_str());
            out.append(", max: ");
            out.append(max.as_str());
            proof {
                assert(out@ =~= spec_params_text(t@));
            }
            out
        },
        Tag::Drag { label, display, min, max, speed, power } => {
            let mut out = String::from_str("label: ");
            let q = quoted_x(label.as_str());
            out.append(q.as_str());
            out.append(", display: ");
            let d = opt_quoted_x(display);
            out.append(d.as_str());
            out.append(", min: ");
            let a = opt_raw_x(min);
            out.append(a.as_str());
            out.append(", max: ");
            let b = opt_raw_x(max);
            out.append(b.as_str());
            out.append(", speed: ");
            let c = opt_raw_x(speed);
            out.append(c.as_str());
            out.append(", power: ");
            let e = opt_raw_x(power);
            out.append(e.as_str());
            proof {
                assert(out@ =~= spec_params_text(t@));
            }
            out
        },
        Tag::Combobox { label, selected } => {
            let mut out = String::from_str("label: ");
            let q = quoted_x(label.as_str());
            out.append(q.as_str());
            out.append(", selected: ");
            out.append(selected.text.as_str());
            proof {
                assert(out@ =~= spec_params_text(t@));
            }
            out
        },
    }
}

fn binding_text(b: &Binding) -> (r: String)
    ensures
        r@ == spec_binding_text(b@),
{
    let mut out = String::from_str("    events.");
    out.append(b.field.as_str());
    out.append(" = imgui_ext_traits::");
    out.append(builder_of(&b.tag));
    out.append("::build(ui, &mut ext.");
    out.append(b.field.as_str());
    out.append(", imgui_ext_traits::");
    out.append(builder_of(&b.tag));
    out.append("Params { ");
    let ps = params_text(&b.tag);
    out.append(ps.as_str());
    out.append(" });\n");
    proof {
        assert(out@ =~= spec_binding_text(b@));
    }
    out
}

/// Render the rendering-routine artifact for a record name and its
/// bindings, in binding order.
pub fn render_routine(record: &str, bindings: &Vec<Binding>) -> (r: String)
    ensures
        r@ == spec_routine_text(record@, bindings_view(bindings@)),
{
    let ghost bv = bindings_view(bindings@);
    let mut out = String::from_str("pub fn draw_gui(ui: &imgui::Ui, ext: &mut ");
    out.append(record);
    out.append(") -> ");
    out.append(record);
    out.append("Events {\n    let mut events = ");
    out.append(record);
    out.append("Events::default();\n");
    let ghost head = out@;
    proof {
        assert(spec_bindings_text(bv.take(0)) == Seq::<char>::empty());
        assert(out@ =~= head + spec_bindings_text(bv.take(0)));
    }
    let mut i: usize = 0;
    while i < bindings.len()
        invariant
            i <= bindings@.len(),
            bv == bindings_view(bindings@),
            out@ == head + spec_bindings_text(bv.take(i as int)),
        decreases bindings@.len() - i,
    {
        let t = binding_text(&bindings[i]);
        out.append(t.as_str());
        proof {
            assert(bv.take(i as int + 1).drop_last() =~= bv.take(i as int));
            assert(bv.take(i as int + 1).last() == bv[i as int]);
            assert(out@ =~= head + spec_bindings_text(bv.take(i as int + 1)));
        }
        i = i + 1;
    }
    out.append("    events\n}\n");
    proof {
        assert(bv.take(bv.len() as int) =~= bv);
        assert(out@ =~= spec_routine_text(record@, bv));
    }
    out
}

fn ty_text(r: ResultKind) -> (t: &'static str)
    ensures
        t@ == spec_ty_text(r),
{
    match r {
        ResultKind::Flag => "bool",
        ResultKind::Selection => "Option<usize>",
    }
}

fn default_text(r: ResultKind) -> (t: &'static str)
    ensures
        t@ == spec_default_text(r),
{
    match r {
        ResultKind::Flag => "false",
        ResultKind::Selection => "None",
    }
}

/// Render the interaction-result record declaration with its explicit
/// per-member default constructor.
pub fn render_declaration(record: &str, members: &Vec<Member>) -> (r: String)
    ensures
        r@ == spec_decl_text(record@, members_view(members@)),
{
    let ghost mv = members_view(members@);
    let mut out = String::from_str("pub struct ");
    out.append(record);
    out.append("Events {\n");
    let ghost head = out@;
    proof {
        assert(spec_members_decl(mv.take(0)) == Seq::<char>::empty());
        assert(out@ =~= head + spec_members_decl(mv.take(0)));
    }
    let mut i: usize = 0;
    while i < members.len()
        invariant
            i <= members@.len(),
            mv == members_view(members@),
            out@ == head + spec_members_decl(mv.take(i as int)),
        decreases members@.len() - i,
    {
        let m = &members[i];
        out.append("    pub ");
        out.append(m.name.as_str());
        out.append(": ");
        out.append(ty_text(m.result));
        out.append(",\n");
        proof {
            assert(mv.take(i as int + 1).drop_last() =~= mv.take(i as int));
            assert(mv.take(i as int + 1).last() == mv[i as int]);
            assert(out@ =~= head + spec_members_decl(mv.take(i as int + 1)));
        }
        i = i + 1;
    }
    out.append("}\nimpl Default for ");
    out.append(record);
    out.append("Events {\n    fn default() -> Self {\n        Self {\n");
    let ghost head2 = out@;
    proof {
        assert(mv.take(mv.len() as int) =~= mv);
        assert(spec_members_init(mv.take(0)) == Seq::<char>::empty());
        assert(out@ =~= head2 + spec_members_init(mv.take(0)));
    }
    let mut j: usize = 0;
    while j < members.len()
        invariant
            j <= members@.len(),
            mv == members_view(members@),
            out@ == head2 + spec_members_init(mv.take(j as int)),
        decreases members@.len() - j,
    {
        let m = &members[j];
        out.append("            ");
        out.append(m.name.as_str());
        out.append(": ");
        out.append(default_text(m.result));
        out.append(",\n");
        proof {
            assert(mv.take(j as int + 1).drop_last() =~= mv.take(j as int));
            assert(mv.take(j as int + 1).last() == mv[j as int]);
            assert(out@ =~= head2 + spec_members_init(mv.take(j as int + 1)));
        }
        j = j + 1;
    }
    out.append("        }\n    }\n}\n");
    proof {
        assert(mv.take(mv.len() as int) =~= mv);
        assert(out@ =~= spec_decl_text(record@, mv));
    }
    out
}

} // verus!
