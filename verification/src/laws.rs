use vstd::prelude::*;
use crate::ast::{NodeV, PairV};
use crate::check::spec_check;
use crate::compile::{lemma_analyze_prefix_err, spec_analyze, spec_compile, spec_process_field,
    ArtifactsV};
use crate::diag::{DiagKindV, DiagV};
use crate::emit::{spec_member_of, spec_routine_text};
use crate::registry::{spec_registry, spec_slider_kind};
use crate::resolve::{scan_at, spec_req_missing, spec_resolve, spec_scan, table_get_at, table_has};
use crate::schema::{FieldV, TypeCategory};
use crate::tag::TagV;

verus! {

/// A schema with no annotated field compiles, emits no widget-build
/// statement, and synthesizes a record with no members: the routine text
/// is exactly the fixed frame around an empty statement list.
pub proof fn lemma_no_annotations(record: Seq<char>, fields: Seq<FieldV>)
    requires
        forall|k: int| 0 <= k < fields.len() ==> fields[k].directives.len() == 0,
    ensures
        spec_compile(record, fields) matches Ok(a) && a.bindings.len() == 0 && a.members.len()
            == 0 && a.routine == spec_routine_text(record, Seq::empty()),
{
    lemma_analyze_no_annotations(fields);
}

proof fn lemma_analyze_no_annotations(fields: Seq<FieldV>)
    requires
        forall|k: int| 0 <= k < fields.len() ==> fields[k].directives.len() == 0,
    ensures
        spec_analyze(fields) == Ok::<Seq<crate::emit::BindingV>, DiagV>(Seq::empty()),
    decreases fields.len(),
{
    if fields.len() > 0 {
        let d = fields.drop_last();
        assert(forall|k: int| 0 <= k < d.len() ==> d[k] == fields[k]);
        lemma_analyze_no_annotations(d);
        assert(fields.last().directives.len() == 0);
    }
}

/// A field carrying two or more raw directives stops compilation with a
/// multiple-directives diagnostic at the second directive's coordinate,
/// whatever the directives say, provided no earlier field failed first.
pub proof fn lemma_multiple_directives(record: Seq<char>, fields: Seq<FieldV>, i: int)
    requires
        0 <= i < fields.len(),
        fields[i].directives.len() >= 2,
        forall|j: int| 0 <= j < i ==> spec_process_field(#[trigger] fields[j]) is Ok,
    ensures
        spec_compile(record, fields) == Err::<ArtifactsV, DiagV>(
            DiagV { kind: DiagKindV::MultipleDirectives, at: fields[i].directives[1].at },
        ),
{
    lemma_analyze_ok_prefix(fields, i);
    assert(fields.take(i + 1).drop_last() =~= fields.take(i));
    assert(fields.take(i + 1).last() == fields[i]);
    assert(spec_analyze(fields.take(i + 1)) == Err::<Seq<crate::emit::BindingV>, DiagV>(
        DiagV { kind: DiagKindV::MultipleDirectives, at: fields[i].directives[1].at },
    ));
    lemma_analyze_prefix_err(fields, i + 1);
}

proof fn lemma_analyze_ok_prefix(fields: Seq<FieldV>, i: int)
    requires
        0 <= i <= fields.len(),
        forall|j: int| 0 <= j < i ==> spec_process_field(#[trigger] fields[j]) is Ok,
    ensures
        spec_analyze(fields.take(i)) is Ok,
    decreases i,
{
    if i > 0 {
        lemma_analyze_ok_prefix(fields, i - 1);
        assert(fields.take(i).drop_last() =~= fields.take(i - 1));
        assert(fields.take(i).last() == fields[i - 1]);
    } else {
        assert(fields.take(0) =~= Seq::<FieldV>::empty());
    }
}

proof fn lemma_table_push_absent(t: Seq<PairV>, p: PairV, key: Seq<char>, i: int)
    requires
        0 <= i <= t.len(),
        table_get_at(t, key, i) is None,
        p.key != key,
    ensures
        table_get_at(t.push(p), key, i) is None,
    decreases t.len() - i,
{
    if i < t.len() {
        lemma_table_push_absent(t, p, key, i + 1);
    } else {
        assert(t.push(p)[i] == p);
        assert(table_get_at(t.push(p), key, i + 1) is None);
    }
}

proof fn lemma_scan_no_key(
    params: Seq<crate::registry::ParamSpecV>,
    args: Seq<PairV>,
    i: int,
    table: Seq<PairV>,
    result_table: Seq<PairV>,
    key: Seq<char>,
)
    requires
        0 <= i <= args.len(),
        scan_at(params, args, i, table) == Ok::<Seq<PairV>, DiagKindV>(result_table),
        !table_has(table, key),
        forall|k: int| i <= k < args.len() ==> args[k].key != key,
    ensures
        !table_has(result_table, key),
    decreases args.len() - i,
{
    if i < args.len() {
        lemma_table_push_absent(table, args[i], key, 0);
        lemma_scan_no_key(params, args, i + 1, table.push(args[i]), result_table, key);
    }
}

/// A range-style slider directive that sets neither `min` nor `max` (and
/// is otherwise well-formed) is refused for its first-declared required
/// parameter: the diagnostic names `min`, never `max`.
pub proof fn lemma_slider_needs_min(args: Seq<PairV>, deflt: Seq<char>, table: Seq<PairV>)
    requires
        spec_scan(spec_slider_kind().params, args) == Ok::<Seq<PairV>, DiagKindV>(table),
        forall|k: int| 0 <= k < args.len() ==> args[k].key != "min"@,
        forall|k: int| 0 <= k < args.len() ==> args[k].key != "max"@,
    ensures
        spec_resolve(NodeV::Named { kind: "slider"@, args }, deflt) == Err::<TagV, DiagKindV>(
            DiagKindV::MissingRequiredParameter { param: "min"@ },
        ),
{
    reveal_strlit("input");
    reveal_strlit("slider");
    assert("input"@.len() == 5);
    assert("slider"@.len() == 6);
    assert(spec_registry()[0] == crate::registry::spec_input_kind());
    assert(spec_registry()[1] == spec_slider_kind());
    assert(spec_registry()[0].name != "slider"@);
    assert(crate::registry::lookup_at(spec_registry(), "slider"@, 1) == Some(spec_slider_kind()));
    assert(crate::registry::lookup_at(spec_registry(), "slider"@, 0) == Some(spec_slider_kind()));
    assert(crate::registry::spec_lookup("slider"@) == Some(spec_slider_kind()));
    lemma_scan_no_key(spec_slider_kind().params, args, 0, Seq::empty(), table, "min"@);
    let params = spec_slider_kind().params;
    assert(!params[0].required && !params[1].required);
    assert(params[2].required && params[2].name == "min"@);
    assert(crate::resolve::req_at(params, table, 2) == Some("min"@));
    assert(crate::resolve::req_at(params, table, 1) == Some("min"@));
    assert(crate::resolve::req_at(params, table, 0) == Some("min"@));
    assert(spec_req_missing(spec_slider_kind().params, table) == Some("min"@));
}

/// A tag that demands a fixed string array is incompatible with every
/// numeric-scalar field, whatever the scalar's width or signedness.
pub proof fn lemma_combobox_rejects_scalar(t: TagV, width: u32, signed: bool)
    requires
        t matches TagV::Combobox { .. },
    ensures
        spec_check(t, TypeCategory::NumericScalar { width, signed }) == Some(
            DiagKindV::TypeIncompatible {
                widget: "combobox"@,
                category: TypeCategory::NumericScalar { width, signed },
            },
        ),
{
}

/// Compilation is deterministic: the result is a function of the record
/// name and the schema alone, so compiling the same schema twice yields
/// byte-identical artifacts.  The executable compiler's contract ties
/// each run to this one function.
pub proof fn lemma_deterministic(record: Seq<char>, fields: Seq<FieldV>)
    ensures
        spec_compile(record, fields) == spec_compile(record, fields),
{
}

/// The synthesized record mirrors the bindings exactly: one member per
/// binding, in the same order, named after the same field, typed by that
/// binding's widget result.
pub proof fn lemma_members_match(record: Seq<char>, fields: Seq<FieldV>, a: ArtifactsV)
    requires
        spec_compile(record, fields) == Ok::<ArtifactsV, DiagV>(a),
    ensures
        a.members.len() == a.bindings.len(),
        forall|k: int| 0 <= k < a.bindings.len() ==> a.members[k] == spec_member_of(
            #[trigger] a.bindings[k],
        ),
{
}

/// The annotated fields of a schema, in declaration order.
pub open spec fn annotated_fields(fields: Seq<FieldV>) -> Seq<FieldV>
    decreases fields.len(),
{
    if fields.len() == 0 {
        Seq::empty()
    } else if fields.last().directives.len() > 0 {
        annotated_fields(fields.drop_last()).push(fields.last())
    } else {
        annotated_fields(fields.drop_last())
    }
}

proof fn lemma_analyze_order(fields: Seq<FieldV>, bs: Seq<crate::emit::BindingV>)
    requires
        spec_analyze(fields) == Ok::<Seq<crate::emit::BindingV>, DiagV>(bs),
    ensures
        bs.len() == annotated_fields(fields).len(),
        forall|k: int| 0 <= k < bs.len() ==> (#[trigger] bs[k]).field == annotated_fields(
            fields,
        )[k].name,
    decreases fields.len(),
{
    if fields.len() > 0 {
        let prev = spec_analyze(fields.drop_last());
        match prev {
            Ok(pbs) => {
                lemma_analyze_order(fields.drop_last(), pbs);
            },
            Err(_) => {},
        }
    }
}

/// Emission order is field-declaration order: a compiled schema has
/// exactly one binding and one member per annotated field, each named
/// after its field, in the order the fields were declared; an
/// unannotated field contributes neither.
pub proof fn lemma_declaration_order(record: Seq<char>, fields: Seq<FieldV>, a: ArtifactsV)
    requires
        spec_compile(record, fields) == Ok::<ArtifactsV, DiagV>(a),
    ensures
        a.bindings.len() == annotated_fields(fields).len(),
        a.members.len() == annotated_fields(fields).len(),
        forall|k: int| 0 <= k < a.bindings.len() ==> (#[trigger] a.bindings[k]).field
            == annotated_fields(fields)[k].name,
        forall|k: int| 0 <= k < a.members.len() ==> (#[trigger] a.members[k]).name
            == annotated_fields(fields)[k].name,
{
    match spec_analyze(fields) {
        Ok(bs) => {
            lemma_analyze_order(fields, bs);
        },
        Err(_) => {},
    }
}

} // verus!
