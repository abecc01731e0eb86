use vstd::prelude::*;
use crate::check::{check_tag, spec_check};
use crate::diag::{DiagKind, DiagKindV, Diagnostic, DiagV};
use crate::emit::{bindings_view, members_of, members_view, render_declaration, render_routine,
    spec_decl_text, spec_members, spec_routine_text, Binding, BindingV, Member, MemberV};
use crate::parse::{parse_payload, spec_parse_payload};
use crate::resolve::{resolve, spec_resolve};
use crate::schema::{fields_view, Field, FieldV};

verus! {

/// Process one field: no directive yields no binding, one directive runs
/// parse, resolve and check in that order, more than one directive is
/// refused with the second directive's coordinate.
pub open spec fn spec_process_field(f: FieldV) -> Result<Option<BindingV>, DiagV> {
    if f.directives.len() == 0 {
        Ok(None)
    } else if f.directives.len() >= 2 {
        Err(DiagV { kind: DiagKindV::MultipleDirectives, at: f.directives[1].at })
    } else {
        let d = f.directives[0];
        match spec_parse_payload(d.text) {
            None => Err(DiagV { kind: DiagKindV::SyntaxError, at: d.at }),
            Some(node) => match spec_resolve(node, f.name) {
                Err(k) => Err(DiagV { kind: k, at: d.at }),
                Ok(tag) => match spec_check(tag, f.category) {
                    Some(k) => Err(DiagV { kind: k, at: d.at }),
                    None => Ok(Some(BindingV { field: f.name, tag })),
                },
            },
        }
    }
}

/// Executable twin of [`spec_process_field`].
pub fn process_field(f: &Field) -> (r: Result<Option<Binding>, Diagnostic>)
    ensures
        match r {
            Ok(Some(b)) => spec_process_field(f@) == Ok::<Option<BindingV>, DiagV>(Some(b@)),
            Ok(None) => spec_process_field(f@) == Ok::<Option<BindingV>, DiagV>(None),
            Err(e) => spec_process_field(f@) == Err::<Option<BindingV>, DiagV>(e@),
        },
{
    if f.directives.len() == 0 {
        return Ok(None);
    }
    if f.directives.len() >= 2 {
        return Err(Diagnostic { kind: DiagKind::MultipleDirectives, at: f.directives[1].at });
    }
    let d = &f.directives[0];
    match parse_payload(d.text.as_str()) {
        None => Err(Diagnostic { kind: DiagKind::SyntaxError, at: d.at }),
        Some(node) => match resolve(&node, f.name.as_str()) {
            Err(k) => Err(Diagnostic { kind: k, at: d.at }),
            Ok(tag) => match check_tag(&tag, f.category) {
                Some(k) => Err(Diagnostic { kind: k, at: d.at }),
                None => Ok(Some(Binding { field: f.name.clone(), tag })),
            },
        },
    }
}

/// Fold the fields in declaration order, collecting one binding per
/// annotated field and stopping at the first diagnostic.
pub open spec fn spec_analyze(fields: Seq<FieldV>) -> Result<Seq<BindingV>, DiagV>
    decreases fields.len(),
{
    if fields.len() == 0 {
        Ok(Seq::empty())
    } else {
        match spec_analyze(fields.drop_last()) {
            Err(e) => Err(e),
            Ok(bs) => match spec_process_field(fields.last()) {
                Err(e) => Err(e),
                Ok(ob) => match ob {
                    None => Ok(bs),
                    Some(b) => Ok(bs.push(b)),
                },
            },
        }
    }
}

/// A diagnostic in some prefix of the schema settles the whole schema:
/// everything after the first failing field is never reached.
pub proof fn lemma_analyze_prefix_err(fields: Seq<FieldV>, j: int)
    requires
        0 <= j <= fields.len(),
        spec_analyze(fields.take(j)) is Err,
    ensures
        spec_analyze(fields) == spec_analyze(fields.take(j)),
    decreases fields.len(),
{
    if j < fields.len() {
        let d = fields.drop_last();
        assert(d.take(j) =~= fields.take(j));
        lemma_analyze_prefix_err(d, j);
    } else {
        assert(fields.take(j) =~= fields);
    }
}

/// Executable twin of [`spec_analyze`].
pub fn analyze(fields: &Vec<Field>) -> (r: Result<Vec<Binding>, Diagnostic>)
    ensures
        match r {
            Ok(bs) => spec_analyze(fields_view(fields@)) == Ok::<Seq<BindingV>, DiagV>(
                bindings_view(bs@),
            ),
            Err(e) => spec_analyze(fields_view(fields@)) == Err::<Seq<BindingV>, DiagV>(e@),
        },
{
    let ghost fv = fields_view(fields@);
    let mut out: Vec<Binding> = Vec::new();
    let mut i: usize = 0;
    proof {
        assert(fv.take(0) =~= Seq::<FieldV>::empty());
        assert(bindings_view(out@) =~= Seq::<BindingV>::empty());
    }
    while i < fields.len()
        invariant
            i <= fields@.len(),
            fv == fields_view(fields@),
            spec_analyze(fv.take(i as int)) == Ok::<Seq<BindingV>, DiagV>(bindings_view(out@)),
        decreases fields@.len() - i,
    {
        proof {
            assert(fv.take(i as int + 1).drop_last() =~= fv.take(i as int));
            assert(fv.take(i as int + 1).last() == fv[i as int]);
            assert(fields@[i as int]@ == fv[i as int]);
        }
        match process_field(&fields[i]) {
            Err(e) => {
                proof {
                    assert(spec_analyze(fv.take(i as int + 1)) is Err);
                    lemma_analyze_prefix_err(fv, i as int + 1);
                }
                return Err(e);
            },
            Ok(Some(b)) => {
                let ghost added = b@;
                let ghost before = out@;
                out.push(b);
                proof {
                    assert(bindings_view(out@) =~= bindings_view(before).push(added));
                }
            },
            Ok(None) => {},
        }
        i = i + 1;
    }
    proof {
        assert(fv.take(fv.len() as int) =~= fv);
    }
    Ok(out)
}

/// The two generated artifacts with their in-memory code model: the
/// bindings and members in field-declaration order, and the rendered
/// routine and record-declaration texts.
#[derive(Clone, PartialEq, Eq, Debug)]
pub struct Artifacts {
    pub bindings: Vec<Binding>,
    pub members: Vec<Member>,
    pub routine: String,
    pub declaration: String,
}

/// Mathematical model of the artifacts.
pub struct ArtifactsV {
    pub bindings: Seq<BindingV>,
    pub members: Seq<MemberV>,
    pub routine: Seq<char>,
    pub declaration: Seq<char>,
}

impl View for Artifacts {
    type V = ArtifactsV;

    open spec fn view(&self) -> ArtifactsV {
        ArtifactsV {
            bindings: bindings_view(self.bindings@),
            members: members_view(self.members@),
            routine: self.routine@,
            declaration: self.declaration@,
        }
    }
}

/// Compile a schema: analyze every field in declaration order and, when
/// no diagnostic arises, emit both artifacts.  The result is a function
/// of the record name and the schema alone.
pub open spec fn spec_compile(record: Seq<char>, fields: Seq<FieldV>) -> Result<
    ArtifactsV,
    DiagV,
> {
    match spec_analyze(fields) {
        Err(e) => Err(e),
        Ok(bs) => Ok(
            ArtifactsV {
                bindings: bs,
                members: spec_members(bs),
                routine: spec_routine_text(record, bs),
                declaration: spec_decl_text(record, spec_members(bs)),
            },
        ),
    }
}

/// Executable twin of [`spec_compile`]: the whole compiler front end.
pub fn compile(record: &str, fields: &Vec<Field>) -> (r: Result<Artifacts, Diagnostic>)
    ensures
        match r {
            Ok(a) => spec_compile(record@, fields_view(fields@)) == Ok::<ArtifactsV, DiagV>(a@),
            Err(e) => spec_compile(record@, fields_view(fields@)) == Err::<ArtifactsV, DiagV>(e@),
        },
{
    match analyze(fields) {
        Err(e) => Err(e),
        Ok(bindings) => {
            let members = members_of(&bindings);
            let routine = render_routine(record, &bindings);
            let declaration = render_declaration(record, &members);
            Ok(Artifacts { bindings, members, routine, declaration })
        },
    }
}

} // verus!
