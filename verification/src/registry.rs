use vstd::prelude::*;
use vstd::string::*;
use crate::ast::LitKind;

verus! {

/// What a widget kind's build operation reports back for one draw pass.
#[derive(Clone, Copy, PartialEq, Eq, Structural, Debug)]
pub enum ResultKind {
    /// A value-changed / activated flag.
    Flag,
    /// A selection-index change.
    Selection,
}

/// Which type categories a widget kind accepts.
#[derive(Clone, Copy, PartialEq, Eq, Structural, Debug)]
pub enum Accepts {
    /// Category-generic: the toolkit handles any field.
    Any,
    /// Only a single numeric scalar.
    NumericScalarOnly,
    /// Only a fixed-length string array.
    FixedStringArrayOnly,
}

/// One parameter of a widget kind's schema.
#[derive(Clone, PartialEq, Eq, Debug)]
pub struct ParamSpec {
    pub name: String,
    pub kind: LitKind,
    pub required: bool,
}

/// Mathematical model of a parameter schema entry.
pub struct ParamSpecV {
    pub name: Seq<char>,
    pub kind: LitKind,
    pub required: bool,
}

impl View for ParamSpec {
    type V = ParamSpecV;

    open spec fn view(&self) -> ParamSpecV {
        ParamSpecV { name: self.name@, kind: self.kind, required: self.required }
    }
}

/// One entry of the widget-kind registry: the kind's name, its parameter
/// schema in declaration order, the categories it accepts, and the result
/// type its build operation returns.
#[derive(Clone, PartialEq, Eq, Debug)]
pub struct KindSpec {
    pub name: String,
    pub params: Vec<ParamSpec>,
    pub accepts: Accepts,
    pub result: ResultKind,
}

/// Mathematical model of a registry entry.
pub struct KindSpecV {
    pub name: Seq<char>,
    pub params: Seq<ParamSpecV>,
    pub accepts: Accepts,
    pub result: ResultKind,
}

impl View for KindSpec {
    type V = KindSpecV;

    open spec fn view(&self) -> KindSpecV {
        KindSpecV {
            name: self.name@,
            params: self.params@.map_values(|p: ParamSpec| p@),
            accepts: self.accepts,
            result: self.result,
        }
    }
}

pub open spec fn reg_view(r: Seq<KindSpec>) -> Seq<KindSpecV> {
    r.map_values(|k: KindSpec| k@)
}

pub open spec fn spec_param(name: Seq<char>, kind: LitKind, required: bool) -> ParamSpecV {
    ParamSpecV { name, kind, required }
}

pub open spec fn spec_input_kind() -> KindSpecV {
    KindSpecV {
        name: "input"@,
        params: seq![
            spec_param("label"@, LitKind::Str, false),
            spec_param("precision"@, LitKind::Int, false),
            spec_param("step"@, LitKind::Float, false),
            spec_param("step_fast"@, LitKind::Float, false),
        ],
        accepts: Accepts::NumericScalarOnly,
        result: ResultKind::Flag,
    }
}

pub open spec fn spec_slider_kind() -> KindSpecV {
    KindSpecV {
        name: "slider"@,
        params: seq![
            spec_param("label"@, LitKind::Str, false),
            spec_param("display"@, LitKind::Str, false),
            spec_param("min"@, LitKind::Float, true),
            spec_param("max"@, LitKind::Float, true),
        ],
        accepts: Accepts::NumericScalarOnly,
        result: ResultKind::Flag,
    }
}

pub open spec fn spec_drag_kind() -> KindSpecV {
    KindSpecV {
        name: "drag"@,
        params: seq![
            spec_param("label"@, LitKind::Str, false),
            spec_param("display"@, LitKind::Str, false),
            spec_param("min"@, LitKind::Float, false),
            spec_param("max"@, LitKind::Float, false),
            spec_param("speed"@, LitKind::Float, false),
            spec_param("power"@, LitKind::Float, false),
        ],
        accepts: Accepts::NumericScalarOnly,
        result: ResultKind::Flag,
    }
}

pub open spec fn spec_combobox_kind() -> KindSpecV {
    KindSpecV {
        name: "combobox"@,
        params: seq![
            spec_param("label"@, LitKind::Str, false),
            spec_param("selected"@, LitKind::Int, true),
        ],
        accepts: Accepts::FixedStringArrayOnly,
        result: ResultKind::Selection,
    }
}

/// The registry contents, in a fixed order.
pub open spec fn spec_registry() -> Seq<KindSpecV> {
    seq![spec_input_kind(), spec_slider_kind(), spec_drag_kind(), spec_combobox_kind()]
}

fn param(name: &str, kind: LitKind, required: bool) -> (p: ParamSpec)
    ensures
        p@ == spec_param(name@, kind, required),
{
    ParamSpec { name: String::from_str(name), kind, required }
}

/// Build the registry of known widget kinds.
pub fn registry() -> (r: Vec<KindSpec>)
    ensures
        reg_view(r@) == spec_registry(),
{
    let mut input_params: Vec<ParamSpec> = Vec::new();
    input_params.push(param("label", LitKind::Str, false));
    input_params.push(param("precision", LitKind::Int, false));
    input_params.push(param("step", LitKind::Float, false));
    input_params.push(param("step_fast", LitKind::Float, false));
    let input = KindSpec {
        name: String::from_str("input"),
        params: input_params,
        accepts: Accepts::NumericScalarOnly,
        result: ResultKind::Flag,
    };
    proof {
        assert(input@.params =~= spec_input_kind().params);
        assert(input@ == spec_input_kind());
    }
    let mut slider_params: Vec<ParamSpec> = Vec::new();
    slider_params.push(param("label", LitKind::Str, false));
    slider_params.push(param("display", LitKind::Str, false));
    slider_params.push(param("min", LitKind::Float, true));
    slider_params.push(param("max", LitKind::Float, true));
    let slider = KindSpec {
        name: String::from_str("slider"),
        params: slider_params,
        accepts: Accepts::NumericScalarOnly,
        result: ResultKind::Flag,
    };
    proof {
        assert(slider@.params =~= spec_slider_kind().params);
        assert(slider@ == spec_slider_kind());
    }
    let mut drag_params: Vec<ParamSpec> = Vec::new();
    drag_params.push(param("label", LitKind::Str, false));
    drag_params.push(param("display", LitKind::Str, false));
    drag_params.push(param("min", LitKind::Float, false));
    drag_params.push(param("max", LitKind::Float, false));
    drag_params.push(param("speed", LitKind::Float, false));
    drag_params.push(param("power", LitKind::Float, false));
    let drag = KindSpec {
        name: String::from_str("drag"),
        params: drag_params,
        accepts: Accepts::NumericScalarOnly,
        result: ResultKind::Flag,
    };
    proof {
        assert(drag@.params =~= spec_drag_kind().params);
        assert(drag@ == spec_drag_kind());
    }
    let mut combobox_params: Vec<ParamSpec> = Vec::new();
    combobox_params.push(param("label", LitKind::Str, false));
    combobox_params.push(param("selected", LitKind::Int, true));
    let combobox = KindSpec {
        name: String::from_str("combobox"),
        params: combobox_params,
        accepts: Accepts::FixedStringArrayOnly,
        result: ResultKind::Selection,
    };
    proof {
        assert(combobox@.params =~= spec_combobox_kind().params);
        assert(combobox@ == spec_combobox_kind());
    }
    let mut r: Vec<KindSpec> = Vec::new();
    r.push(input);
    r.push(slider);
    r.push(drag);
    r.push(combobox);
    proof {
        assert(reg_view(r@) =~= spec_registry());
    }
    r
}

/// The registry entry named `name`, scanning in registry order.
pub open spec fn lookup_at(reg: Seq<KindSpecV>, name: Seq<char>, i: int) -> Option<KindSpecV>
    decreases reg.len() - i
    when 0 <= i <= reg.len()
{
    if i == reg.len() {
        None
    } else if reg[i].name == name {
        Some(reg[i])
    } else {
        lookup_at(reg, name, i + 1)
    }
}

pub open spec fn spec_lookup(name: Seq<char>) -> Option<KindSpecV> {
    lookup_at(spec_registry(), name, 0)
}

/// Compare two string slices by their characters.
pub fn str_eq(a: &str, b: &str) -> (r: bool)
    ensures
        r == (a@ == b@),
{
    let sa = String::from_str(a);
    let sb = String::from_str(b);
    sa.eq(&sb)
}

fn lookup_from(reg: &Vec<KindSpec>, name: &str, i: usize) -> (r: Option<usize>)
    requires
        i <= reg@.len(),
    ensures
        match r {
            Some(ix) => i <= ix < reg@.len() && lookup_at(reg_view(reg@), name@, i as int)
                == Some(reg_view(reg@)[ix as int]),
            None => lookup_at(reg_view(reg@), name@, i as int) is None,
        },
    decreases reg@.len() - i,
{
    if i == reg.len() {
        return None;
    }
    if str_eq(reg[i].name.as_str(), name) {
        Some(i)
    } else {
        lookup_from(reg, name, i + 1)
    }
}

/// Index of the registry entry named `name`, if the registry knows it.
pub fn lookup(reg: &Vec<KindSpec>, name: &str) -> (r: Option<usize>)
    ensures
        match r {
            Some(ix) => ix < reg@.len() && spec_lookup_in(reg_view(reg@), name@) == Some(
                reg_view(reg@)[ix as int],
            ),
            None => spec_lookup_in(reg_view(reg@), name@) is None,
        },
{
    lookup_from(reg, name, 0)
}

/// The registry entry named `name` in an arbitrary registry value.
pub open spec fn spec_lookup_in(reg: Seq<KindSpecV>, name: Seq<char>) -> Option<KindSpecV> {
    lookup_at(reg, name, 0)
}

/// No parameter of the schema is required.
pub open spec fn spec_all_optional(params: Seq<ParamSpecV>) -> bool {
    forall|k: int| 0 <= k < params.len() ==> !params[k].required
}

/// Executable twin of [`spec_all_optional`].
pub fn all_optional(params: &Vec<ParamSpec>) -> (r: bool)
    ensures
        r == spec_all_optional(params@.map_values(|p: ParamSpec| p@)),
{
    let ghost pv = params@.map_values(|p: ParamSpec| p@);
    let mut i: usize = 0;
    while i < params.len()
        invariant
            i <= params@.len(),
            pv == params@.map_values(|p: ParamSpec| p@),
            forall|k: int| 0 <= k < i ==> !pv[k].required,
        decreases params@.len() - i,
    {
        if params[i].required {
            proof {
                assert(pv[i as int].required);
            }
            return false;
        }
        i = i + 1;
    }
    true
}

} // verus!
