use vstd::prelude::*;
use vstd::string::*;
use crate::ast::{kind_of, lit_kind_of, IntLit, IntLitV, Literal, LiteralV, Node, NodeV, Pair,
    PairV};
use crate::diag::{DiagKind, DiagKindV};
use crate::parse::pairs_view;
use crate::registry::{all_optional, lookup, registry, spec_all_optional, spec_lookup, str_eq,
    KindSpec, ParamSpec, ParamSpecV};
use crate::tag::{opt_int_view, opt_str_view, Tag, TagV};

verus! {

/// The value stored under `key`, scanning the table from position `i`.
pub open spec fn table_get_at(table: Seq<PairV>, key: Seq<char>, i: int) -> Option<LiteralV>
    decreases table.len() - i
    when 0 <= i <= table.len()
{
    if i == table.len() {
        None
    } else if table[i].key == key {
        Some(table[i].value)
    } else {
        table_get_at(table, key, i + 1)
    }
}

pub open spec fn table_get(table: Seq<PairV>, key: Seq<char>) -> Option<LiteralV> {
    table_get_at(table, key, 0)
}

pub open spec fn table_has(table: Seq<PairV>, key: Seq<char>) -> bool {
    table_get(table, key) is Some
}

pub open spec fn get_str(table: Seq<PairV>, key: Seq<char>) -> Option<Seq<char>> {
    match table_get(table, key) {
        Some(LiteralV::Str(s)) => Some(s),
        _ => None,
    }
}

pub open spec fn get_float(table: Seq<PairV>, key: Seq<char>) -> Option<Seq<char>> {
    match table_get(table, key) {
        Some(LiteralV::Float(f)) => Some(f),
        _ => None,
    }
}

pub open spec fn get_int(table: Seq<PairV>, key: Seq<char>) -> Option<IntLitV> {
    match table_get(table, key) {
        Some(LiteralV::Int(i)) => Some(i),
        _ => None,
    }
}

/// The explicit label, or the field's own name when none was given.
pub open spec fn label_or(table: Seq<PairV>, deflt: Seq<char>) -> Seq<char> {
    match get_str(table, "label"@) {
        Some(s) => s,
        None => deflt,
    }
}

pub open spec fn float_or_empty(table: Seq<PairV>, key: Seq<char>) -> Seq<char> {
    match get_float(table, key) {
        Some(f) => f,
        None => Seq::empty(),
    }
}

pub open spec fn int_or_zero(table: Seq<PairV>, key: Seq<char>) -> IntLitV {
    match get_int(table, key) {
        Some(i) => i,
        None => IntLitV { value: 0, text: Seq::empty() },
    }
}

/// The first parameter schema entry named `key`, from position `i` on.
pub open spec fn find_param_at(params: Seq<ParamSpecV>, key: Seq<char>, i: int) -> Option<
    ParamSpecV,
>
    decreases params.len() - i
    when 0 <= i <= params.len()
{
    if i == params.len() {
        None
    } else if params[i].name == key {
        Some(params[i])
    } else {
        find_param_at(params, key, i + 1)
    }
}

pub open spec fn find_param(params: Seq<ParamSpecV>, key: Seq<char>) -> Option<ParamSpecV> {
    find_param_at(params, key, 0)
}

/// Validate arguments left to right against a parameter schema, starting
/// at argument `i` with the table built so far.  An unknown key, a key
/// given twice, and a literal of the wrong kind each stop the scan.
pub open spec fn scan_at(
    params: Seq<ParamSpecV>,
    args: Seq<PairV>,
    i: int,
    table: Seq<PairV>,
) -> Result<Seq<PairV>, DiagKindV>
    decreases args.len() - i
    when 0 <= i <= args.len()
{
    if i == args.len() {
        Ok(table)
    } else {
        let p = args[i];
        match find_param(params, p.key) {
            None => Err(DiagKindV::UnrecognizedParameter { param: p.key }),
            Some(ps) => {
                if table_has(table, p.key) {
                    Err(DiagKindV::ParameterAlreadySet { param: p.key })
                } else if lit_kind_of(p.value) != ps.kind {
                    Err(DiagKindV::LiteralKindMismatch { param: p.key, expected: ps.kind })
                } else {
                    scan_at(params, args, i + 1, table.push(p))
                }
            },
        }
    }
}

pub open spec fn spec_scan(params: Seq<ParamSpecV>, args: Seq<PairV>) -> Result<
    Seq<PairV>,
    DiagKindV,
> {
    scan_at(params, args, 0, Seq::empty())
}

/// The first required parameter, in schema-declaration order from
/// position `i`, that the table does not hold.
pub open spec fn req_at(params: Seq<ParamSpecV>, table: Seq<PairV>, i: int) -> Option<Seq<char>>
    decreases params.len() - i
    when 0 <= i <= params.len()
{
    if i == params.len() {
        None
    } else if params[i].required && !table_has(table, params[i].name) {
        Some(params[i].name)
    } else {
        req_at(params, table, i + 1)
    }
}

pub open spec fn spec_req_missing(params: Seq<ParamSpecV>, table: Seq<PairV>) -> Option<
    Seq<char>,
> {
    req_at(params, table, 0)
}

/// The tag a validated table yields for a known widget kind.
pub open spec fn build_tag(kind: Seq<char>, table: Seq<PairV>, deflt: Seq<char>) -> TagV {
    if kind == "input"@ {
        TagV::NumericInput {
            label: label_or(table, deflt),
            precision: get_int(table, "precision"@),
            step: get_float(table, "step"@),
            step_fast: get_float(table, "step_fast"@),
        }
    } else if kind == "slider"@ {
        TagV::Slider {
            label: label_or(table, deflt),
            display: get_str(table, "display"@),
            min: float_or_empty(table, "min"@),
            max: float_or_empty(table, "max"@),
        }
    } else if kind == "drag"@ {
        TagV::Drag {
            label: label_or(table, deflt),
            display: get_str(table, "display"@),
            min: get_float(table, "min"@),
            max: get_float(table, "max"@),
            speed: get_float(table, "speed"@),
            power: get_float(table, "power"@),
        }
    } else if kind == "combobox"@ {
        TagV::Combobox { label: label_or(table, deflt), selected: int_or_zero(table, "selected"@) }
    } else {
        TagV::Simple { label: label_or(table, deflt) }
    }
}

/// Resolve one parsed directive node against the registry, with the
/// field's own name as the default label.
pub open spec fn spec_resolve(node: NodeV, deflt: Seq<char>) -> Result<TagV, DiagKindV> {
    match node {
        NodeV::Unit => Ok(TagV::Simple { label: deflt }),
        NodeV::Word(w) => match spec_lookup(w) {
            Some(k) => {
                if spec_all_optional(k.params) {
                    Ok(build_tag(w, Seq::empty(), deflt))
                } else {
                    Ok(TagV::Simple { label: deflt })
                }
            },
            None => Ok(TagV::Simple { label: deflt }),
        },
        NodeV::Pairs(ps) => {
            if ps.len() == 1 && ps[0].key == "label"@ {
                match ps[0].value {
                    LiteralV::Str(s) => Ok(TagV::Simple { label: s }),
                    _ => Err(DiagKindV::SyntaxError),
                }
            } else {
                Err(DiagKindV::SyntaxError)
            }
        },
        NodeV::Named { kind, args } => match spec_lookup(kind) {
            None => Err(DiagKindV::UnsupportedWidgetKind { kind }),
            Some(k) => match spec_scan(k.params, args) {
                Err(e) => Err(e),
                Ok(table) => match spec_req_missing(k.params, table) {
                    Some(p) => Err(DiagKindV::MissingRequiredParameter { param: p }),
                    None => Ok(build_tag(kind, table, deflt)),
                },
            },
        },
    }
}

fn clone_literal(l: &Literal) -> (r: Literal)
    ensures
        r@ == l@,
{
    match l {
        Literal::Str(s) => Literal::Str(s.clone()),
        Literal::Int(i) => Literal::Int(IntLit { value: i.value, text: i.text.clone() }),
        Literal::Float(f) => Literal::Float(f.clone()),
        Literal::Word(w) => Literal::Word(w.clone()),
    }
}

fn table_find(table: &Vec<Pair>, key: &str, i: usize) -> (r: Option<usize>)
    requires
        i <= table@.len(),
    ensures
        match r {
            Some(ix) => i <= ix < table@.len() && table_get_at(pairs_view(table@), key@, i as int)
                == Some(pairs_view(table@)[ix as int].value),
            None => table_get_at(pairs_view(table@), key@, i as int) is None,
        },
    decreases table@.len() - i,
{
    if i == table.len() {
        return None;
    }
    if str_eq(table[i].key.as_str(), key) {
        Some(i)
    } else {
        table_find(table, key, i + 1)
    }
}

fn get_str_x(table: &Vec<Pair>, key: &str) -> (r: Option<String>)
    ensures
        opt_str_view(r) == get_str(pairs_view(table@), key@),
{
    match table_find(table, key, 0) {
        None => None,
        Some(ix) => match &table[ix].value {
            Literal::Str(s) => Some(s.clone()),
            _ => None,
        },
    }
}

fn get_float_x(table: &Vec<Pair>, key: &str) -> (r: Option<String>)
    ensures
        opt_str_view(r) == get_float(pairs_view(table@), key@),
{
    match table_find(table, key, 0) {
        None => None,
        Some(ix) => match &table[ix].value {
            Literal::Float(f) => Some(f.clone()),
            _ => None,
        },
    }
}

fn get_int_x(table: &Vec<Pair>, key: &str) -> (r: Option<IntLit>)
    ensures
        opt_int_view(r) == get_int(pairs_view(table@), key@),
{
    match table_find(table, key, 0) {
        None => None,
        Some(ix) => match &table[ix].value {
            Literal::Int(i) => Some(IntLit { value: i.value, text: i.text.clone() }),
            _ => None,
        },
    }
}

fn label_or_x(table: &Vec<Pair>, deflt: &str) -> (r: String)
    ensures
        r@ == label_or(pairs_view(table@), deflt@),
{
    match get_str_x(table, "label") {
        Some(s) => s,
        None => String::from_str(deflt),
    }
}

fn find_param_x(params: &Vec<ParamSpec>, key: &str, i: usize) -> (r: Option<usize>)
    requires
        i <= params@.len(),
    ensures
        match r {
            Some(ix) => i <= ix < params@.len() && find_param_at(
                params@.map_values(|p: ParamSpec| p@),
                key@,
                i as int,
            ) == Some(params@.map_values(|p: ParamSpec| p@)[ix as int]),
            None => find_param_at(params@.map_values(|p: ParamSpec| p@), key@, i as int) is None,
        },
    decreases params@.len() - i,
{
    if i == params.len() {
        return None;
    }
    if str_eq(params[i].name.as_str(), key) {
        Some(i)
    } else {
        find_param_x(params, key, i + 1)
    }
}

fn scan_args_x(params: &Vec<ParamSpec>, args: &Vec<Pair>) -> (r: Result<Vec<Pair>, DiagKind>)
    ensures
        match r {
            Ok(t) => spec_scan(params@.map_values(|p: ParamSpec| p@), pairs_view(args@)) == Ok::<
                Seq<PairV>,
                DiagKindV,
            >(pairs_view(t@)),
            Err(e) => spec_scan(params@.map_values(|p: ParamSpec| p@), pairs_view(args@))
                == Err::<Seq<PairV>, DiagKindV>(e@),
        },
{
    let ghost pv = params@.map_values(|p: ParamSpec| p@);
    let ghost av = pairs_view(args@);
    let mut table: Vec<Pair> = Vec::new();
    let mut i: usize = 0;
    proof {
        assert(pairs_view(table@) =~= Seq::<PairV>::empty());
    }
    while i < args.len()
        invariant
            i <= args@.len(),
            pv == params@.map_values(|p: ParamSpec| p@),
            av == pairs_view(args@),
            scan_at(pv, av, 0, Seq::empty()) == scan_at(pv, av, i as int, pairs_view(table@)),
        decreases args@.len() - i,
    {
        let key_eq: &String = &args[i].key;
        match find_param_x(params, key_eq.as_str(), 0) {
            None => {
                return Err(DiagKind::UnrecognizedParameter { param: key_eq.clone() });
            },
            Some(pix) => {
                if table_find(&table, key_eq.as_str(), 0).is_some() {
                    return Err(DiagKind::ParameterAlreadySet { param: key_eq.clone() });
                }
                let vk = kind_of(&args[i].value);
                if vk != params[pix].kind {
                    return Err(
                        DiagKind::LiteralKindMismatch {
                            param: key_eq.clone(),
                            expected: params[pix].kind,
                        },
                    );
                }
                let p = Pair { key: args[i].key.clone(), value: clone_literal(&args[i].value) };
                let ghost tb = pairs_view(table@);
                table.push(p);
                proof {
                    assert(pairs_view(table@) =~= tb.push(av[i as int]));
                }
                i = i + 1;
            },
        }
    }
    Ok(table)
}

fn req_check_x(params: &Vec<ParamSpec>, table: &Vec<Pair>) -> (r: Option<String>)
    ensures
        opt_str_view(r) == spec_req_missing(
            params@.map_values(|p: ParamSpec| p@),
            pairs_view(table@),
        ),
{
    let ghost pv = params@.map_values(|p: ParamSpec| p@);
    let ghost tv = pairs_view(table@);
    let mut i: usize = 0;
    while i < params.len()
        invariant
            i <= params@.len(),
            pv == params@.map_values(|p: ParamSpec| p@),
            tv == pairs_view(table@),
            req_at(pv, tv, 0) == req_at(pv, tv, i as int),
        decreases params@.len() - i,
    {
        if params[i].required && table_find(table, params[i].name.as_str(), 0).is_none() {
            return Some(params[i].name.clone());
        }
        i = i + 1;
    }
    None
}

fn build_tag_x(kind: &str, table: &Vec<Pair>, deflt: &str) -> (t: Tag)
    ensures
        t@ == build_tag(kind@, pairs_view(table@), deflt@),
{
    if str_eq(kind, "input") {
        Tag::NumericInput {
            label: label_or_x(table, deflt),
            precision: get_int_x(table, "precision"),
            step: get_float_x(table, "step"),
            step_fast: get_float_x(table, "step_fast"),
        }
    } else if str_eq(kind, "slider") {
        Tag::Slider {
            label: label_or_x(table, deflt),
            display: get_str_x(table, "display"),
            min: match get_float_x(table, "min") {
                Some(f) => f,
                None => String::new(),
            },
            max: match get_float_x(table, "max") {
                Some(f) => f,
                None => String::new(),
            },
        }
    } else if str_eq(kind, "drag") {
        Tag::Drag {
            label: label_or_x(table, deflt),
            display: get_str_x(table, "display"),
            min: get_float_x(table, "min"),
            max: get_float_x(table, "max"),
            speed: get_float_x(table, "speed"),
            power: get_float_x(table, "power"),
        }
    } else if str_eq(kind, "combobox") {
        Tag::Combobox {
            label: label_or_x(table, deflt),
            selected: match get_int_x(table, "selected") {
                Some(i) => i,
                None => IntLit { value: 0, text: String::new() },
            },
        }
    } else {
        Tag::Simple { label: label_or_x(table, deflt) }
    }
}

/// Resolve one parsed directive node into a tag, defaulting the label to
/// the field's own identifier.
pub fn resolve(node: &Node, default_label: &str) -> (r: Result<Tag, DiagKind>)
    ensures
        match r {
            Ok(t) => spec_resolve(node@, default_label@) == Ok::<TagV, DiagKindV>(t@),
            Err(e) => spec_resolve(node@, default_label@) == Err::<TagV, DiagKindV>(e@),
        },
{
    match node {
        Node::Unit => Ok(Tag::Simple { label: String::from_str(default_label) }),
        Node::Word(w) => {
            let reg = registry();
            match lookup(&reg, w.as_str()) {
                Some(ix) => {
                    if all_optional(&reg[ix].params) {
                        let empty: Vec<Pair> = Vec::new();
                        proof {
                            assert(pairs_view(empty@) =~= Seq::<PairV>::empty());
                        }
                        Ok(build_tag_x(w.as_str(), &empty, default_label))
                    } else {
                        Ok(Tag::Simple { label: String::from_str(default_label) })
                    }
                },
                None => Ok(Tag::Simple { label: String::from_str(default_label) }),
            }
        },
        Node::Pairs(ps) => {
            if ps.len() == 1 && str_eq(ps[0].key.as_str(), "label") {
                match &ps[0].value {
                    Literal::Str(s) => Ok(Tag::Simple { label: s.clone() }),
                    _ => Err(DiagKind::SyntaxError),
                }
            } else {
                Err(DiagKind::SyntaxError)
            }
        },
        Node::Named { kind, args } => {
            let reg = registry();
            match lookup(&reg, kind.as_str()) {
                None => Err(DiagKind::UnsupportedWidgetKind { kind: kind.clone() }),
                Some(ix) => {
                    match scan_args_x(&reg[ix].params, args) {
                        Err(e) => Err(e),
                        Ok(table) => {
                            match req_check_x(&reg[ix].params, &table) {
                                Some(p) => Err(DiagKind::MissingRequiredParameter { param: p }),
                                None => Ok(build_tag_x(kind.as_str(), &table, default_label)),
                            }
                        },
                    }
                },
            }
        },
    }
}

} // verus!
