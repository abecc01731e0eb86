use vstd::prelude::*;
use crate::ast::{IntLit, IntLitV};

verus! {

pub open spec fn opt_str_view(o: Option<String>) -> Option<Seq<char>> {
    match o {
        Some(s) => Some(s@),
        None => None,
    }
}

pub open spec fn opt_int_view(o: Option<IntLit>) -> Option<IntLitV> {
    match o {
        Some(i) => Some(i@),
        None => None,
    }
}

/// A resolved directive: one widget kind with a fully populated parameter
/// record.  Labels are already defaulted to the field's own name; float
/// parameters carry the literal's source spelling.
#[derive(Clone, PartialEq, Eq, Debug)]
pub enum Tag {
    /// A category-generic widget with only a label.
    Simple { label: String },
    /// A numeric input box.
    NumericInput {
        label: String,
        precision: Option<IntLit>,
        step: Option<String>,
        step_fast: Option<String>,
    },
    /// A bounded slider; `min` and `max` are required.
    Slider { label: String, display: Option<String>, min: String, max: String },
    /// A drag control; every bound is optional.
    Drag {
        label: String,
        display: Option<String>,
        min: Option<String>,
        max: Option<String>,
        speed: Option<String>,
        power: Option<String>,
    },
    /// A combo box over a fixed string array; `selected` is required.
    Combobox { label: String, selected: IntLit },
}

/// Mathematical model of a resolved tag.
pub enum TagV {
    Simple { label: Seq<char> },
    NumericInput {
        label: Seq<char>,
        precision: Option<IntLitV>,
        step: Option<Seq<char>>,
        step_fast: Option<Seq<char>>,
    },
    Slider { label: Seq<char>, display: Option<Seq<char>>, min: Seq<char>, max: Seq<char> },
    Drag {
        label: Seq<char>,
        display: Option<Seq<char>>,
        min: Option<Seq<char>>,
        max: Option<Seq<char>>,
        speed: Option<Seq<char>>,
        power: Option<Seq<char>>,
    },
    Combobox { label: Seq<char>, selected: IntLitV },
}

impl View for Tag {
    type V = TagV;

    open spec fn view(&self) -> TagV {
        match self {
            Tag::Simple { label } => TagV::Simple { label: label@ },
            Tag::NumericInput { label, precision, step, step_fast } => TagV::NumericInput {
                label: label@,
                precision: opt_int_view(*precision),
                step: opt_str_view(*step),
                step_fast: opt_str_view(*step_fast),
            },
            Tag::Slider { label, display, min, max } => TagV::Slider {
                label: label@,
                display: opt_str_view(*display),
                min: min@,
                max: max@,
            },
            Tag::Drag { label, display, min, max, speed, power } => TagV::Drag {
                label: label@,
                display: opt_str_view(*display),
                min: opt_str_view(*min),
                max: opt_str_view(*max),
                speed: opt_str_view(*speed),
                power: opt_str_view(*power),
            },
            Tag::Combobox { label, selected } => TagV::Combobox {
                label: label@,
                selected: selected@,
            },
        }
    }
}

} // verus!
