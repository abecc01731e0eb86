use vstd::prelude::*;
use vstd::string::*;
use crate::diag::{DiagKind, DiagKindV};
use crate::schema::TypeCategory;
use crate::tag::{Tag, TagV};

verus! {

/// The name a tag's widget kind goes by in diagnostics.
pub open spec fn spec_tag_kind_name(t: TagV) -> Seq<char> {
    match t {
        TagV::Simple { .. } => "simple"@,
        TagV::NumericInput { .. } => "input"@,
        TagV::Slider { .. } => "slider"@,
        TagV::Drag { .. } => "drag"@,
        TagV::Combobox { .. } => "combobox"@,
    }
}

/// Cross-check a resolved tag against the field's type category.  The
/// numeric widgets demand a numeric scalar; a combobox demands a fixed
/// string array and a selection index inside its bounds; a simple widget
/// is category-generic.
pub open spec fn spec_check(t: TagV, cat: TypeCategory) -> Option<DiagKindV> {
    match t {
        TagV::Simple { .. } => None,
        TagV::NumericInput { .. } => match cat {
            TypeCategory::NumericScalar { .. } => None,
            _ => Some(DiagKindV::TypeIncompatible { widget: "input"@, category: cat }),
        },
        TagV::Slider { .. } => match cat {
            TypeCategory::NumericScalar { .. } => None,
            _ => Some(DiagKindV::TypeIncompatible { widget: "slider"@, category: cat }),
        },
        TagV::Drag { .. } => match cat {
            TypeCategory::NumericScalar { .. } => None,
            _ => Some(DiagKindV::TypeIncompatible { widget: "drag"@, category: cat }),
        },
        TagV::Combobox { selected, .. } => match cat {
            TypeCategory::FixedStringArray { len } => {
                if 0 <= selected.value < len {
                    None
                } else {
                    Some(DiagKindV::IndexOutOfRange { selected: selected.value, len: len as int })
                }
            },
            _ => Some(DiagKindV::TypeIncompatible { widget: "combobox"@, category: cat }),
        },
    }
}

/// Executable twin of [`spec_check`].
pub fn check_tag(t: &Tag, cat: TypeCategory) -> (r: Option<DiagKind>)
    ensures
        match r {
            Some(k) => spec_check(t@, cat) == Some(k@),
            None => spec_check(t@, cat) is None,
        },
{
    match t {
        Tag::Simple { .. } => None,
        Tag::NumericInput { .. } => match cat {
            TypeCategory::NumericScalar { .. } => None,
            _ => Some(
                DiagKind::TypeIncompatible { widget: String::from_str("input"), category: cat },
            ),
        },
        Tag::Slider { .. } => match cat {
            TypeCategory::NumericScalar { .. } => None,
            _ => Some(
                DiagKind::TypeIncompatible { widget: String::from_str("slider"), category: cat },
            ),
        },
        Tag::Drag { .. } => match cat {
            TypeCategory::NumericScalar { .. } => None,
            _ => Some(
                DiagKind::TypeIncompatible { widget: String::from_str("drag"), category: cat },
            ),
        },
        Tag::Combobox { selected, .. } => match cat {
            TypeCategory::FixedStringArray { len } => {
                if 0 <= selected.value && (selected.value as u128) < (len as u128) {
                    None
                } else {
                    Some(DiagKind::IndexOutOfRange { selected: selected.value, len })
                }
            },
            _ => Some(
                DiagKind::TypeIncompatible { widget: String::from_str("combobox"), category: cat },
            ),
        },
    }
}

} // verus!
