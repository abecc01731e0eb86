use vstd::prelude::*;
use crate::diag::Coord;

verus! {

/// The data-type category a field declares.  The compiler only ever looks
/// at the category, never at the host type itself.
#[derive(Clone, Copy, PartialEq, Eq, Structural, Debug)]
pub enum TypeCategory {
    /// A single numeric value of the given bit width, signed or not.
    NumericScalar { width: u32, signed: bool },
    /// A fixed-length array of numeric values.
    NumericArray { len: usize },
    /// A fixed-length array of strings.
    FixedStringArray { len: usize },
    /// A boolean flag.
    Boolean,
    /// Anything else; only category-generic widgets accept it.
    Other,
}

/// One raw, unparsed directive attached to a field: the payload text that
/// stood inside the annotation, plus the coordinate of the annotation.
#[derive(Clone, PartialEq, Eq, Debug)]
pub struct RawDirective {
    pub text: String,
    pub at: Coord,
}

/// Mathematical model of a raw directive.
pub struct DirectiveV {
    pub text: Seq<char>,
    pub at: Coord,
}

impl View for RawDirective {
    type V = DirectiveV;

    open spec fn view(&self) -> DirectiveV {
        DirectiveV { text: self.text@, at: self.at }
    }
}

/// One field of the input schema: its identifier, its declared type
/// category, and the raw directives found on it (at most one is legal).
#[derive(Clone, PartialEq, Eq, Debug)]
pub struct Field {
    pub name: String,
    pub category: TypeCategory,
    pub directives: Vec<RawDirective>,
}

/// Mathematical model of a field.
pub struct FieldV {
    pub name: Seq<char>,
    pub category: TypeCategory,
    pub directives: Seq<DirectiveV>,
}

impl View for Field {
    type V = FieldV;

    open spec fn view(&self) -> FieldV {
        FieldV {
            name: self.name@,
            category: self.category,
            directives: self.directives@.map_values(|d: RawDirective| d@),
        }
    }
}

/// Model of a whole schema, in field-declaration order.
pub open spec fn fields_view(fields: Seq<Field>) -> Seq<FieldV> {
    fields.map_values(|f: Field| f@)
}

} // verus!
