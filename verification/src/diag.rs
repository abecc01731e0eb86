use vstd::prelude::*;
use vstd::string::*;
use crate::ast::LitKind;
use crate::schema::TypeCategory;

verus! {

/// A position in the host source: the line and column of an annotation.
#[derive(Clone, Copy, PartialEq, Eq, Structural, Debug)]
pub struct Coord {
    pub line: usize,
    pub col: usize,
}

/// What went wrong.  Compilation stops at the first diagnostic.
#[derive(Clone, PartialEq, Eq, Debug)]
pub enum DiagKind {
    /// The directive payload does not fit the micro-grammar.
    SyntaxError,
    /// More than one raw directive stood on a single field.
    MultipleDirectives,
    /// A named node whose kind the registry does not know.
    UnsupportedWidgetKind { kind: String },
    /// An argument key that the widget kind's parameter schema lacks.
    UnrecognizedParameter { param: String },
    /// The same parameter was given twice.
    ParameterAlreadySet { param: String },
    /// A required parameter was never given.
    MissingRequiredParameter { param: String },
    /// A parameter was given with the wrong kind of literal.
    LiteralKindMismatch { param: String, expected: LitKind },
    /// The widget kind rejects the field's type category.
    TypeIncompatible { widget: String, category: TypeCategory },
    /// A combobox selection index outside the array bounds.
    IndexOutOfRange { selected: i64, len: usize },
}

/// Mathematical model of a diagnostic kind.
pub enum DiagKindV {
    SyntaxError,
    MultipleDirectives,
    UnsupportedWidgetKind { kind: Seq<char> },
    UnrecognizedParameter { param: Seq<char> },
    ParameterAlreadySet { param: Seq<char> },
    MissingRequiredParameter { param: Seq<char> },
    LiteralKindMismatch { param: Seq<char>, expected: LitKind },
    TypeIncompatible { widget: Seq<char>, category: TypeCategory },
    IndexOutOfRange { selected: int, len: int },
}

impl View for DiagKind {
    type V = DiagKindV;

    open spec fn view(&self) -> DiagKindV {
        match self {
            DiagKind::SyntaxError => DiagKindV::SyntaxError,
            DiagKind::MultipleDirectives => DiagKindV::MultipleDirectives,
            DiagKind::UnsupportedWidgetKind { kind } => DiagKindV::UnsupportedWidgetKind {
                kind: kind@,
            },
            DiagKind::UnrecognizedParameter { param } => DiagKindV::UnrecognizedParameter {
                param: param@,
            },
            DiagKind::ParameterAlreadySet { param } => DiagKindV::ParameterAlreadySet {
                param: param@,
            },
            DiagKind::MissingRequiredParameter { param } => DiagKindV::MissingRequiredParameter {
                param: param@,
            },
            DiagKind::LiteralKindMismatch { param, expected } => DiagKindV::LiteralKindMismatch {
                param: param@,
                expected: *expected,
            },
            DiagKind::TypeIncompatible { widget, category } => DiagKindV::TypeIncompatible {
                widget: widget@,
                category: *category,
            },
            DiagKind::IndexOutOfRange { selected, len } => DiagKindV::IndexOutOfRange {
                selected: *selected as int,
                len: *len as int,
            },
        }
    }
}

/// A located diagnostic: what went wrong and where.
#[derive(Clone, PartialEq, Eq, Debug)]
pub struct Diagnostic {
    pub kind: DiagKind,
    pub at: Coord,
}

/// Mathematical model of a located diagnostic.
pub struct DiagV {
    pub kind: DiagKindV,
    pub at: Coord,
}

impl View for Diagnostic {
    type V = DiagV;

    open spec fn view(&self) -> DiagV {
        DiagV { kind: self.kind@, at: self.at }
    }
}

/// The name a literal kind goes by in messages.
pub open spec fn spec_lit_kind_text(k: LitKind) -> Seq<char> {
    match k {
        LitKind::Str => "string"@,
        LitKind::Int => "integer"@,
        LitKind::Float => "float"@,
        LitKind::Word => "word"@,
    }
}

/// The name a type category goes by in messages.
pub open spec fn spec_category_text(c: TypeCategory) -> Seq<char> {
    match c {
        TypeCategory::NumericScalar { .. } => "numeric scalar"@,
        TypeCategory::NumericArray { .. } => "numeric array"@,
        TypeCategory::FixedStringArray { .. } => "fixed string array"@,
        TypeCategory::Boolean => "boolean"@,
        TypeCategory::Other => "other"@,
    }
}

/// The human-readable message of a diagnostic kind.
pub open spec fn spec_message(k: DiagKindV) -> Seq<char> {
    match k {
        DiagKindV::SyntaxError => "malformed directive"@,
        DiagKindV::MultipleDirectives => "only one directive is allowed per field"@,
        DiagKindV::UnsupportedWidgetKind { kind } => "unsupported widget kind `"@ + kind + "`"@,
        DiagKindV::UnrecognizedParameter { param } => "unrecognized parameter `"@ + param + "`"@,
        DiagKindV::ParameterAlreadySet { param } => "parameter `"@ + param
            + "` is already set"@,
        DiagKindV::MissingRequiredParameter { param } => "missing required parameter `"@ + param
            + "`"@,
        DiagKindV::LiteralKindMismatch { param, expected } => "parameter `"@ + param
            + "` expects a "@ + spec_lit_kind_text(expected) + " literal"@,
        DiagKindV::TypeIncompatible { widget, category } => "widget kind `"@ + widget
            + "` rejects a "@ + spec_category_text(category) + " field"@,
        DiagKindV::IndexOutOfRange { .. } => "selection index is outside the array bounds"@,
    }
}

impl Diagnostic {
    /// The human-readable message of this diagnostic.
    pub fn message(&self) -> (r: String)
        ensures
            r@ == spec_message(self.kind@),
    {
        match &self.kind {
            DiagKind::SyntaxError => String::from_str("malformed directive"),
            DiagKind::MultipleDirectives => String::from_str(
                "only one directive is allowed per field",
            ),
            DiagKind::UnsupportedWidgetKind { kind } => {
                let mut out = String::from_str("unsupported widget kind `");
                out.append(kind.as_str());
                out.append("`");
                proof {
                    assert(out@ =~= spec_message(self.kind@));
                }
                out
            },
            DiagKind::UnrecognizedParameter { param } => {
                let mut out = String::from_str("unrecognized parameter `");
                out.append(param.as_str());
                out.append("`");
                proof {
                    assert(out@ =~= spec_message(self.kind@));
                }
                out
            },
            DiagKind::ParameterAlreadySet { param } => {
                let mut out = String::from_str("parameter `");
                out.append(param.as_str());
                out.append("` is already set");
                proof {
                    assert(out@ =~= spec_message(self.kind@));
                }
                out
            },
            DiagKind::MissingRequiredParameter { param } => {
                let mut out = String::from_str("missing required parameter `");
                out.append(param.as_str());
                out.append("`");
                proof {
                    assert(out@ =~= spec_message(self.kind@));
                }
                out
            },
            DiagKind::LiteralKindMismatch { param, expected } => {
                let mut out = String::from_str("parameter `");
                out.append(param.as_str());
                out.append("` expects a ");
                let kt = match expected {
                    LitKind::Str => "string",
                    LitKind::Int => "integer",
                    LitKind::Float => "float",
                    LitKind::Word => "word",
                };
                out.append(kt);
                out.append(" literal");
                proof {
                    assert(out@ =~= spec_message(self.kind@));
                }
                out
            },
            DiagKind::TypeIncompatible { widget, category } => {
                let mut out = String::from_str("widget kind `");
                out.append(widget.as_str());
                out.append("` rejects a ");
                let ct = match category {
                    TypeCategory::NumericScalar { .. } => "numeric scalar",
                    TypeCategory::NumericArray { .. } => "numeric array",
                    TypeCategory::FixedStringArray { .. } => "fixed string array",
                    TypeCategory::Boolean => "boolean",
                    TypeCategory::Other => "other",
                };
                out.append(ct);
                out.append(" field");
                proof {
                    assert(out@ =~= spec_message(self.kind@));
                }
                out
            },
            DiagKind::IndexOutOfRange { .. } => String::from_str(
                "selection index is outside the array bounds",
            ),
        }
    }
}

} // verus!
