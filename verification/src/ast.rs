use vstd::prelude::*;

verus! {

/// The kind of literal a directive argument can carry.
#[derive(Clone, Copy, PartialEq, Eq, Structural, Debug)]
pub enum LitKind {
    Str,
    Int,
    Float,
    Word,
}

/// An integer literal: its numeric value and its source spelling.  The
/// value is used for static checks, the spelling is what emission prints.
#[derive(Clone, PartialEq, Eq, Debug)]
pub struct IntLit {
    pub value: i64,
    pub text: String,
}

/// Mathematical model of an integer literal.
pub struct IntLitV {
    pub value: int,
    pub text: Seq<char>,
}

impl View for IntLit {
    type V = IntLitV;

    open spec fn view(&self) -> IntLitV {
        IntLitV { value: self.value as int, text: self.text@ }
    }
}

/// A literal argument value.  A float literal keeps its source spelling
/// only: the compiler never computes with it, it re-emits it verbatim.
#[derive(Clone, PartialEq, Eq, Debug)]
pub enum Literal {
    Str(String),
    Int(IntLit),
    Float(String),
    Word(String),
}

/// Mathematical model of a literal argument value.
pub enum LiteralV {
    Str(Seq<char>),
    Int(IntLitV),
    Float(Seq<char>),
    Word(Seq<char>),
}

impl View for Literal {
    type V = LiteralV;

    open spec fn view(&self) -> LiteralV {
        match self {
            Literal::Str(s) => LiteralV::Str(s@),
            Literal::Int(i) => LiteralV::Int(i@),
            Literal::Float(s) => LiteralV::Float(s@),
            Literal::Word(s) => LiteralV::Word(s@),
        }
    }
}

/// The literal kind of a literal value.
pub open spec fn lit_kind_of(l: LiteralV) -> LitKind {
    match l {
        LiteralV::Str(_) => LitKind::Str,
        LiteralV::Int(_) => LitKind::Int,
        LiteralV::Float(_) => LitKind::Float,
        LiteralV::Word(_) => LitKind::Word,
    }
}

/// Executable twin of [`lit_kind_of`].
pub fn kind_of(l: &Literal) -> (k: LitKind)
    ensures
        k == lit_kind_of(l@),
{
    match l {
        Literal::Str(_) => LitKind::Str,
        Literal::Int(_) => LitKind::Int,
        Literal::Float(_) => LitKind::Float,
        Literal::Word(_) => LitKind::Word,
    }
}

/// One `key = literal` argument of a directive.
#[derive(Clone, PartialEq, Eq, Debug)]
pub struct Pair {
    pub key: String,
    pub value: Literal,
}

/// Mathematical model of one argument.
pub struct PairV {
    pub key: Seq<char>,
    pub value: LiteralV,
}

impl View for Pair {
    type V = PairV;

    open spec fn view(&self) -> PairV {
        PairV { key: self.key@, value: self.value@ }
    }
}

/// Parsed shape of one directive payload.  Nesting is one level deep at
/// most: a named node contains a flat argument list and nothing else.
#[derive(Clone, PartialEq, Eq, Debug)]
pub enum Node {
    /// An empty payload (a bare annotation with no arguments).
    Unit,
    /// A single bare word, e.g. `input`.
    Word(String),
    /// A flat `key = literal` list directly under the annotation.
    Pairs(Vec<Pair>),
    /// A named node `kind(key = literal, ...)`.
    Named { kind: String, args: Vec<Pair> },
}

/// Mathematical model of a parsed directive payload.
pub enum NodeV {
    Unit,
    Word(Seq<char>),
    Pairs(Seq<PairV>),
    Named { kind: Seq<char>, args: Seq<PairV> },
}

impl View for Node {
    type V = NodeV;

    open spec fn view(&self) -> NodeV {
        match self {
            Node::Unit => NodeV::Unit,
            Node::Word(w) => NodeV::Word(w@),
            Node::Pairs(ps) => NodeV::Pairs(ps@.map_values(|p: Pair| p@)),
            Node::Named { kind, args } => NodeV::Named {
                kind: kind@,
                args: args@.map_values(|p: Pair| p@),
            },
        }
    }
}

} // verus!
