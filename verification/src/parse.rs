use vstd::prelude::*;
use vstd::string::*;
use crate::ast::{IntLit, Literal, LiteralV, Node, NodeV, Pair, PairV};
use crate::lex::{lex, lex_at, toks_view, Token, TokV};

verus! {

pub open spec fn pairs_view(ps: Seq<Pair>) -> Seq<PairV> {
    ps.map_values(|p: Pair| p@)
}

/// The literal carried by a token, if it is a literal token.
pub open spec fn lit_of_tok(t: TokV) -> Option<LiteralV> {
    match t {
        TokV::Str(s) => Some(LiteralV::Str(s)),
        TokV::Int(i) => Some(LiteralV::Int(i)),
        TokV::Float(f) => Some(LiteralV::Float(f)),
        TokV::Word(w) => Some(LiteralV::Word(w)),
        _ => None,
    }
}

/// Parse `key = literal (, key = literal)*` from token position `i`:
/// the pairs read and the position just after the last literal.
pub open spec fn pairs_at(ts: Seq<TokV>, i: int) -> Option<(Seq<PairV>, int)>
    decreases ts.len() - i
    when 0 <= i <= ts.len()
{
    if ts.len() - i < 3 {
        None
    } else {
        match (ts[i], ts[i + 1], lit_of_tok(ts[i + 2])) {
            (TokV::Word(k), TokV::Eq, Some(v)) => {
                let p = PairV { key: k, value: v };
                if i + 3 < ts.len() && ts[i + 3] == TokV::Comma {
                    match pairs_at(ts, i + 4) {
                        None => None,
                        Some(pj) => Some((seq![p] + pj.0, pj.1)),
                    }
                } else {
                    Some((seq![p], i + 3))
                }
            },
            _ => None,
        }
    }
}

/// Shape of a whole token sequence: an empty payload, one bare word, a
/// flat `key = literal` list, or one named node `kind(...)` with a flat
/// argument list.  Anything else does not parse.
pub open spec fn parse_toks(ts: Seq<TokV>) -> Option<NodeV> {
    if ts.len() == 0 {
        Some(NodeV::Unit)
    } else {
        match ts[0] {
            TokV::Word(w) => {
                if ts.len() == 1 {
                    Some(NodeV::Word(w))
                } else if ts[1] == TokV::LParen {
                    if ts.len() == 3 && ts[2] == TokV::RParen {
                        Some(NodeV::Named { kind: w, args: seq![] })
                    } else {
                        match pairs_at(ts, 2) {
                            None => None,
                            Some(pj) => {
                                if pj.1 == ts.len() - 1 && ts[pj.1] == TokV::RParen {
                                    Some(NodeV::Named { kind: w, args: pj.0 })
                                } else {
                                    None
                                }
                            },
                        }
                    }
                } else if ts[1] == TokV::Eq {
                    match pairs_at(ts, 0) {
                        None => None,
                        Some(pj) => {
                            if pj.1 == ts.len() {
                                Some(NodeV::Pairs(pj.0))
                            } else {
                                None
                            }
                        },
                    }
                } else {
                    None
                }
            },
            _ => None,
        }
    }
}

/// Model of parsing one directive payload text.
pub open spec fn spec_parse_payload(s: Seq<char>) -> Option<NodeV> {
    match lex_at(s, 0) {
        None => None,
        Some(ts) => parse_toks(ts),
    }
}

fn lit_of(t: &Token) -> (r: Option<Literal>)
    ensures
        match r {
            Some(l) => lit_of_tok(t@) == Some(l@),
            None => lit_of_tok(t@) is None,
        },
{
    match t {
        Token::Str(s) => Some(Literal::Str(s.clone())),
        Token::Int(i) => Some(Literal::Int(IntLit { value: i.value, text: i.text.clone() })),
        Token::Float(f) => Some(Literal::Float(f.clone())),
        Token::Word(w) => Some(Literal::Word(w.clone())),
        _ => None,
    }
}

fn parse_pairs(ts: &Vec<Token>, i: usize) -> (r: Option<(Vec<Pair>, usize)>)
    requires
        i <= ts@.len(),
    ensures
        match r {
            Some(pj) => pj.1 <= ts@.len() && pairs_at(toks_view(ts@), i as int) == Some(
                (pairs_view(pj.0@), pj.1 as int),
            ),
            None => pairs_at(toks_view(ts@), i as int) is None,
        },
    decreases ts@.len() - i,
{
    let m = ts.len();
    if m - i < 3 {
        return None;
    }
    let k: String = match &ts[i] {
        Token::Word(w) => w.clone(),
        _ => { return None; },
    };
    match &ts[i + 1] {
        Token::Eq => {},
        _ => { return None; },
    };
    let v: Literal = match lit_of(&ts[i + 2]) {
        Some(v) => v,
        None => { return None; },
    };
    let p = Pair { key: k, value: v };
    let more = i + 3 < m && (match &ts[i + 3] {
        Token::Comma => true,
        _ => false,
    });
    if more {
        match parse_pairs(ts, i + 4) {
            None => None,
            Some((mut ps, j)) => {
                let ghost before = ps@;
                ps.insert(0, p);
                proof {
                    assert(pairs_view(ps@) =~= seq![p@] + pairs_view(before));
                }
                Some((ps, j))
            },
        }
    } else {
        let mut ps: Vec<Pair> = Vec::new();
        ps.push(p);
        proof {
            assert(pairs_view(ps@) =~= seq![p@]);
        }
        Some((ps, i + 3))
    }
}

/// Parse a lexed token sequence into a directive node.
pub fn parse_tokens(ts: &Vec<Token>) -> (r: Option<Node>)
    ensures
        match r {
            Some(nd) => parse_toks(toks_view(ts@)) == Some(nd@),
            None => parse_toks(toks_view(ts@)) is None,
        },
{
    let m = ts.len();
    if m == 0 {
        return Some(Node::Unit);
    }
    let w: String = match &ts[0] {
        Token::Word(w) => w.clone(),
        _ => { return None; },
    };
    if m == 1 {
        return Some(Node::Word(w));
    }
    let second_lparen = match &ts[1] {
        Token::LParen => true,
        _ => false,
    };
    let second_eq = match &ts[1] {
        Token::Eq => true,
        _ => false,
    };
    if second_lparen {
        let empty_args = m == 3 && (match &ts[2] {
            Token::RParen => true,
            _ => false,
        });
        if empty_args {
            let args: Vec<Pair> = Vec::new();
            proof {
                assert(pairs_view(args@) =~= Seq::<PairV>::empty());
            }
            return Some(Node::Named { kind: w, args });
        }
        match parse_pairs(ts, 2) {
            None => None,
            Some((ps, j)) => {
                let closed = j == m - 1 && (match &ts[j] {
                    Token::RParen => true,
                    _ => false,
                });
                if closed {
                    Some(Node::Named { kind: w, args: ps })
                } else {
                    None
                }
            },
        }
    } else if second_eq {
        match parse_pairs(ts, 0) {
            None => None,
            Some((ps, j)) => {
                if j == m {
                    Some(Node::Pairs(ps))
                } else {
                    None
                }
            },
        }
    } else {
        None
    }
}

/// Parse one directive payload text into a node; `None` when the payload
/// does not fit the micro-grammar.
pub fn parse_payload(s: &str) -> (r: Option<Node>)
    ensures
        match r {
            Some(nd) => spec_parse_payload(s@) == Some(nd@),
            None => spec_parse_payload(s@) is None,
        },
{
    match lex(s) {
        None => None,
        Some(ts) => parse_tokens(&ts),
    }
}

} // verus!
