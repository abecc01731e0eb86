use vstd::prelude::*;
use vstd::string::*;
use crate::ast::{IntLit, IntLitV};

verus! {

/// One token of the directive micro-language.
#[derive(Clone, PartialEq, Eq, Debug)]
pub enum Token {
    /// An identifier-shaped word.
    Word(String),
    /// A double-quoted string (without its quotes; no escapes).
    Str(String),
    /// A signed integer literal.
    Int(IntLit),
    /// A float literal, kept as its source spelling.
    Float(String),
    Eq,
    Comma,
    LParen,
    RParen,
}

/// Mathematical model of a token.
pub enum TokV {
    Word(Seq<char>),
    Str(Seq<char>),
    Int(IntLitV),
    Float(Seq<char>),
    Eq,
    Comma,
    LParen,
    RParen,
}

impl View for Token {
    type V = TokV;

    open spec fn view(&self) -> TokV {
        match self {
            Token::Word(s) => TokV::Word(s@),
            Token::Str(s) => TokV::Str(s@),
            Token::Int(i) => TokV::Int(i@),
            Token::Float(s) => TokV::Float(s@),
            Token::Eq => TokV::Eq,
            Token::Comma => TokV::Comma,
            Token::LParen => TokV::LParen,
            Token::RParen => TokV::RParen,
        }
    }
}

pub open spec fn toks_view(ts: Seq<Token>) -> Seq<TokV> {
    ts.map_values(|t: Token| t@)
}

pub open spec fn lex_result_view(r: Option<Vec<Token>>) -> Option<Seq<TokV>> {
    match r {
        Some(v) => Some(toks_view(v@)),
        None => None,
    }
}

pub open spec fn is_space(c: char) -> bool {
    c == ' ' || c == '\t' || c == '\n' || c == '\r'
}

pub open spec fn is_digit(c: char) -> bool {
    '0' as u32 <= c as u32 && c as u32 <= '9' as u32
}

pub open spec fn is_word_start(c: char) -> bool {
    ('a' as u32 <= c as u32 && c as u32 <= 'z' as u32)
    || ('A' as u32 <= c as u32 && c as u32 <= 'Z' as u32)
    || c == '_'
}

pub open spec fn is_word_char(c: char) -> bool {
    is_word_start(c) || is_digit(c)
}

/// First position at or after `i` that does not continue a word.
pub open spec fn word_end(s: Seq<char>, i: int) -> int
    decreases s.len() - i
    when 0 <= i <= s.len()
{
    if i == s.len() {
        i
    } else if is_word_char(s[i]) {
        word_end(s, i + 1)
    } else {
        i
    }
}

pub proof fn lemma_word_end(s: Seq<char>, i: int)
    requires
        0 <= i <= s.len(),
    ensures
        i <= word_end(s, i) <= s.len(),
    decreases s.len() - i,
{
    if i < s.len() && is_word_char(s[i]) {
        lemma_word_end(s, i + 1);
    }
}

/// First position at or after `i` that is not a decimal digit.
pub open spec fn digits_end(s: Seq<char>, i: int) -> int
    decreases s.len() - i
    when 0 <= i <= s.len()
{
    if i == s.len() {
        i
    } else if is_digit(s[i]) {
        digits_end(s, i + 1)
    } else {
        i
    }
}

pub proof fn lemma_digits_end(s: Seq<char>, i: int)
    requires
        0 <= i <= s.len(),
    ensures
        i <= digits_end(s, i) <= s.len(),
        forall|k: int| i <= k < digits_end(s, i) ==> is_digit(s[k]),
    decreases s.len() - i,
{
    if i < s.len() && is_digit(s[i]) {
        lemma_digits_end(s, i + 1);
    }
}

/// Position of the closing quote at or after `i`, if any.
pub open spec fn quote_end(s: Seq<char>, i: int) -> Option<int>
    decreases s.len() - i
    when 0 <= i <= s.len()
{
    if i == s.len() {
        None
    } else if s[i] == '"' {
        Some(i)
    } else {
        quote_end(s, i + 1)
    }
}

pub proof fn lemma_quote_end(s: Seq<char>, i: int)
    requires
        0 <= i <= s.len(),
    ensures
        quote_end(s, i) matches Some(j) ==> i <= j < s.len(),
    decreases s.len() - i,
{
    if i < s.len() && s[i] != '"' {
        lemma_quote_end(s, i + 1);
    }
}

/// Value of a run of decimal digits.
pub open spec fn dec_val(digits: Seq<char>) -> int
    decreases digits.len(),
{
    if digits.len() == 0 {
        0
    } else {
        dec_val(digits.drop_last()) * 10 + (digits.last() as u32 - 48)
    }
}

pub open spec fn cons_tok(t: TokV, rest: Option<Seq<TokV>>) -> Option<Seq<TokV>> {
    match rest {
        Some(ts) => Some(seq![t] + ts),
        None => None,
    }
}

/// Token sequence of the payload from position `i` on, or `None` when the
/// text does not scan: an unterminated string, a lone minus sign, a float
/// with no digits after the point, an integer too large for a 64-bit
/// signed value, or a character outside the language.
pub open spec fn lex_at(s: Seq<char>, i: int) -> Option<Seq<TokV>>
    decreases s.len() - i
    when 0 <= i <= s.len()
    via lex_at_decreases
{
    if i == s.len() {
        Some(seq![])
    } else {
        let c = s[i];
        if is_space(c) {
            lex_at(s, i + 1)
        } else if is_word_start(c) {
            let j = word_end(s, i + 1);
            cons_tok(TokV::Word(s.subrange(i, j)), lex_at(s, j))
        } else if c == '"' {
            match quote_end(s, i + 1) {
                None => None,
                Some(j) => cons_tok(TokV::Str(s.subrange(i + 1, j)), lex_at(s, j + 1)),
            }
        } else if c == '=' {
            cons_tok(TokV::Eq, lex_at(s, i + 1))
        } else if c == ',' {
            cons_tok(TokV::Comma, lex_at(s, i + 1))
        } else if c == '(' {
            cons_tok(TokV::LParen, lex_at(s, i + 1))
        } else if c == ')' {
            cons_tok(TokV::RParen, lex_at(s, i + 1))
        } else if is_digit(c) || c == '-' {
            let start = if c == '-' { i + 1 } else { i };
            if start == s.len() || !is_digit(s[start]) {
                None
            } else {
                let d = digits_end(s, start + 1);
                if d < s.len() && s[d] == '.' {
                    let f = digits_end(s, d + 1);
                    if f == d + 1 {
                        None
                    } else {
                        cons_tok(TokV::Float(s.subrange(i, f)), lex_at(s, f))
                    }
                } else {
                    let v = dec_val(s.subrange(start, d));
                    if v > 0x7fff_ffff_ffff_ffff {
                        None
                    } else {
                        let value = if c == '-' { -v } else { v };
                        cons_tok(
                            TokV::Int(IntLitV { value, text: s.subrange(i, d) }),
                            lex_at(s, d),
                        )
                    }
                }
            }
        } else {
            None
        }
    }
}

#[via_fn]
proof fn lex_at_decreases(s: Seq<char>, i: int) {
    assert forall|j: int| 0 <= j <= s.len() implies j <= #[trigger] word_end(s, j) <= s.len() by {
        lemma_word_end(s, j);
    };
    assert forall|j: int| 0 <= j <= s.len() implies j <= #[trigger] digits_end(s, j) <= s.len() by {
        lemma_digits_end(s, j);
    };
    assert forall|j: int| 0 <= j <= s.len() implies (#[trigger] quote_end(s, j) matches Some(k) ==> j <= k
        < s.len()) by {
        lemma_quote_end(s, j);
    };
}

fn is_space_x(c: char) -> (r: bool)
    ensures
        r == is_space(c),
{
    c == ' ' || c == '\t' || c == '\n' || c == '\r'
}

fn is_digit_x(c: char) -> (r: bool)
    ensures
        r == is_digit(c),
{
    '0' as u32 <= c as u32 && c as u32 <= '9' as u32
}

fn is_word_start_x(c: char) -> (r: bool)
    ensures
        r == is_word_start(c),
{
    ('a' as u32 <= c as u32 && c as u32 <= 'z' as u32)
    || ('A' as u32 <= c as u32 && c as u32 <= 'Z' as u32)
    || c == '_'
}

fn is_word_char_x(c: char) -> (r: bool)
    ensures
        r == is_word_char(c),
{
    is_word_start_x(c) || is_digit_x(c)
}

fn scan_word(s: &str, n: usize, start: usize) -> (j: usize)
    requires
        n == s@.len(),
        start <= n,
    ensures
        j == word_end(s@, start as int),
        start <= j <= n,
    decreases n - start,
{
    if start == n {
        return start;
    }
    let c = s.get_char(start);
    if is_word_char_x(c) {
        scan_word(s, n, start + 1)
    } else {
        start
    }
}

fn scan_digits(s: &str, n: usize, start: usize) -> (j: usize)
    requires
        n == s@.len(),
        start <= n,
    ensures
        j == digits_end(s@, start as int),
        start <= j <= n,
        forall|k: int| start <= k < j ==> is_digit(s@[k]),
    decreases n - start,
{
    proof {
        lemma_digits_end(s@, start as int);
    }
    if start == n {
        return start;
    }
    let c = s.get_char(start);
    if is_digit_x(c) {
        scan_digits(s, n, start + 1)
    } else {
        start
    }
}

fn scan_quote(s: &str, n: usize, start: usize) -> (r: Option<usize>)
    requires
        n == s@.len(),
        start <= n,
    ensures
        (r is Some) == (quote_end(s@, start as int) is Some),
        r matches Some(j) ==> start <= j < n && quote_end(s@, start as int) == Some(j as int),
    decreases n - start,
{
    if start == n {
        return None;
    }
    let c = s.get_char(start);
    if c == '"' {
        Some(start)
    } else {
        scan_quote(s, n, start + 1)
    }
}

/// Digits in `[from, to)` read as a 64-bit signed magnitude.
fn parse_digits(s: &str, n: usize, from: usize, to: usize) -> (r: Option<i64>)
    requires
        n == s@.len(),
        from <= to <= n,
        forall|k: int| from <= k < to ==> is_digit(s@[k]),
    ensures
        r matches Some(v) ==> 0 <= v && v as int == dec_val(
            s@.subrange(from as int, to as int),
        ),
        r is None ==> dec_val(s@.subrange(from as int, to as int)) > 0x7fff_ffff_ffff_ffff,
    decreases to - from,
{
    if from == to {
        proof {
            assert(s@.subrange(from as int, to as int) =~= Seq::<char>::empty());
        }
        return Some(0);
    }
    let head = parse_digits(s, n, from, to - 1);
    proof {
        assert(s@.subrange(from as int, to as int).drop_last() =~= s@.subrange(
            from as int,
            to as int - 1,
        ));
        assert(s@.subrange(from as int, to as int).last() == s@[to as int - 1]);
    }
    match head {
        None => None,
        Some(v) => {
            let c = s.get_char(to - 1);
            let d: i64 = (c as u32 - 48) as i64;
            if v < 922_337_203_685_477_580 || (v == 922_337_203_685_477_580 && d <= 7) {
                Some(v * 10 + d)
            } else {
                None
            }
        },
    }
}

fn push_front(t: Token, rest: Option<Vec<Token>>) -> (r: Option<Vec<Token>>)
    ensures
        lex_result_view(r) == cons_tok(t@, lex_result_view(rest)),
{
    match rest {
        None => None,
        Some(mut v) => {
            let ghost before = v@;
            v.insert(0, t);
            proof {
                assert(toks_view(v@) =~= seq![t@] + toks_view(before));
            }
            Some(v)
        },
    }
}

fn lex_from(s: &str, n: usize, i: usize) -> (r: Option<Vec<Token>>)
    requires
        n == s@.len(),
        i <= n,
    ensures
        lex_result_view(r) == lex_at(s@, i as int),
    decreases n - i,
{
    if i == n {
        let v: Vec<Token> = Vec::new();
        proof {
            assert(toks_view(v@) =~= Seq::<TokV>::empty());
        }
        return Some(v);
    }
    let c = s.get_char(i);
    if is_space_x(c) {
        lex_from(s, n, i + 1)
    } else if is_word_start_x(c) {
        let j = scan_word(s, n, i + 1);
        let w = String::from_str(s.substring_char(i, j));
        push_front(Token::Word(w), lex_from(s, n, j))
    } else if c == '"' {
        match scan_quote(s, n, i + 1) {
            None => None,
            Some(j) => {
                let content = String::from_str(s.substring_char(i + 1, j));
                push_front(Token::Str(content), lex_from(s, n, j + 1))
            },
        }
    } else if c == '=' {
        push_front(Token::Eq, lex_from(s, n, i + 1))
    } else if c == ',' {
        push_front(Token::Comma, lex_from(s, n, i + 1))
    } else if c == '(' {
        push_front(Token::LParen, lex_from(s, n, i + 1))
    } else if c == ')' {
        push_front(Token::RParen, lex_from(s, n, i + 1))
    } else if is_digit_x(c) || c == '-' {
        let start = if c == '-' { i + 1 } else { i };
        if start == n {
            return None;
        }
        let c2 = s.get_char(start);
        if !is_digit_x(c2) {
            return None;
        }
        let d_end = scan_digits(s, n, start + 1);
        if d_end < n && s.get_char(d_end) == '.' {
            let f_end = scan_digits(s, n, d_end + 1);
            if f_end == d_end + 1 {
                None
            } else {
                let txt = String::from_str(s.substring_char(i, f_end));
                push_front(Token::Float(txt), lex_from(s, n, f_end))
            }
        } else {
            match parse_digits(s, n, start, d_end) {
                None => None,
                Some(v) => {
                    let value: i64 = if c == '-' {
                        -v
                    } else {
                        v
                    };
                    let txt = String::from_str(s.substring_char(i, d_end));
                    push_front(Token::Int(IntLit { value, text: txt }), lex_from(s, n, d_end))
                },
            }
        }
    } else {
        None
    }
}

/// Scan a whole directive payload into tokens; `None` when it does not
/// fit the micro-language.
pub fn lex(s: &str) -> (r: Option<Vec<Token>>)
    ensures
        lex_result_view(r) == lex_at(s@, 0),
{
    let n = s.unicode_len();
    lex_from(s, n, 0)
}

} // verus!
