//! Splitting expression source into tokens.
use vstd::prelude::*;
use crate::fixed::UNIT;

verus! {

/// A token as a value: what the parser reads.
pub enum Tok {
    Num(i64),
    Ident(Seq<char>),
    If,
    Else,
    Plus,
    Minus,
    Star,
    Slash,
    LParen,
    RParen,
    LBrace,
    RBrace,
    Semi,
    Assign,
    Lt,
    Le,
    Gt,
    Ge,
}

/// A token of source text.
#[derive(Debug)]
pub enum Token {
    Num(i64),
    Ident(String),
    If,
    Else,
    Plus,
    Minus,
    Star,
    Slash,
    LParen,
    RParen,
    LBrace,
    RBrace,
    Semi,
    Assign,
    Lt,
    Le,
    Gt,
    Ge,
}

pub open spec fn tok_view(t: Token) -> Tok {
    match t {
        Token::Num(v) => Tok::Num(v),
        Token::Ident(s) => Tok::Ident(s@),
        Token::If => Tok::If,
        Token::Else => Tok::Else,
        Token::Plus => Tok::Plus,
        Token::Minus => Tok::Minus,
        Token::Star => Tok::Star,
        Token::Slash => Tok::Slash,
        Token::LParen => Tok::LParen,
        Token::RParen => Tok::RParen,
        Token::LBrace => Tok::LBrace,
        Token::RBrace => Tok::RBrace,
        Token::Semi => Tok::Semi,
        Token::Assign => Tok::Assign,
        Token::Lt => Tok::Lt,
        Token::Le => Tok::Le,
        Token::Gt => Tok::Gt,
        Token::Ge => Tok::Ge,
    }
}

pub open spec fn toks_view(ts: Seq<Token>) -> Seq<Tok> {
    ts.map_values(|t: Token| tok_view(t))
}

/// Why source text failed to compile, with the character position where
/// the lexer stopped.
#[derive(Debug, Clone, Copy, PartialEq, Eq, Structural)]
pub enum CompileError {
    /// A character that starts no token.
    BadChar(usize),
    /// A number with more than six decimals or beyond the value range.
    BadNumber(usize),
    /// Tokens that do not form a program.
    Syntax,
}

/// The most decimals a number may have.
pub const MAX_DECIMALS: usize = 6;

pub open spec fn is_digit(c: char) -> bool {
    '0' <= c <= '9'
}

pub open spec fn is_ident_start(c: char) -> bool {
    ('a' <= c <= 'z') || ('A' <= c <= 'Z') || c == '_'
}

pub open spec fn is_ident_char(c: char) -> bool {
    is_ident_start(c) || is_digit(c)
}

pub open spec fn is_space(c: char) -> bool {
    c == ' ' || c == '\n' || c == '\t' || c == '\r'
}

pub open spec fn digit_value(c: char) -> int {
    c as int - '0' as int
}

/// The end of the run of digits starting at `i`.
pub open spec fn digits_end(cs: Seq<char>, i: int) -> int
    decreases cs.len() - i,
{
    if 0 <= i < cs.len() && is_digit(cs[i]) {
        digits_end(cs, i + 1)
    } else {
        i
    }
}

/// The end of the run of identifier characters starting at `i`.
pub open spec fn ident_end(cs: Seq<char>, i: int) -> int
    decreases cs.len() - i,
{
    if 0 <= i < cs.len() && is_ident_char(cs[i]) {
        ident_end(cs, i + 1)
    } else {
        i
    }
}

/// The decimal value of the digits `cs[i..j]`.
pub open spec fn digits_value(cs: Seq<char>, i: int, j: int) -> int
    decreases j - i,
{
    if j <= i {
        0
    } else {
        digits_value(cs, i, j - 1) * 10 + digit_value(cs[j - 1])
    }
}

pub open spec fn pow10(k: nat) -> int
    decreases k,
{
    if k == 0 {
        1
    } else {
        10 * pow10((k - 1) as nat)
    }
}

/// The number starting at `i` (digits, then optionally `.` and up to six
/// digits) as a fixed-point value, and where it ends.
pub open spec fn number_at(cs: Seq<char>, i: int) -> Result<(i64, int), CompileError> {
    let e1 = digits_end(cs, i);
    let ip = digits_value(cs, i, e1);
    if e1 < cs.len() && cs[e1] == '.' {
        let e2 = digits_end(cs, e1 + 1);
        let k = e2 - e1 - 1;
        if k > MAX_DECIMALS {
            Err(CompileError::BadNumber(i as usize))
        } else {
            let v = ip * UNIT + digits_value(cs, e1 + 1, e2) * pow10((MAX_DECIMALS - k) as nat);
            if v <= i64::MAX { Ok((v as i64, e2)) } else { Err(CompileError::BadNumber(i as usize)) }
        }
    } else {
        let v = ip * UNIT;
        if v <= i64::MAX { Ok((v as i64, e1)) } else { Err(CompileError::BadNumber(i as usize)) }
    }
}

/// The token spelled by an identifier-like word.
pub open spec fn word_tok(w: Seq<char>) -> Tok {
    if w == seq!['i', 'f'] {
        Tok::If
    } else if w == seq!['e', 'l', 's', 'e'] {
        Tok::Else
    } else {
        Tok::Ident(w)
    }
}

/// The punctuation token at `i`, and where it ends.
pub open spec fn punct_at(cs: Seq<char>, i: int) -> Option<(Tok, int)> {
    let c = cs[i];
    let next_eq = i + 1 < cs.len() && cs[i + 1] == '=';
    if c == '+' { Some((Tok::Plus, i + 1)) }
    else if c == '-' { Some((Tok::Minus, i + 1)) }
    else if c == '*' { Some((Tok::Star, i + 1)) }
    else if c == '/' { Some((Tok::Slash, i + 1)) }
    else if c == '(' { Some((Tok::LParen, i + 1)) }
    else if c == ')' { Some((Tok::RParen, i + 1)) }
    else if c == '{' { Some((Tok::LBrace, i + 1)) }
    else if c == '}' { Some((Tok::RBrace, i + 1)) }
    else if c == ';' { Some((Tok::Semi, i + 1)) }
    else if c == '=' { Some((Tok::Assign, i + 1)) }
    else if c == '<' { if next_eq { Some((Tok::Le, i + 2)) } else { Some((Tok::Lt, i + 1)) } }
    else if c == '>' { if next_eq { Some((Tok::Ge, i + 2)) } else { Some((Tok::Gt, i + 1)) } }
    else { None }
}

pub open spec fn prepend_tok(t: Tok, rest: Result<Seq<Tok>, CompileError>) -> Result<Seq<Tok>, CompileError> {
    match rest {
        Ok(r) => Ok(seq![t] + r),
        Err(e) => Err(e),
    }
}

/// The tokens of `cs` from position `i` on; whitespace separates tokens.
pub open spec fn lex_from(cs: Seq<char>, i: int) -> Result<Seq<Tok>, CompileError>
    decreases cs.len() - i,
{
    if i < 0 || i >= cs.len() {
        Ok(seq![])
    } else if is_space(cs[i]) {
        lex_from(cs, i + 1)
    } else if is_digit(cs[i]) {
        match number_at(cs, i) {
            Err(e) => Err(e),
            Ok((v, j)) => if i < j <= cs.len() { prepend_tok(Tok::Num(v), lex_from(cs, j)) } else { Err(CompileError::BadNumber(i as usize)) },
        }
    } else if is_ident_start(cs[i]) {
        let j = ident_end(cs, i + 1);
        if i < j <= cs.len() { prepend_tok(word_tok(cs.subrange(i, j)), lex_from(cs, j)) } else { Ok(seq![]) }
    } else {
        match punct_at(cs, i) {
            None => Err(CompileError::BadChar(i as usize)),
            Some((t, j)) => if i < j <= cs.len() { prepend_tok(t, lex_from(cs, j)) } else { Ok(seq![]) },
        }
    }
}

pub open spec fn lex(cs: Seq<char>) -> Result<Seq<Tok>, CompileError> {
    lex_from(cs, 0)
}

proof fn lemma_digits_monotone(cs: Seq<char>, i: int, k: int, j: int)
    requires
        i <= k <= j <= cs.len(),
        0 <= i,
        forall|m: int| i <= m < j ==> is_digit(cs[m]),
    ensures
        0 <= digits_value(cs, i, k) <= digits_value(cs, i, j),
    decreases j - k,
{
    if k < j {
        lemma_digits_monotone(cs, i, k, j - 1);
        lemma_digits_nonneg(cs, i, j - 1);
    } else {
        lemma_digits_nonneg(cs, i, j);
    }
}

proof fn lemma_digits_nonneg(cs: Seq<char>, i: int, j: int)
    requires
        0 <= i,
        j <= cs.len(),
        forall|m: int| i <= m < j ==> is_digit(cs[m]),
    ensures
        0 <= digits_value(cs, i, j),
    decreases j - i,
{
    if j > i {
        lemma_digits_nonneg(cs, i, j - 1);
    }
}

proof fn lemma_digits_below_pow(cs: Seq<char>, i: int, j: int)
    requires
        0 <= i <= j <= cs.len(),
        forall|m: int| i <= m < j ==> is_digit(cs[m]),
    ensures
        digits_value(cs, i, j) < pow10((j - i) as nat),
    decreases j - i,
{
    if j > i {
        lemma_digits_below_pow(cs, i, j - 1);
        assert(pow10((j - i) as nat) == 10 * pow10((j - 1 - i) as nat));
    }
}

proof fn lemma_digits_end(cs: Seq<char>, i: int)
    requires
        0 <= i <= cs.len(),
    ensures
        i <= digits_end(cs, i) <= cs.len(),
        forall|m: int| i <= m < digits_end(cs, i) ==> is_digit(cs[m]),
    decreases cs.len() - i,
{
    if i < cs.len() && is_digit(cs[i]) {
        lemma_digits_end(cs, i + 1);
    }
}

/// The end of the run of digits starting at `i`.
fn scan_digits(cs: &Vec<char>, i: usize) -> (r: usize)
    requires
        i <= cs@.len(),
    ensures
        r == digits_end(cs@, i as int),
{
    let mut j = i;
    while j < cs.len() && '0' <= cs[j] && cs[j] <= '9'
        invariant
            i <= j <= cs@.len(),
            digits_end(cs@, i as int) == digits_end(cs@, j as int),
        decreases cs@.len() - j,
    {
        j += 1;
    }
    j
}

/// The end of the run of identifier characters starting at `i`.
fn scan_ident(cs: &Vec<char>, i: usize) -> (r: usize)
    requires
        i <= cs@.len(),
    ensures
        r == ident_end(cs@, i as int),
        i <= r <= cs@.len(),
{
    let mut j = i;
    while j < cs.len() && is_ident_char_exec(cs[j])
        invariant
            i <= j <= cs@.len(),
            ident_end(cs@, i as int) == ident_end(cs@, j as int),
        decreases cs@.len() - j,
    {
        j += 1;
    }
    j
}

fn is_ident_char_exec(c: char) -> (r: bool)
    ensures
        r == is_ident_char(c),
{
    ('a' <= c && c <= 'z') || ('A' <= c && c <= 'Z') || c == '_' || ('0' <= c && c <= '9')
}

/// The largest integer part a number may have: beyond it, the fixed-point
/// value leaves the `i64` range.
const INT_PART_LIMIT: i128 = 10_000_000_000_000;

/// The value of the digits `cs[i..j]`, or `None` where it exceeds the limit
/// of an integer part.
fn digits_exec(cs: &Vec<char>, i: usize, j: usize) -> (r: Option<i128>)
    requires
        i <= j <= cs@.len(),
        forall|m: int| i <= m < j ==> is_digit(cs@[m]),
    ensures
        match r {
            Some(v) => v == digits_value(cs@, i as int, j as int) && v <= INT_PART_LIMIT,
            None => digits_value(cs@, i as int, j as int) > INT_PART_LIMIT,
        },
{
    let mut acc: i128 = 0;
    let mut k = i;
    while k < j
        invariant
            i <= k <= j <= cs@.len(),
            forall|m: int| i <= m < j ==> is_digit(cs@[m]),
            acc == digits_value(cs@, i as int, k as int),
            0 <= acc <= INT_PART_LIMIT,
        decreases j - k,
    {
        let d = (cs[k] as u32 - '0' as u32) as i128;
        acc = acc * 10 + d;
        k += 1;
        if acc > INT_PART_LIMIT {
            proof {
                lemma_digits_monotone(cs@, i as int, k as int, j as int);
            }
            return None;
        }
    }
    Some(acc)
}

/// The number starting at `i` and where it ends.
fn number_exec(cs: &Vec<char>, i: usize) -> (r: Result<(i64, usize), CompileError>)
    requires
        i < cs@.len(),
        is_digit(cs@[i as int]),
    ensures
        match number_at(cs@, i as int) {
            Ok((v, j)) => r == Ok::<(i64, usize), CompileError>((v, j as usize)) && i < j <= cs@.len(),
            Err(e) => r == Err::<(i64, usize), CompileError>(e),
        },
{
    let e1 = scan_digits(cs, i);
    proof {
        lemma_digits_end(cs@, i as int);
        lemma_digits_end(cs@, i + 1);
    }
    let ip = match digits_exec(cs, i, e1) {
        Some(v) => v,
        None => {
            proof {
                let ipv = digits_value(cs@, i as int, e1 as int);
                if e1 < cs@.len() && cs@[e1 as int] == '.' {
                    lemma_digits_end(cs@, e1 + 1);
                    let e2 = digits_end(cs@, e1 + 1);
                    let k = e2 - e1 - 1;
                    lemma_digits_nonneg(cs@, e1 + 1, e2);
                    if k <= MAX_DECIMALS {
                        lemma_pow10_bound((MAX_DECIMALS - k) as nat);
                        let f = digits_value(cs@, e1 + 1, e2);
                        let p = pow10((MAX_DECIMALS - k) as nat);
                        assert(ipv * UNIT + f * p > i64::MAX) by (nonlinear_arith)
                            requires ipv > INT_PART_LIMIT, f >= 0, p >= 1;
                    }
                } else {
                    assert(ipv * UNIT > i64::MAX) by (nonlinear_arith)
                        requires ipv > INT_PART_LIMIT;
                }
            }
            return Err(CompileError::BadNumber(i));
        },
    };
    proof {
        lemma_digits_nonneg(cs@, i as int, e1 as int);
    }
    if e1 < cs.len() && cs[e1] == '.' {
        let e2 = scan_digits(cs, e1 + 1);
        proof {
            lemma_digits_end(cs@, e1 + 1);
        }
        let k = e2 - e1 - 1;
        if k > MAX_DECIMALS {
            return Err(CompileError::BadNumber(i));
        }
        proof {
            lemma_digits_below_pow(cs@, e1 + 1, e2 as int);
        }
        proof {
            lemma_pow10_bound(k as nat);
        }
        let fv = match digits_exec(cs, e1 + 1, e2) {
            Some(v) => v,
            None => return Err(CompileError::BadNumber(i)),
        };
        let mut scale: i128 = 1;
        let mut m: usize = 0;
        while m < MAX_DECIMALS - k
            invariant
                m <= MAX_DECIMALS - k,
                scale == pow10(m as nat),
                1 <= scale <= 1_000_000,
            decreases MAX_DECIMALS - k - m,
        {
            proof {
                lemma_pow10_bound((m + 1) as nat);
            }
            scale = scale * 10;
            m += 1;
        }
        proof {
            lemma_pow10_bound(k as nat);
            lemma_digits_nonneg(cs@, e1 + 1, e2 as int);
            assert(fv * scale <= 1_000_000_000_000) by (nonlinear_arith)
                requires 0 <= fv < 1_000_000, 0 <= scale <= 1_000_000;
        }
        let v = ip * 1_000_000 + fv * scale;
        if v <= i64::MAX as i128 {
            Ok((v as i64, e2))
        } else {
            Err(CompileError::BadNumber(i))
        }
    } else {
        let v = ip * 1_000_000;
        if v <= i64::MAX as i128 {
            Ok((v as i64, e1))
        } else {
            Err(CompileError::BadNumber(i))
        }
    }
}

proof fn lemma_pow10_bound(k: nat)
    requires
        k <= 6,
    ensures
        1 <= pow10(k) <= 1_000_000,
    decreases k,
{
    reveal_with_fuel(pow10, 7);
}

/// Relies on `String::push`: appends one character to the string.
#[verifier::external_body]
fn push_char(s: &mut String, c: char)
    ensures
        final(s)@ == old(s)@.push(c),
{
    s.push(c)
}

/// The characters `cs[i..j]` as a string.
fn string_of(cs: &Vec<char>, i: usize, j: usize) -> (r: String)
    requires
        i <= j <= cs@.len(),
    ensures
        r@ == cs@.subrange(i as int, j as int),
{
    let mut s = String::new();
    let mut k = i;
    while k < j
        invariant
            i <= k <= j <= cs@.len(),
            s@ == cs@.subrange(i as int, k as int),
        decreases j - k,
    {
        push_char(&mut s, cs[k]);
        k += 1;
        assert(s@ =~= cs@.subrange(i as int, k as int));
    }
    s
}

pub open spec fn prefixed_toks(pre: Seq<Tok>, rest: Result<Seq<Tok>, CompileError>) -> Result<Seq<Tok>, CompileError> {
    match rest {
        Ok(r) => Ok(pre + r),
        Err(e) => Err(e),
    }
}

/// The punctuation token at `i` and where it ends.
fn punct_exec(cs: &Vec<char>, i: usize) -> (r: Option<(Token, usize)>)
    requires
        i < cs@.len(),
    ensures
        match punct_at(cs@, i as int) {
            Some((t, j)) => r matches Some((tok, k)) && tok_view(tok) == t && k == j,
            None => r is None,
        },
{
    let c = cs[i];
    let next_eq = i < cs.len() - 1 && cs[i + 1] == '=';
    if c == '+' { Some((Token::Plus, i + 1)) }
    else if c == '-' { Some((Token::Minus, i + 1)) }
    else if c == '*' { Some((Token::Star, i + 1)) }
    else if c == '/' { Some((Token::Slash, i + 1)) }
    else if c == '(' { Some((Token::LParen, i + 1)) }
    else if c == ')' { Some((Token::RParen, i + 1)) }
    else if c == '{' { Some((Token::LBrace, i + 1)) }
    else if c == '}' { Some((Token::RBrace, i + 1)) }
    else if c == ';' { Some((Token::Semi, i + 1)) }
    else if c == '=' { Some((Token::Assign, i + 1)) }
    else if c == '<' { if next_eq { Some((Token::Le, i + 2)) } else { Some((Token::Lt, i + 1)) } }
    else if c == '>' { if next_eq { Some((Token::Ge, i + 2)) } else { Some((Token::Gt, i + 1)) } }
    else { None }
}

/// Splits source characters into tokens.
pub fn tokenize(cs: &Vec<char>) -> (r: Result<Vec<Token>, CompileError>)
    ensures
        match lex(cs@) {
            Ok(ts) => r matches Ok(v) && toks_view(v@) == ts,
            Err(e) => r == Err::<Vec<Token>, CompileError>(e),
        },
{
    let mut out: Vec<Token> = Vec::new();
    let mut i: usize = 0;
    assert(toks_view(out@) =~= Seq::<Tok>::empty());
    assert(prefixed_toks(Seq::<Tok>::empty(), lex_from(cs@, 0)) =~= lex_from(cs@, 0)) by {
        match lex_from(cs@, 0) {
            Ok(r) => { assert(Seq::<Tok>::empty() + r =~= r); },
            Err(_) => {},
        }
    }
    while i < cs.len()
        invariant
            i <= cs@.len(),
            lex(cs@) == prefixed_toks(toks_view(out@), lex_from(cs@, i as int)),
        decreases cs@.len() - i,
    {
        let c = cs[i];
        let ghost pre = toks_view(out@);
        let tok: Token;
        let next: usize;
        if c == ' ' || c == '\n' || c == '\t' || c == '\r' {
            assert(lex_from(cs@, i as int) == lex_from(cs@, i + 1));
            i += 1;
            continue;
        } else if '0' <= c && c <= '9' {
            match number_exec(cs, i) {
                Err(e) => return Err(e),
                Ok((v, j)) => {
                    if !(i < j && j <= cs.len()) {
                        return Err(CompileError::BadNumber(i));
                    }
                    tok = Token::Num(v);
                    next = j;
                },
            }
        } else if ('a' <= c && c <= 'z') || ('A' <= c && c <= 'Z') || c == '_' {
            let j = scan_ident(cs, i + 1);
            let ghost w = cs@.subrange(i as int, j as int);
            if j - i == 2 && cs[i] == 'i' && cs[i + 1] == 'f' {
                assert(w =~= seq!['i', 'f']);
                tok = Token::If;
            } else if j - i == 4 && cs[i] == 'e' && cs[i + 1] == 'l' && cs[i + 2] == 's' && cs[i + 3] == 'e' {
                assert(w =~= seq!['e', 'l', 's', 'e']);
                tok = Token::Else;
            } else {
                assert(w != seq!['i', 'f']) by {
                    if w == seq!['i', 'f'] {
                        assert(w.len() == 2 && w[0] == 'i' && w[1] == 'f');
                    }
                }
                assert(w != seq!['e', 'l', 's', 'e']) by {
                    if w == seq!['e', 'l', 's', 'e'] {
                        assert(w.len() == 4 && w[0] == 'e' && w[1] == 'l' && w[2] == 's' && w[3] == 'e');
                    }
                }
                tok = Token::Ident(string_of(cs, i, j));
            }
            next = j;
        } else {
            match punct_exec(cs, i) {
                None => return Err(CompileError::BadChar(i)),
                Some((t, j)) => {
                    tok = t;
                    next = j;
                },
            }
        }
        let ghost tv = tok_view(tok);
        out.push(tok);
        proof {
            assert(toks_view(out@) =~= pre.push(tv));
            match lex_from(cs@, next as int) {
                Ok(rest) => {
                    assert(pre + (seq![tv] + rest) =~= pre.push(tv) + rest);
                },
                Err(_) => {},
            }
        }
        i = next;
    }
    proof {
        assert(toks_view(out@) + Seq::<Tok>::empty() =~= toks_view(out@));
    }
    Ok(out)
}

} // verus!
