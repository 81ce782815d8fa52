//! Parsing tokens into programs.
//!
//! ```text
//! program := (name '=' expr ';')* expr ';'?
//! expr    := 'if' sum cmp sum '{' expr '}' 'else' '{' expr '}' | sum
//! sum     := term (('+' | '-') term)*
//! term    := factor (('*' | '/') factor)*
//! factor  := number | name | '(' expr ')' | '-' factor | 'if' ...
//! cmp     := '<' | '<=' | '>' | '>='
//! ```
use vstd::prelude::*;
use crate::expr::{Binding, Cmp, ExprModel, Op, Program, ProgramModel, op_view, program_view};
use crate::lexer::{Tok, Token, tok_view, toks_view};

verus! {

pub open spec fn cmp_of(t: Tok) -> Option<Cmp> {
    match t {
        Tok::Lt => Some(Cmp::Lt),
        Tok::Le => Some(Cmp::Le),
        Tok::Gt => Some(Cmp::Gt),
        Tok::Ge => Some(Cmp::Ge),
        _ => None,
    }
}

/// An expression starting at token `i`, and the position after it.
pub open spec fn parse_expr(t: Seq<Tok>, i: int) -> Option<(ExprModel, int)>
    decreases t.len() - i, 4nat,
{
    if i < 0 || i >= t.len() {
        None
    } else if t[i] is If {
        parse_if(t, i + 1)
    } else {
        parse_sum(t, i)
    }
}

/// The rest of an `if` expression, from just after the keyword.
pub open spec fn parse_if(t: Seq<Tok>, i: int) -> Option<(ExprModel, int)>
    decreases t.len() - i, 5nat,
{
    if i < 0 || i >= t.len() {
        None
    } else {
        match parse_sum(t, i) {
            None => None,
            Some((l, j)) => if !(i < j < t.len()) {
                None
            } else {
                match cmp_of(t[j]) {
                    None => None,
                    Some(c) => match parse_sum(t, j + 1) {
                        None => None,
                        Some((r, k)) => if !(j < k < t.len()) || !(t[k] is LBrace) {
                            None
                        } else {
                            match parse_expr(t, k + 1) {
                                None => None,
                                Some((a, m)) => if !(k < m) || !(m + 2 < t.len()) || !(t[m] is RBrace)
                                    || !(t[m + 1] is Else) || !(t[m + 2] is LBrace) {
                                    None
                                } else {
                                    match parse_expr(t, m + 3) {
                                        None => None,
                                        Some((b, n)) => if !(m + 2 < n < t.len()) || !(t[n] is RBrace) {
                                            None
                                        } else {
                                            Some((ExprModel::IfElse(c, Box::new(l), Box::new(r), Box::new(a), Box::new(b)), n + 1))
                                        },
                                    }
                                },
                            }
                        },
                    },
                }
            },
        }
    }
}

pub open spec fn parse_sum(t: Seq<Tok>, i: int) -> Option<(ExprModel, int)>
    decreases t.len() - i, 3nat,
{
    if i < 0 || i >= t.len() {
        None
    } else {
        match parse_term(t, i) {
            None => None,
            Some((e, j)) => if i < j <= t.len() { sum_rest(t, j, e) } else { None },
        }
    }
}

/// Further `+` and `-` terms from position `j`, folded left onto `acc`.
pub open spec fn sum_rest(t: Seq<Tok>, j: int, acc: ExprModel) -> Option<(ExprModel, int)>
    decreases t.len() - j, 3nat,
{
    if 0 <= j < t.len() && (t[j] is Plus || t[j] is Minus) {
        match parse_term(t, j + 1) {
            None => None,
            Some((e, k)) => if j + 1 < k <= t.len() {
                sum_rest(t, k, if t[j] is Plus {
                    ExprModel::Add(Box::new(acc), Box::new(e))
                } else {
                    ExprModel::Sub(Box::new(acc), Box::new(e))
                })
            } else {
                None
            },
        }
    } else {
        Some((acc, j))
    }
}

pub open spec fn parse_term(t: Seq<Tok>, i: int) -> Option<(ExprModel, int)>
    decreases t.len() - i, 2nat,
{
    if i < 0 || i >= t.len() {
        None
    } else {
        match parse_factor(t, i) {
            None => None,
            Some((e, j)) => if i < j <= t.len() { term_rest(t, j, e) } else { None },
        }
    }
}

/// Further `*` and `/` factors from position `j`, folded left onto `acc`.
pub open spec fn term_rest(t: Seq<Tok>, j: int, acc: ExprModel) -> Option<(ExprModel, int)>
    decreases t.len() - j, 2nat,
{
    if 0 <= j < t.len() && (t[j] is Star || t[j] is Slash) {
        match parse_factor(t, j + 1) {
            None => None,
            Some((e, k)) => if j + 1 < k <= t.len() {
                term_rest(t, k, if t[j] is Star {
                    ExprModel::Mul(Box::new(acc), Box::new(e))
                } else {
                    ExprModel::Div(Box::new(acc), Box::new(e))
                })
            } else {
                None
            },
        }
    } else {
        Some((acc, j))
    }
}

pub open spec fn parse_factor(t: Seq<Tok>, i: int) -> Option<(ExprModel, int)>
    decreases t.len() - i, 1nat,
{
    if i < 0 || i >= t.len() {
        None
    } else {
        match t[i] {
            Tok::Num(v) => Some((ExprModel::Const(v), i + 1)),
            Tok::Ident(n) => Some((ExprModel::Var(n), i + 1)),
            Tok::LParen => match parse_expr(t, i + 1) {
                None => None,
                Some((e, j)) => if i + 1 < j < t.len() && t[j] is RParen { Some((e, j + 1)) } else { None },
            },
            Tok::Minus => match parse_factor(t, i + 1) {
                None => None,
                Some((e, j)) => Some((ExprModel::Sub(Box::new(ExprModel::Const(0)), Box::new(e)), j)),
            },
            Tok::If => parse_if(t, i + 1),
            _ => None,
        }
    }
}

/// The statements from token `i` on, after the bindings `binds`.
pub open spec fn parse_stmts(t: Seq<Tok>, i: int, binds: Seq<(Seq<char>, ExprModel)>) -> Option<ProgramModel>
    decreases t.len() - i,
{
    if i < 0 || i >= t.len() {
        None
    } else if i + 1 < t.len() && t[i] is Ident && t[i + 1] is Assign {
        match parse_expr(t, i + 2) {
            None => None,
            Some((e, j)) => if i + 2 < j < t.len() && t[j] is Semi {
                parse_stmts(t, j + 1, binds.push((t[i]->Ident_0, e)))
            } else {
                None
            },
        }
    } else {
        match parse_expr(t, i) {
            None => None,
            Some((e, j)) => if j == t.len() || (j + 1 == t.len() && t[j] is Semi) {
                Some(ProgramModel { binds, result: e })
            } else {
                None
            },
        }
    }
}


/// Whether an executable parse result is the one the grammar gives.
pub open spec fn agrees(r: Option<(Op, usize)>, s: Option<(ExprModel, int)>) -> bool {
    match s {
        Some((e, j)) => r matches Some((op, k)) && op_view(op) == e && k as int == j,
        None => r is None,
    }
}

fn cmp_exec(t: &Token) -> (r: Option<Cmp>)
    ensures
        r == cmp_of(tok_view(*t)),
{
    match t {
        Token::Lt => Some(Cmp::Lt),
        Token::Le => Some(Cmp::Le),
        Token::Gt => Some(Cmp::Gt),
        Token::Ge => Some(Cmp::Ge),
        _ => None,
    }
}

fn expr_at(t: &Vec<Token>, i: usize) -> (r: Option<(Op, usize)>)
    ensures
        agrees(r, parse_expr(toks_view(t@), i as int)),
    decreases t@.len() - i, 4nat,
{
    if i >= t.len() {
        return None;
    }
    match &t[i] {
        Token::If => if_at(t, i + 1),
        _ => sum_at(t, i),
    }
}

fn if_at(t: &Vec<Token>, i: usize) -> (r: Option<(Op, usize)>)
    ensures
        agrees(r, parse_if(toks_view(t@), i as int)),
    decreases t@.len() - i, 5nat,
{
    let ghost tv = toks_view(t@);
    if i >= t.len() {
        return None;
    }
    let (l, j) = match sum_at(t, i) {
        Some(x) => x,
        None => return None,
    };
    if !(i < j && j < t.len()) {
        return None;
    }
    let c = match cmp_exec(&t[j]) {
        Some(c) => c,
        None => return None,
    };
    let (r, k) = match sum_at(t, j + 1) {
        Some(x) => x,
        None => return None,
    };
    if !(j < k && k < t.len()) {
        return None;
    }
    match &t[k] {
        Token::LBrace => {},
        _ => return None,
    }
    let (a, m) = match expr_at(t, k + 1) {
        Some(x) => x,
        None => return None,
    };
    if !(k < m && m < t.len() - 2) {
        return None;
    }
    match (&t[m], &t[m + 1], &t[m + 2]) {
        (Token::RBrace, Token::Else, Token::LBrace) => {},
        _ => return None,
    }
    let (b, n) = match expr_at(t, m + 3) {
        Some(x) => x,
        None => return None,
    };
    if !(m + 2 < n && n < t.len()) {
        return None;
    }
    match &t[n] {
        Token::RBrace => {},
        _ => return None,
    }
    Some((Op::IfElse(c, Box::new(l), Box::new(r), Box::new(a), Box::new(b)), n + 1))
}

fn sum_at(t: &Vec<Token>, i: usize) -> (r: Option<(Op, usize)>)
    ensures
        agrees(r, parse_sum(toks_view(t@), i as int)),
    decreases t@.len() - i, 3nat,
{
    if i >= t.len() {
        return None;
    }
    let (e, j) = match term_at(t, i) {
        Some(x) => x,
        None => return None,
    };
    if !(i < j && j <= t.len()) {
        return None;
    }
    sum_rest_at(t, j, e)
}

fn sum_rest_at(t: &Vec<Token>, j: usize, acc: Op) -> (r: Option<(Op, usize)>)
    ensures
        agrees(r, sum_rest(toks_view(t@), j as int, op_view(acc))),
    decreases t@.len() - j, 3nat,
{
    if j < t.len() {
        let plus = match &t[j] {
            Token::Plus => Some(true),
            Token::Minus => Some(false),
            _ => None,
        };
        if let Some(plus) = plus {
            let (e, k) = match term_at(t, j + 1) {
                Some(x) => x,
                None => return None,
            };
            if !(j + 1 < k && k <= t.len()) {
                return None;
            }
            let acc2 = if plus {
                Op::Add(Box::new(acc), Box::new(e))
            } else {
                Op::Sub(Box::new(acc), Box::new(e))
            };
            return sum_rest_at(t, k, acc2);
        }
    }
    Some((acc, j))
}

fn term_at(t: &Vec<Token>, i: usize) -> (r: Option<(Op, usize)>)
    ensures
        agrees(r, parse_term(toks_view(t@), i as int)),
    decreases t@.len() - i, 2nat,
{
    if i >= t.len() {
        return None;
    }
    let (e, j) = match factor_at(t, i) {
        Some(x) => x,
        None => return None,
    };
    if !(i < j && j <= t.len()) {
        return None;
    }
    term_rest_at(t, j, e)
}

fn term_rest_at(t: &Vec<Token>, j: usize, acc: Op) -> (r: Option<(Op, usize)>)
    ensures
        agrees(r, term_rest(toks_view(t@), j as int, op_view(acc))),
    decreases t@.len() - j, 2nat,
{
    if j < t.len() {
        let star = match &t[j] {
            Token::Star => Some(true),
            Token::Slash => Some(false),
            _ => None,
        };
        if let Some(star) = star {
            let (e, k) = match factor_at(t, j + 1) {
                Some(x) => x,
                None => return None,
            };
            if !(j + 1 < k && k <= t.len()) {
                return None;
            }
            let acc2 = if star {
                Op::Mul(Box::new(acc), Box::new(e))
            } else {
                Op::Div(Box::new(acc), Box::new(e))
            };
            return term_rest_at(t, k, acc2);
        }
    }
    Some((acc, j))
}

fn factor_at(t: &Vec<Token>, i: usize) -> (r: Option<(Op, usize)>)
    ensures
        agrees(r, parse_factor(toks_view(t@), i as int)),
    decreases t@.len() - i, 1nat,
{
    if i >= t.len() {
        return None;
    }
    assert(toks_view(t@)[i as int] == tok_view(t@[i as int]));
    match &t[i] {
        Token::Num(v) => {
            Some((Op::Const(*v), i + 1))
        },
        Token::Ident(n) => {
            Some((Op::LoadVar(n.clone()), i + 1))
        },
        Token::LParen => {
            let (e, j) = match expr_at(t, i + 1) {
                Some(x) => x,
                None => return None,
            };
            if !(i + 1 < j && j < t.len()) {
                return None;
            }
            match &t[j] {
                Token::RParen => Some((e, j + 1)),
                _ => None,
            }
        },
        Token::Minus => match factor_at(t, i + 1) {
            Some((e, j)) => {
                let r = Some((Op::Sub(Box::new(Op::Const(0)), Box::new(e)), j));
                assert(op_view(Op::Const(0)) == ExprModel::Const(0));
                assert(op_view(Op::Sub(Box::new(Op::Const(0)), Box::new(e))) == ExprModel::Sub(Box::new(ExprModel::Const(0)), Box::new(op_view(e))));
                assert(agrees(r, parse_factor(toks_view(t@), i as int)));
                r
            },
            None => None,
        },
        Token::If => if_at(t, i + 1),
        _ => None,
    }
}

pub open spec fn binds_view(bs: Seq<Binding>) -> Seq<(Seq<char>, ExprModel)> {
    bs.map_values(|b: Binding| (b.name@, op_view(b.value)))
}

fn stmts_at(t: &Vec<Token>, i: usize, binds: Vec<Binding>) -> (r: Option<Program>)
    ensures
        match parse_stmts(toks_view(t@), i as int, binds_view(binds@)) {
            Some(pm) => r matches Some(p) && program_view(p) == pm,
            None => r is None,
        },
    decreases t@.len() - i,
{
    let ghost tv = toks_view(t@);
    if i >= t.len() {
        return None;
    }
    assert(tv[i as int] == tok_view(t@[i as int]));
    let name = if i < t.len() - 1 {
        assert(tv[i + 1] == tok_view(t@[i + 1]));
        match (&t[i], &t[i + 1]) {
            (Token::Ident(n), Token::Assign) => Some(n.clone()),
            _ => None,
        }
    } else {
        None
    };
    match name {
        Some(name) => {
            let (e, j) = match expr_at(t, i + 2) {
                Some(x) => x,
                None => return None,
            };
            if !(i + 2 < j && j < t.len()) {
                return None;
            }
            match &t[j] {
                Token::Semi => {},
                _ => return None,
            }
            let mut binds = binds;
            let ghost before = binds@;
            let ghost nm = name@;
            binds.push(Binding { name, value: e });
            assert(binds_view(binds@) =~= binds_view(before).push((nm, op_view(e))));
            stmts_at(t, j + 1, binds)
        },
        None => {
            let (e, j) = match expr_at(t, i) {
                Some(x) => x,
                None => return None,
            };
            let ends = if j == t.len() {
                true
            } else if j < t.len() && j + 1 == t.len() {
                match &t[j] {
                    Token::Semi => true,
                    _ => false,
                }
            } else {
                false
            };
            if !ends {
                return None;
            }
            let p = Program { binds, result: e };
            assert(program_view(p).binds =~= binds_view(p.binds@));
            Some(p)
        },
    }
}

/// The bindings that stand for named constants.
pub open spec fn const_binds(consts: Seq<crate::expr::Var>) -> Seq<(Seq<char>, ExprModel)> {
    consts.map_values(|v: crate::expr::Var| (v.name@, ExprModel::Const(v.value)))
}

/// Compiles expression source into programs, with named constants that
/// every program sees as bindings made before its own.
pub struct Compiler {
    pub consts: Vec<crate::expr::Var>,
}

impl Compiler {
    pub fn new() -> (r: Compiler)
        ensures
            r.consts@.len() == 0,
    {
        Compiler { consts: Vec::new() }
    }

    /// Adds a named constant.
    pub fn add_const(&mut self, name: &str, value: i64)
        ensures
            final(self).consts@.len() == old(self).consts@.len() + 1,
            final(self).consts@.drop_last() == old(self).consts@,
            final(self).consts@.last().name@ == name@,
            final(self).consts@.last().value == value,
    {
        self.consts.push(crate::expr::Var { name: name.to_string(), value });
        assert(self.consts@.drop_last() =~= old(self).consts@);
    }

    /// Compiles `src`: lexer errors carry their position, and tokens that
    /// do not form a program give `Syntax`.
    pub fn compile(&self, src: &str) -> (r: Result<Program, crate::lexer::CompileError>)
        ensures
            match crate::lexer::lex(src@) {
                Err(e) => r == Err::<Program, crate::lexer::CompileError>(e),
                Ok(ts) => match parse_stmts(ts, 0, const_binds(self.consts@)) {
                    Some(pm) => r matches Ok(p) && program_view(p) == pm,
                    None => r == Err::<Program, crate::lexer::CompileError>(crate::lexer::CompileError::Syntax),
                },
            },
    {
        let cs = crate::text::chars_of(src);
        let toks = match crate::lexer::tokenize(&cs) {
            Ok(t) => t,
            Err(e) => return Err(e),
        };
        let mut binds: Vec<Binding> = Vec::new();
        let mut k: usize = 0;
        while k < self.consts.len()
            invariant
                k <= self.consts@.len(),
                binds_view(binds@) == const_binds(self.consts@.subrange(0, k as int)),
            decreases self.consts@.len() - k,
        {
            let ghost before = binds@;
            assert(op_view(Op::Const(self.consts@[k as int].value)) == ExprModel::Const(self.consts@[k as int].value));
            binds.push(Binding { name: self.consts[k].name.clone(), value: Op::Const(self.consts[k].value) });
            let ghost c = self.consts@[k as int];
            assert(binds_view(binds@) =~= binds_view(before).push((c.name@, ExprModel::Const(c.value))));
            assert(const_binds(self.consts@.subrange(0, k + 1)) =~= const_binds(self.consts@.subrange(0, k as int)).push(
                (c.name@, ExprModel::Const(c.value)),
            ));
            k += 1;
        }
        assert(self.consts@.subrange(0, k as int) =~= self.consts@);
        match stmts_at(&toks, 0, binds) {
            Some(p) => Ok(p),
            None => Err(crate::lexer::CompileError::Syntax),
        }
    }
}

} // verus!
