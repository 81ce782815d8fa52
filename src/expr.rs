//! Expression programs: a sequence of local bindings followed by a result
//! expression, evaluated against an environment of named fixed-point values.
use vstd::prelude::*;
use crate::fixed::{checked_add, checked_sub, checked_mul, checked_div, in_i64, fixed_mul, fixed_div};

verus! {

/// A comparison, usable only as the condition of an `if`.
#[derive(Debug, Clone, Copy, PartialEq, Eq, Structural)]
pub enum Cmp {
    Lt,
    Le,
    Gt,
    Ge,
}

/// An expression tree over fixed-point values.
#[derive(Debug)]
pub enum Op {
    Const(i64),
    LoadVar(String),
    Add(Box<Op>, Box<Op>),
    Sub(Box<Op>, Box<Op>),
    Mul(Box<Op>, Box<Op>),
    Div(Box<Op>, Box<Op>),
    /// `if lhs cmp rhs { then } else { otherwise }`
    IfElse(Cmp, Box<Op>, Box<Op>, Box<Op>, Box<Op>),
}

/// An expression tree as a value, with names as character sequences.
pub enum ExprModel {
    Const(i64),
    Var(Seq<char>),
    Add(Box<ExprModel>, Box<ExprModel>),
    Sub(Box<ExprModel>, Box<ExprModel>),
    Mul(Box<ExprModel>, Box<ExprModel>),
    Div(Box<ExprModel>, Box<ExprModel>),
    IfElse(Cmp, Box<ExprModel>, Box<ExprModel>, Box<ExprModel>, Box<ExprModel>),
}

pub open spec fn op_view(op: Op) -> ExprModel
    decreases op,
{
    match op {
        Op::Const(v) => ExprModel::Const(v),
        Op::LoadVar(n) => ExprModel::Var(n@),
        Op::Add(a, b) => ExprModel::Add(Box::new(op_view(*a)), Box::new(op_view(*b))),
        Op::Sub(a, b) => ExprModel::Sub(Box::new(op_view(*a)), Box::new(op_view(*b))),
        Op::Mul(a, b) => ExprModel::Mul(Box::new(op_view(*a)), Box::new(op_view(*b))),
        Op::Div(a, b) => ExprModel::Div(Box::new(op_view(*a)), Box::new(op_view(*b))),
        Op::IfElse(c, l, r, t, f) => ExprModel::IfElse(
            c,
            Box::new(op_view(*l)),
            Box::new(op_view(*r)),
            Box::new(op_view(*t)),
            Box::new(op_view(*f)),
        ),
    }
}

/// A program as a value: its bindings by name, then its result.
pub struct ProgramModel {
    pub binds: Seq<(Seq<char>, ExprModel)>,
    pub result: ExprModel,
}

pub open spec fn program_view(p: Program) -> ProgramModel {
    ProgramModel {
        binds: p.binds@.map_values(|b: Binding| (b.name@, op_view(b.value))),
        result: op_view(p.result),
    }
}

/// A local binding `name = value`.
#[derive(Debug)]
pub struct Binding {
    pub name: String,
    pub value: Op,
}

/// A compiled program: bindings evaluated in order, then the result.
#[derive(Debug)]
pub struct Program {
    pub binds: Vec<Binding>,
    pub result: Op,
}

/// One named value of an environment. Later entries shadow earlier ones.
#[derive(Debug)]
pub struct Var {
    pub name: String,
    pub value: i64,
}

#[derive(Debug, Clone, Copy, PartialEq, Eq, Structural)]
pub enum EvalError {
    UndefinedVar,
    DivByZero,
    Overflow,
}

/// An environment as names and values, in binding order.
pub type EnvModel = Seq<(Seq<char>, i64)>;

pub open spec fn env_model(vars: Seq<Var>) -> EnvModel {
    vars.map_values(|v: Var| (v.name@, v.value))
}

/// The value bound to `name`, the latest binding winning.
pub open spec fn lookup(env: EnvModel, name: Seq<char>) -> Option<i64>
    decreases env.len(),
{
    if env.len() == 0 {
        None
    } else if env.last().0 == name {
        Some(env.last().1)
    } else {
        lookup(env.drop_last(), name)
    }
}

pub open spec fn compare(c: Cmp, a: i64, b: i64) -> bool {
    match c {
        Cmp::Lt => a < b,
        Cmp::Le => a <= b,
        Cmp::Gt => a > b,
        Cmp::Ge => a >= b,
    }
}

pub open spec fn ranged(v: int) -> Result<i64, EvalError> {
    if in_i64(v) {
        Ok(v as i64)
    } else {
        Err(EvalError::Overflow)
    }
}

/// Applies a binary operator to two evaluation outcomes, left first.
pub open spec fn binary(kind: int, a: Result<i64, EvalError>, b: Result<i64, EvalError>) -> Result<i64, EvalError> {
    match a {
        Err(e) => Err(e),
        Ok(x) => match b {
            Err(e) => Err(e),
            Ok(y) => if kind == 0 {
                ranged(x + y)
            } else if kind == 1 {
                ranged(x - y)
            } else if kind == 2 {
                ranged(fixed_mul(x as int, y as int))
            } else if y == 0 {
                Err(EvalError::DivByZero)
            } else {
                ranged(fixed_div(x as int, y as int))
            },
        },
    }
}

/// The value of an expression in an environment.
pub open spec fn eval_op(op: Op, env: EnvModel) -> Result<i64, EvalError>
    decreases op,
{
    match op {
        Op::Const(v) => Ok(v),
        Op::LoadVar(n) => match lookup(env, n@) {
            Some(v) => Ok(v),
            None => Err(EvalError::UndefinedVar),
        },
        Op::Add(a, b) => binary(0, eval_op(*a, env), eval_op(*b, env)),
        Op::Sub(a, b) => binary(1, eval_op(*a, env), eval_op(*b, env)),
        Op::Mul(a, b) => binary(2, eval_op(*a, env), eval_op(*b, env)),
        Op::Div(a, b) => binary(3, eval_op(*a, env), eval_op(*b, env)),
        Op::IfElse(c, l, r, t, f) => match eval_op(*l, env) {
            Err(e) => Err(e),
            Ok(x) => match eval_op(*r, env) {
                Err(e) => Err(e),
                Ok(y) => if compare(c, x, y) {
                    eval_op(*t, env)
                } else {
                    eval_op(*f, env)
                },
            },
        },
    }
}

/// The environment after evaluating `binds` in order, each binding visible
/// to those after it.
pub open spec fn eval_binds(binds: Seq<Binding>, env: EnvModel) -> Result<EnvModel, EvalError>
    decreases binds.len(),
{
    if binds.len() == 0 {
        Ok(env)
    } else {
        match eval_op(binds[0].value, env) {
            Err(e) => Err(e),
            Ok(v) => eval_binds(binds.skip(1), env.push((binds[0].name@, v))),
        }
    }
}

/// The value of a program in an environment.
pub open spec fn eval_program(p: Program, env: EnvModel) -> Result<i64, EvalError> {
    match eval_binds(p.binds@, env) {
        Err(e) => Err(e),
        Ok(env2) => eval_op(p.result, env2),
    }
}

/// Looks `name` up in `env`, the latest binding winning.
pub fn lookup_var(env: &Vec<Var>, name: &String) -> (r: Option<i64>)
    ensures
        r == lookup(env_model(env@), name@),
{
    let mut i = env.len();
    assert(env_model(env@).subrange(0, i as int) =~= env_model(env@));
    while i > 0
        invariant
            i <= env.len(),
            lookup(env_model(env@), name@) == lookup(env_model(env@).subrange(0, i as int), name@),
        decreases i,
    {
        let ghost pre = env_model(env@).subrange(0, i as int);
        assert(pre.drop_last() =~= env_model(env@).subrange(0, i - 1));
        assert(pre.last() == (env@[i - 1].name@, env@[i - 1].value));
        if env[i - 1].name == *name {
            return Some(env[i - 1].value);
        }
        i = i - 1;
    }
    None
}

fn apply_binary(kind: u8, x: i64, y: i64) -> (r: Result<i64, EvalError>)
    requires
        kind <= 3,
    ensures
        r == binary(kind as int, Ok(x), Ok(y)),
{
    let v = if kind == 0 {
        checked_add(x, y)
    } else if kind == 1 {
        checked_sub(x, y)
    } else if kind == 2 {
        checked_mul(x, y)
    } else if y == 0 {
        return Err(EvalError::DivByZero);
    } else {
        checked_div(x, y)
    };
    match v {
        Some(v) => Ok(v),
        None => Err(EvalError::Overflow),
    }
}

/// Evaluates an expression tree in an environment.
pub fn evaluate_op(op: &Op, env: &Vec<Var>) -> (r: Result<i64, EvalError>)
    ensures
        r == eval_op(*op, env_model(env@)),
    decreases op,
{
    match op {
        Op::Const(v) => Ok(*v),
        Op::LoadVar(n) => match lookup_var(env, n) {
            Some(v) => Ok(v),
            None => Err(EvalError::UndefinedVar),
        },
        Op::Add(a, b) | Op::Sub(a, b) | Op::Mul(a, b) | Op::Div(a, b) => {
            let kind: u8 = match op {
                Op::Add(..) => 0,
                Op::Sub(..) => 1,
                Op::Mul(..) => 2,
                _ => 3,
            };
            let x = match evaluate_op(a, env) {
                Ok(x) => x,
                Err(e) => return Err(e),
            };
            let y = match evaluate_op(b, env) {
                Ok(y) => y,
                Err(e) => return Err(e),
            };
            apply_binary(kind, x, y)
        },
        Op::IfElse(c, l, r, t, f) => {
            let x = match evaluate_op(l, env) {
                Ok(x) => x,
                Err(e) => return Err(e),
            };
            let y = match evaluate_op(r, env) {
                Ok(y) => y,
                Err(e) => return Err(e),
            };
            let holds = match c {
                Cmp::Lt => x < y,
                Cmp::Le => x <= y,
                Cmp::Gt => x > y,
                Cmp::Ge => x >= y,
            };
            if holds {
                evaluate_op(t, env)
            } else {
                evaluate_op(f, env)
            }
        },
    }
}

/// A copy of an environment.
pub fn copy_env(env: &Vec<Var>) -> (r: Vec<Var>)
    ensures
        r@ == env@,
{
    let mut r: Vec<Var> = Vec::new();
    let mut i: usize = 0;
    while i < env.len()
        invariant
            i <= env.len(),
            r@ == env@.subrange(0, i as int),
        decreases env.len() - i,
    {
        r.push(Var { name: env[i].name.clone(), value: env[i].value });
        i += 1;
        assert(r@ =~= env@.subrange(0, i as int));
    }
    assert(env@.subrange(0, env.len() as int) =~= env@);
    r
}

/// Evaluates a program in an environment: the bindings in order, each one
/// visible to those after it, then the result expression.
pub fn evaluate(p: &Program, env: &Vec<Var>) -> (r: Result<i64, EvalError>)
    ensures
        r == eval_program(*p, env_model(env@)),
{
    let mut cur = copy_env(env);
    let mut i: usize = 0;
    assert(p.binds@.skip(0) =~= p.binds@);
    while i < p.binds.len()
        invariant
            i <= p.binds.len(),
            eval_binds(p.binds@, env_model(env@)) == eval_binds(p.binds@.skip(i as int), env_model(cur@)),
        decreases p.binds.len() - i,
    {
        let b = &p.binds[i];
        assert(p.binds@.skip(i as int)[0] == p.binds@[i as int]);
        assert(p.binds@.skip(i as int).skip(1) =~= p.binds@.skip(i + 1));
        match evaluate_op(&b.value, &cur) {
            Err(e) => return Err(e),
            Ok(v) => {
                let ghost before = cur@;
                cur.push(Var { name: b.name.clone(), value: v });
                assert(env_model(cur@) =~= env_model(before).push((b.name@, v)));
            },
        }
        i += 1;
    }
    evaluate_op(&p.result, &cur)
}

/// A program that loads one variable.
pub fn load_var(name: &str) -> (r: Program)
    ensures
        r.binds@.len() == 0,
        r.result matches Op::LoadVar(n) && n@ == name@,
{
    Program { binds: Vec::new(), result: Op::LoadVar(name.to_string()) }
}

/// A program that yields a constant.
pub fn const_value(v: i64) -> (r: Program)
    ensures
        r.binds@.len() == 0,
        r.result == Op::Const(v),
{
    Program { binds: Vec::new(), result: Op::Const(v) }
}

/// A copy of an expression tree.
pub fn copy_op(op: &Op) -> (r: Op)
    ensures
        r == *op,
    decreases op,
{
    match op {
        Op::Const(v) => Op::Const(*v),
        Op::LoadVar(n) => Op::LoadVar(n.clone()),
        Op::Add(a, b) => Op::Add(Box::new(copy_op(a)), Box::new(copy_op(b))),
        Op::Sub(a, b) => Op::Sub(Box::new(copy_op(a)), Box::new(copy_op(b))),
        Op::Mul(a, b) => Op::Mul(Box::new(copy_op(a)), Box::new(copy_op(b))),
        Op::Div(a, b) => Op::Div(Box::new(copy_op(a)), Box::new(copy_op(b))),
        Op::IfElse(c, l, r, t, f) => Op::IfElse(
            *c,
            Box::new(copy_op(l)),
            Box::new(copy_op(r)),
            Box::new(copy_op(t)),
            Box::new(copy_op(f)),
        ),
    }
}

/// A copy of a program: it has the same bindings and result.
pub fn copy_program(p: &Program) -> (r: Program)
    ensures
        r.binds@ == p.binds@,
        r.result == p.result,
{
    let mut binds: Vec<Binding> = Vec::new();
    let mut i: usize = 0;
    while i < p.binds.len()
        invariant
            i <= p.binds@.len(),
            binds@ == p.binds@.subrange(0, i as int),
        decreases p.binds@.len() - i,
    {
        binds.push(Binding { name: p.binds[i].name.clone(), value: copy_op(&p.binds[i].value) });
        i += 1;
        assert(binds@ =~= p.binds@.subrange(0, i as int));
    }
    assert(p.binds@.subrange(0, p.binds@.len() as int) =~= p.binds@);
    Program { binds, result: copy_op(&p.result) }
}

} // verus!
