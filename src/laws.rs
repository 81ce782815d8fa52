//! Properties that relate several operations of the library.
use vstd::prelude::*;
use crate::expr::{Binding, EnvModel, EvalError, Op, Program, Var, env_model, eval_binds, eval_op, eval_program, lookup, binary};
use crate::gfx::{DrawCall, Rectangle};
use crate::scene::{SceneGraph, SceneNode, lemma_target_kept, node_pos};
use crate::text::lemma_first_index_same;
use crate::visual::{VectorArt, bool_of, rect_of, u32_of};
use crate::prop::{Property, PropertyError, Role, Value, evaluated, first_error, fits, rect_env, slot_eval, write_check};

verus! {

/// The names an environment binds.
pub open spec fn env_names(env: EnvModel) -> Set<Seq<char>> {
    Set::new(|n: Seq<char>| exists|k: int| 0 <= k < env.len() && env[k].0 == n)
}

/// Whether every variable that `op` loads is among `names`.
pub open spec fn op_refs_within(op: Op, names: Set<Seq<char>>) -> bool
    decreases op,
{
    match op {
        Op::Const(_) => true,
        Op::LoadVar(n) => names.contains(n@),
        Op::Add(a, b) | Op::Sub(a, b) | Op::Mul(a, b) | Op::Div(a, b) => op_refs_within(*a, names)
            && op_refs_within(*b, names),
        Op::IfElse(_, l, r, t, f) => op_refs_within(*l, names) && op_refs_within(*r, names)
            && op_refs_within(*t, names) && op_refs_within(*f, names),
    }
}

/// Whether every variable that the bindings and the result load is bound
/// where it is loaded: by `names`, or by an earlier binding.
pub open spec fn program_refs_within(binds: Seq<Binding>, result: Op, names: Set<Seq<char>>) -> bool
    decreases binds.len(),
{
    if binds.len() == 0 {
        op_refs_within(result, names)
    } else {
        op_refs_within(binds[0].value, names)
            && program_refs_within(binds.skip(1), result, names.insert(binds[0].name@))
    }
}

proof fn lemma_lookup_found(env: EnvModel, n: Seq<char>)
    requires
        env_names(env).contains(n),
    ensures
        lookup(env, n) is Some,
    decreases env.len(),
{
    let k = choose|k: int| 0 <= k < env.len() && env[k].0 == n;
    if env.last().0 != n {
        assert(k < env.len() - 1);
        assert(env.drop_last()[k].0 == n);
        assert(env_names(env.drop_last()).contains(n));
        lemma_lookup_found(env.drop_last(), n);
    }
}

proof fn lemma_binary_defined(kind: int, a: Result<i64, EvalError>, b: Result<i64, EvalError>)
    requires
        a != Err::<i64, EvalError>(EvalError::UndefinedVar),
        b != Err::<i64, EvalError>(EvalError::UndefinedVar),
    ensures
        binary(kind, a, b) != Err::<i64, EvalError>(EvalError::UndefinedVar),
{
}

proof fn lemma_op_defined(op: Op, env: EnvModel)
    requires
        op_refs_within(op, env_names(env)),
    ensures
        eval_op(op, env) != Err::<i64, EvalError>(EvalError::UndefinedVar),
    decreases op,
{
    match op {
        Op::Const(_) => {},
        Op::LoadVar(n) => {
            lemma_lookup_found(env, n@);
        },
        Op::Add(a, b) | Op::Sub(a, b) | Op::Mul(a, b) | Op::Div(a, b) => {
            lemma_op_defined(*a, env);
            lemma_op_defined(*b, env);
        },
        Op::IfElse(_, l, r, t, f) => {
            lemma_op_defined(*l, env);
            lemma_op_defined(*r, env);
            lemma_op_defined(*t, env);
            lemma_op_defined(*f, env);
        },
    }
}

proof fn lemma_binds_defined(binds: Seq<Binding>, result: Op, env: EnvModel)
    requires
        program_refs_within(binds, result, env_names(env)),
    ensures
        match eval_binds(binds, env) {
            Ok(env2) => eval_op(result, env2) != Err::<i64, EvalError>(EvalError::UndefinedVar),
            Err(e) => e != EvalError::UndefinedVar,
        },
    decreases binds.len(),
{
    if binds.len() == 0 {
        lemma_op_defined(result, env);
    } else {
        lemma_op_defined(binds[0].value, env);
        match eval_op(binds[0].value, env) {
            Ok(v) => {
                let env2 = env.push((binds[0].name@, v));
                assert(env_names(env2) =~= env_names(env).insert(binds[0].name@)) by {
                    assert forall|n: Seq<char>| env_names(env).insert(binds[0].name@).contains(n)
                        implies env_names(env2).contains(n) by {
                        if n == binds[0].name@ {
                            assert(env2[env.len() as int].0 == n);
                        } else {
                            let k = choose|k: int| 0 <= k < env.len() && env[k].0 == n;
                            assert(env2[k].0 == n);
                        }
                    }
                    assert forall|n: Seq<char>| env_names(env2).contains(n)
                        implies env_names(env).insert(binds[0].name@).contains(n) by {
                        let k = choose|k: int| 0 <= k < env2.len() && env2[k].0 == n;
                        if k < env.len() {
                            assert(env[k].0 == n);
                        }
                    }
                }
                lemma_binds_defined(binds.skip(1), result, env2);
            },
            Err(_) => {},
        }
    }
}

/// Evaluation depends on the program and on the names and values of the
/// environment alone, so evaluating one program twice against environments
/// that bind the same names to the same values gives one result; and where
/// the environment binds every variable that the program loads before
/// binding it, evaluation never fails for an undefined variable.
pub proof fn evaluation_is_pure(p: Program, env1: Seq<Var>, env2: Seq<Var>)
    requires
        env_model(env1) == env_model(env2),
    ensures
        eval_program(p, env_model(env1)) == eval_program(p, env_model(env2)),
        program_refs_within(p.binds@, p.result, env_names(env_model(env1)))
            ==> eval_program(p, env_model(env1)) != Err::<i64, EvalError>(EvalError::UndefinedVar),
{
    if program_refs_within(p.binds@, p.result, env_names(env_model(env1))) {
        lemma_binds_defined(p.binds@, p.result, env_model(env1));
    }
}

/// A literal written into a slot is what the slot then holds.
pub proof fn written_literal_reads_back(before: Property, after: Property, role: Role, i: int, v: Value)
    requires
        before.wf(),
        0 <= i < before.vals@.len(),
        write_check(before.role, role, fits(v, before.typ)) is Ok,
        after.vals@ == before.vals@.update(i, v),
    ensures
        after.vals@[i] == v,
{
}

/// A slot bound to a program holds, after evaluation against a parent
/// rectangle, the program's value for that rectangle's width and height;
/// where the program fails there, the evaluation fails.
pub proof fn bound_slot_holds_its_value(vals: Seq<Value>, exprs: Seq<Option<Program>>, i: int, p: Program, parent: Rectangle)
    requires
        vals.len() == exprs.len(),
        0 <= i < exprs.len(),
    ensures
        match eval_program(p, rect_env(parent)) {
            Ok(v) => evaluated(vals, exprs.update(i, Some(p)), rect_env(parent))[i] == Value::Num(v),
            Err(_) => first_error(exprs.update(i, Some(p)), rect_env(parent), 0) is Some,
        },
{
    let ex = exprs.update(i, Some(p));
    let env = rect_env(parent);
    if eval_program(p, env) is Err {
        lemma_first_error_reaches(ex, env, 0, i);
    }
}

/// Evaluating a property's bound slots a second time against the same
/// parent rectangle stores the same values as the first time: each bound
/// slot gets its program's value again, and the other slots keep theirs.
pub proof fn evaluation_is_idempotent(vals: Seq<Value>, exprs: Seq<Option<Program>>, parent: Rectangle)
    requires
        vals.len() == exprs.len(),
    ensures
        evaluated(evaluated(vals, exprs, rect_env(parent)), exprs, rect_env(parent))
            == evaluated(vals, exprs, rect_env(parent)),
{
    let env = rect_env(parent);
    assert(evaluated(evaluated(vals, exprs, env), exprs, env) =~= evaluated(vals, exprs, env));
}

/// Where only property `j` of node `i` changed, and not in its values, every
/// lookup of a value finds the same value.
proof fn lemma_values_kept(a: SceneGraph, b: SceneGraph, node: u64, name: Seq<char>, slot: int, i: int, j: int)
    requires
        b.only_prop_changed(&a, i, j),
        0 <= j < a.nodes@[i].props@.len(),
        b.nodes@[i].props@[j].vals@ == a.nodes@[i].props@[j].vals@,
    ensures
        b.value_at(node, name, slot) == a.value_at(node, name, slot),
{
    lemma_first_index_same(a.nodes@, b.nodes@, |n: SceneNode| n.id == node);
    match node_pos(a.nodes@, node) {
        None => {},
        Some(i2) => {
            assert(0 <= i2 < a.nodes@.len()) by {
                let c = choose|c: int| 0 <= c < a.nodes@.len() && a.nodes@[c].id == node
                    && forall|m: int| 0 <= m < c ==> !(a.nodes@[m].id == node);
            }
            if i2 == i {
                lemma_first_index_same(a.nodes@[i].props@, b.nodes@[i].props@, |p: Property| p.name@ == name);
            }
        },
    }
}

/// Drawing vector art twice in the same parent rectangle, with nothing
/// written in between, finds the same property values the second time:
/// the node is as drawable, and the same entries are its entries.
pub proof fn vector_art_drawing_is_stable(v: VectorArt, s0: SceneGraph, s1: SceneGraph, s2: SceneGraph, parent: Rectangle)
    requires
        s0.wf(),
        s1.wf(),
        !s0.eval_fails(v.node, "rect"@, parent),
        s1.eval_outcome(s0, v.node, "rect"@, parent, Ok(())),
        s2.eval_outcome(s1, v.node, "rect"@, parent, Ok(())),
    ensures
        forall|name: Seq<char>, slot: int| s2.value_at(v.node, name, slot) == s1.value_at(v.node, name, slot),
        v.drawable(s2) == v.drawable(s1),
        forall|dc: DrawCall| v.entry_for(s2, dc) == v.entry_for(s1, dc),
{
    let (i, j) = s0.prop_target(v.node, "rect"@, 0)->Ok_0;
    lemma_target_kept(s0, s1, v.node, "rect"@, i, j);
    let p0 = s0.nodes@[i].props@[j];
    let p1 = s1.nodes@[i].props@[j];
    let p2 = s2.nodes@[i].props@[j];
    assert(p1.exprs@ == p0.exprs@);
    evaluation_is_idempotent(p0.vals@, p0.exprs@, parent);
    assert(p2.vals@ == p1.vals@);
    assert forall|name: Seq<char>, slot: int| s2.value_at(v.node, name, slot) == s1.value_at(v.node, name, slot) by {
        lemma_values_kept(s1, s2, v.node, name, slot, i, j);
    }
    assert(rect_of(s2, v.node) == rect_of(s1, v.node));
    assert(bool_of(s2, v.node, "is_visible"@) == bool_of(s1, v.node, "is_visible"@));
    assert(u32_of(s2, v.node, "z_index"@) == u32_of(s1, v.node, "z_index"@));
}

proof fn lemma_first_error_reaches(exprs: Seq<Option<Program>>, env: EnvModel, from: int, i: int)
    requires
        0 <= from <= i < exprs.len(),
        slot_eval(exprs[i], env) matches Some(Err(_)),
    ensures
        first_error(exprs, env, from) is Some,
    decreases i - from,
{
    if from < i {
        match slot_eval(exprs[from], env) {
            Some(Err(_)) => {},
            _ => lemma_first_error_reaches(exprs, env, from + 1, i),
        }
    }
}

/// Once the application role has written a property, an internal write
/// fails with a role conflict (and, by the writers' contracts, changes
/// nothing).
pub proof fn lower_role_cannot_overwrite(p: Property, v: Value)
    requires
        p.wf(),
        p.role == Role::App,
        fits(v, p.typ),
    ensures
        write_check(p.role, Role::Internal, fits(v, p.typ)) == Err::<(), PropertyError>(PropertyError::RoleConflict),
{
}

} // verus!
