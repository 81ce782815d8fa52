//! Typed, role-tagged properties whose numeric slots may be bound to
//! expression programs.
use vstd::prelude::*;
use crate::expr::{Program, Var, EvalError, EnvModel, eval_program, evaluate};
use crate::gfx::Rectangle;

verus! {

/// The semantic type of a property. `Num` is a fixed-point scalar; `Rect`
/// (x, y, w, h) and `Color` (r, g, b, a) hold four fixed-point slots.
#[derive(Debug, Clone, Copy, PartialEq, Eq, Structural)]
pub enum PropertyType {
    Bool,
    Uint32,
    Num,
    Str,
    Rect,
    Color,
}

/// The value of one slot.
#[derive(Debug)]
pub enum Value {
    Bool(bool),
    Uint32(u32),
    Num(i64),
    Str(String),
}

/// The class of a writer. Application logic outranks internal defaults.
#[derive(Debug, Clone, Copy, PartialEq, Eq, Structural)]
pub enum Role {
    Internal,
    App,
}

#[derive(Debug, Clone, Copy, PartialEq, Eq, Structural)]
pub enum PropertyError {
    /// The slot holds a value of another type.
    WrongType,
    /// The last writer outranks this one.
    RoleConflict,
}

/// The number of slots of a property of type `t`.
pub open spec fn arity(t: PropertyType) -> nat {
    match t {
        PropertyType::Rect | PropertyType::Color => 4,
        _ => 1,
    }
}

pub open spec fn is_numeric(t: PropertyType) -> bool {
    t == PropertyType::Num || t == PropertyType::Rect || t == PropertyType::Color
}

/// Whether a value may stand in a slot of type `t`.
pub open spec fn fits(v: Value, t: PropertyType) -> bool {
    match v {
        Value::Bool(_) => t == PropertyType::Bool,
        Value::Uint32(_) => t == PropertyType::Uint32,
        Value::Num(_) => is_numeric(t),
        Value::Str(_) => t == PropertyType::Str,
    }
}

/// The priority of a role: the single table that decides who may overwrite whom.
pub open spec fn rank(r: Role) -> nat {
    match r {
        Role::Internal => 0,
        Role::App => 1,
    }
}

/// Whether a writer with role `writer` may overwrite a value last set by `last`.
pub fn may_overwrite(writer: Role, last: Role) -> (r: bool)
    ensures
        r == (rank(writer) >= rank(last)),
{
    match (writer, last) {
        (Role::Internal, Role::App) => false,
        _ => true,
    }
}

/// The outcome of a write that needs slot type `ok_type` to hold.
pub open spec fn write_check(last: Role, writer: Role, type_ok: bool) -> Result<(), PropertyError> {
    if !type_ok {
        Err(PropertyError::WrongType)
    } else if rank(writer) < rank(last) {
        Err(PropertyError::RoleConflict)
    } else {
        Ok(())
    }
}

/// The environment that expressions see: the parent's width and height.
pub open spec fn rect_env(parent: Rectangle) -> EnvModel {
    seq![("w"@, parent.w), ("h"@, parent.h)]
}

/// The result of evaluating one slot's binding, if it has one.
pub open spec fn slot_eval(e: Option<Program>, env: EnvModel) -> Option<Result<i64, EvalError>> {
    match e {
        Some(p) => Some(eval_program(p, env)),
        None => None,
    }
}

/// The error of the first bound slot, from index `i` on, that fails to evaluate.
pub open spec fn first_error(exprs: Seq<Option<Program>>, env: EnvModel, i: int) -> Option<EvalError>
    decreases exprs.len() - i,
{
    if i < 0 || i >= exprs.len() {
        None
    } else {
        match slot_eval(exprs[i], env) {
            Some(Err(e)) => Some(e),
            _ => first_error(exprs, env, i + 1),
        }
    }
}

/// The slot values once every bound slot has been evaluated successfully.
pub open spec fn evaluated(vals: Seq<Value>, exprs: Seq<Option<Program>>, env: EnvModel) -> Seq<Value> {
    Seq::new(vals.len(), |i: int| match slot_eval(exprs[i], env) {
        Some(Ok(v)) => Value::Num(v),
        _ => vals[i],
    })
}

/// The environment of a parent rectangle: its width and height.
pub fn rect_vars(parent: &Rectangle) -> (r: Vec<Var>)
    ensures
        crate::expr::env_model(r@) == rect_env(*parent),
{
    let mut env: Vec<Var> = Vec::new();
    env.push(Var { name: "w".to_string(), value: parent.w });
    env.push(Var { name: "h".to_string(), value: parent.h });
    proof {
        reveal_strlit("w");
        reveal_strlit("h");
    }
    assert(crate::expr::env_model(env@) =~= rect_env(*parent));
    env
}

/// A named, typed property. Each slot holds a value, and a numeric slot may
/// also hold a bound program whose last evaluation is its value.
#[derive(Debug)]
pub struct Property {
    pub name: String,
    pub typ: PropertyType,
    pub role: Role,
    pub vals: Vec<Value>,
    pub exprs: Vec<Option<Program>>,
}

impl Property {
    /// Slots match the type in number and kind; only numeric slots are bound.
    pub open spec fn wf(&self) -> bool {
        &&& self.vals@.len() == arity(self.typ)
        &&& self.exprs@.len() == self.vals@.len()
        &&& forall|i: int| 0 <= i < self.vals@.len() ==> fits(#[trigger] self.vals@[i], self.typ)
        &&& forall|i: int| 0 <= i < self.exprs@.len() && (#[trigger] self.exprs@[i]) is Some ==> is_numeric(self.typ)
    }

    /// Whether `v` is the value a fresh slot of type `t` holds.
    pub open spec fn is_default(v: Value, t: PropertyType) -> bool {
        match t {
            PropertyType::Bool => v == Value::Bool(false),
            PropertyType::Uint32 => v == Value::Uint32(0),
            PropertyType::Str => v matches Value::Str(s) && s@.len() == 0,
            _ => v == Value::Num(0),
        }
    }

    /// A property of type `typ` with every slot at its default and unbound,
    /// last written by the internal role.
    pub fn new(name: &str, typ: PropertyType) -> (r: Property)
        ensures
            r.wf(),
            r.name@ == name@,
            r.typ == typ,
            r.role == Role::Internal,
            forall|i: int| 0 <= i < r.vals@.len() ==> Self::is_default(#[trigger] r.vals@[i], typ),
            forall|i: int| 0 <= i < r.exprs@.len() ==> (#[trigger] r.exprs@[i]) is None,
    {
        let n: usize = match typ {
            PropertyType::Rect | PropertyType::Color => 4,
            _ => 1,
        };
        let mut vals: Vec<Value> = Vec::new();
        let mut exprs: Vec<Option<Program>> = Vec::new();
        let mut k: usize = 0;
        while k < n
            invariant
                k <= n,
                n == arity(typ),
                vals@.len() == k,
                exprs@.len() == k,
                forall|i: int| 0 <= i < k ==> Self::is_default(#[trigger] vals@[i], typ),
                forall|i: int| 0 <= i < k ==> (#[trigger] exprs@[i]) is None,
            decreases n - k,
        {
            let v = match typ {
                PropertyType::Bool => Value::Bool(false),
                PropertyType::Uint32 => Value::Uint32(0),
                PropertyType::Str => Value::Str(String::new()),
                _ => Value::Num(0),
            };
            vals.push(v);
            exprs.push(None);
            k += 1;
        }
        Property { name: name.to_string(), typ, role: Role::Internal, vals, exprs }
    }

    /// The number of slots.
    pub fn len(&self) -> (r: usize)
        ensures
            r == self.vals@.len(),
    {
        self.vals.len()
    }

    /// The fixed-point value of numeric slot `i`.
    pub fn get_num(&self, i: usize) -> (r: i64)
        requires
            self.wf(),
            is_numeric(self.typ),
            i < self.vals@.len(),
        ensures
            self.vals@[i as int] == Value::Num(r),
    {
        match &self.vals[i] {
            Value::Num(v) => *v,
            _ => 0,
        }
    }

    /// The value of boolean slot `i`.
    pub fn get_bool(&self, i: usize) -> (r: bool)
        requires
            self.wf(),
            self.typ == PropertyType::Bool,
            i < self.vals@.len(),
        ensures
            self.vals@[i as int] == Value::Bool(r),
    {
        match &self.vals[i] {
            Value::Bool(v) => *v,
            _ => false,
        }
    }

    /// The value of integer slot `i`.
    pub fn get_u32(&self, i: usize) -> (r: u32)
        requires
            self.wf(),
            self.typ == PropertyType::Uint32,
            i < self.vals@.len(),
        ensures
            self.vals@[i as int] == Value::Uint32(r),
    {
        match &self.vals[i] {
            Value::Uint32(v) => *v,
            _ => 0,
        }
    }

    /// The value of string slot `i`.
    pub fn get_str(&self, i: usize) -> (r: &String)
        requires
            self.wf(),
            self.typ == PropertyType::Str,
            i < self.vals@.len(),
        ensures
            self.vals@[i as int] == Value::Str(*r),
    {
        match &self.vals[i] {
            Value::Str(v) => v,
            _ => &self.name,
        }
    }

    /// Whether `v` may stand in a slot of this property.
    pub fn accepts(&self, v: &Value) -> (r: bool)
        ensures
            r == fits(*v, self.typ),
    {
        let numeric = match self.typ {
            PropertyType::Num | PropertyType::Rect | PropertyType::Color => true,
            _ => false,
        };
        match v {
            Value::Bool(_) => self.typ == PropertyType::Bool,
            Value::Uint32(_) => self.typ == PropertyType::Uint32,
            Value::Num(_) => numeric,
            Value::Str(_) => self.typ == PropertyType::Str,
        }
    }

    /// Writes a literal into slot `i`, dropping any binding there, on behalf
    /// of `role`. Fails, changing nothing, where the value does not fit the
    /// type or the last writer outranks `role`.
    pub fn set(&mut self, role: Role, i: usize, v: Value) -> (r: Result<(), PropertyError>)
        requires
            old(self).wf(),
            i < old(self).vals@.len(),
        ensures
            final(self).wf(),
            r == write_check(old(self).role, role, fits(v, old(self).typ)),
            r is Ok ==> {
                &&& final(self).vals@ == old(self).vals@.update(i as int, v)
                &&& final(self).exprs@ == old(self).exprs@.update(i as int, None)
                &&& final(self).role == role
                &&& final(self).name == old(self).name
                &&& final(self).typ == old(self).typ
            },
            r is Err ==> *final(self) == *old(self),
    {
        if !self.accepts(&v) {
            return Err(PropertyError::WrongType);
        }
        if !may_overwrite(role, self.role) {
            return Err(PropertyError::RoleConflict);
        }
        self.vals.set(i, v);
        self.exprs.set(i, None);
        self.role = role;
        Ok(())
    }

    /// Writes a fixed-point literal into slot `i`; see [`Property::set`].
    pub fn set_num(&mut self, role: Role, i: usize, v: i64) -> (r: Result<(), PropertyError>)
        requires
            old(self).wf(),
            i < old(self).vals@.len(),
        ensures
            final(self).wf(),
            r == write_check(old(self).role, role, is_numeric(old(self).typ)),
            r is Ok ==> {
                &&& final(self).vals@ == old(self).vals@.update(i as int, Value::Num(v))
                &&& final(self).exprs@ == old(self).exprs@.update(i as int, None)
                &&& final(self).role == role
                &&& final(self).name == old(self).name
                &&& final(self).typ == old(self).typ
            },
            r is Err ==> *final(self) == *old(self),
    {
        self.set(role, i, Value::Num(v))
    }

    /// Binds slot `i` to a program on behalf of `role`. The slot keeps its
    /// value until the next [`Property::eval`]. Fails, changing nothing, where
    /// the property is not numeric or the last writer outranks `role`.
    pub fn set_expr(&mut self, role: Role, i: usize, p: Program) -> (r: Result<(), PropertyError>)
        requires
            old(self).wf(),
            i < old(self).vals@.len(),
        ensures
            final(self).wf(),
            r == write_check(old(self).role, role, is_numeric(old(self).typ)),
            r is Ok ==> {
                &&& final(self).vals@ == old(self).vals@
                &&& final(self).exprs@ == old(self).exprs@.update(i as int, Some(p))
                &&& final(self).role == role
                &&& final(self).name == old(self).name
                &&& final(self).typ == old(self).typ
            },
            r is Err ==> *final(self) == *old(self),
    {
        let numeric = match self.typ {
            PropertyType::Num | PropertyType::Rect | PropertyType::Color => true,
            _ => false,
        };
        if !numeric {
            return Err(PropertyError::WrongType);
        }
        if !may_overwrite(role, self.role) {
            return Err(PropertyError::RoleConflict);
        }
        self.exprs.set(i, Some(p));
        self.role = role;
        Ok(())
    }

    /// The error of the first bound slot that fails to evaluate against the
    /// parent's width and height, if any.
    pub fn check_eval(&self, parent: &Rectangle) -> (r: Option<EvalError>)
        requires
            self.wf(),
        ensures
            r == first_error(self.exprs@, rect_env(*parent), 0),
    {
        let env = rect_vars(parent);
        let ghost menv = rect_env(*parent);
        let ghost exprs = self.exprs@;
        let mut i: usize = 0;
        while i < self.exprs.len()
            invariant
                exprs == self.exprs@,
                i <= exprs.len(),
                menv == rect_env(*parent),
                crate::expr::env_model(env@) == menv,
                first_error(exprs, menv, 0) == first_error(exprs, menv, i as int),
            decreases exprs.len() - i,
        {
            match &self.exprs[i] {
                Some(p) => match evaluate(p, &env) {
                    Ok(_) => {},
                    Err(e) => {
                        assert(first_error(exprs, menv, i as int) == Some(e));
                        return Some(e);
                    },
                },
                None => {},
            }
            i += 1;
        }
        None
    }

    /// Evaluates every bound slot against the parent's width and height and
    /// stores the results as the slots' values. Where a binding fails, the
    /// first failure is returned and nothing changes.
    pub fn eval(&mut self, parent: &Rectangle) -> (r: Result<(), EvalError>)
        requires
            old(self).wf(),
        ensures
            final(self).wf(),
            match first_error(old(self).exprs@, rect_env(*parent), 0) {
                Some(e) => r == Err::<(), EvalError>(e) && *final(self) == *old(self),
                None => {
                    &&& r is Ok
                    &&& final(self).vals@ == evaluated(old(self).vals@, old(self).exprs@, rect_env(*parent))
                    &&& final(self).exprs@ == old(self).exprs@
                    &&& final(self).role == old(self).role
                    &&& final(self).name == old(self).name
                    &&& final(self).typ == old(self).typ
                },
            },
    {
        let env = rect_vars(parent);
        let ghost menv = rect_env(*parent);
        let ghost exprs = self.exprs@;
        let ghost vals = self.vals@;
        // Evaluate everything first, so that a failure leaves the slots alone.
        let mut results: Vec<Option<i64>> = Vec::new();
        let mut i: usize = 0;
        while i < self.exprs.len()
            invariant
                *self == *old(self),
                self.wf(),
                menv == rect_env(*parent),
                exprs == self.exprs@,
                i <= exprs.len(),
                results@.len() == i,
                crate::expr::env_model(env@) == menv,
                first_error(exprs, menv, 0) == first_error(exprs, menv, i as int),
                forall|k: int| 0 <= k < i ==> match slot_eval(exprs[k], menv) {
                    Some(Ok(v)) => #[trigger] results@[k] == Some(v),
                    Some(Err(_)) => false,
                    None => results@[k] is None,
                },
            decreases exprs.len() - i,
        {
            match &self.exprs[i] {
                Some(p) => match evaluate(p, &env) {
                    Ok(v) => results.push(Some(v)),
                    Err(e) => {
                        assert(first_error(exprs, menv, i as int) == Some(e));
                        return Err(e);
                    },
                },
                None => results.push(None),
            }
            i += 1;
        }
        let mut k: usize = 0;
        while k < results.len()
            invariant
                exprs == self.exprs@,
                self.wf(),
                self.typ == old(self).typ,
                self.role == old(self).role,
                self.name == old(self).name,
                results@.len() == vals.len(),
                results@.len() == exprs.len(),
                k <= results@.len(),
                self.vals@.len() == vals.len(),
                forall|j: int| 0 <= j < exprs.len() ==> match slot_eval(exprs[j], menv) {
                    Some(Ok(v)) => #[trigger] results@[j] == Some(v),
                    Some(Err(_)) => false,
                    None => results@[j] is None,
                },
                forall|j: int| 0 <= j < k ==> #[trigger] self.vals@[j] == evaluated(vals, exprs, menv)[j],
                forall|j: int| k <= j < vals.len() ==> #[trigger] self.vals@[j] == vals[j],
            decreases results@.len() - k,
        {
            if let Some(v) = results[k] {
                assert(exprs[k as int] is Some);
                self.vals.set(k, Value::Num(v));
            }
            k += 1;
        }
        assert(self.vals@ =~= evaluated(vals, exprs, menv));
        Ok(())
    }
}

} // verus!
