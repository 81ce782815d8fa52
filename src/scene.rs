//! The scene graph: an arena of nodes addressed by stable ids, each with
//! properties and named signals. Parents own their children by id; a child
//! names its parent by id, and a missing id means the node is gone.
use vstd::prelude::*;
use crate::prop::{Property, PropertyError, Role, Value, write_check, fits, is_numeric, first_error, evaluated, rect_env};
use crate::expr::{Program, EvalError};
use crate::gfx::Rectangle;
use crate::text::{first_index, lemma_first_index_found, lemma_first_index_none, lemma_first_index_same, chars_of, lemma_filter_step, lemma_filter_empty};

verus! {

/// A registered listener and the payloads delivered to it, oldest first.
#[derive(Debug)]
pub struct Listener {
    pub id: u64,
    pub queue: Vec<Vec<u8>>,
}

/// A named event channel and its listeners in registration order.
#[derive(Debug)]
pub struct Signal {
    pub name: String,
    pub listeners: Vec<Listener>,
}

#[derive(Debug)]
pub struct SceneNode {
    pub id: u64,
    pub name: String,
    pub parent: Option<u64>,
    pub children: Vec<u64>,
    pub props: Vec<Property>,
    pub signals: Vec<Signal>,
}

/// A published write: property `prop` of node `node` changed.
#[derive(Debug)]
pub struct ChangeEvent {
    pub node: u64,
    pub prop: String,
}

#[derive(Debug, Clone, Copy, PartialEq, Eq, Structural)]
pub enum SceneError {
    /// No such node, property, signal, listener or path.
    NotFound,
    /// The slot index is beyond the property's arity.
    BadSlot,
    /// The child already has a parent.
    AlreadyLinked,
    /// Linking would make a node its own ancestor.
    Cycle,
    /// The property refused the write.
    Property(PropertyError),
    /// A bound slot failed to evaluate.
    Eval(EvalError),
}

pub open spec fn node_pos(nodes: Seq<SceneNode>, id: u64) -> Option<int> {
    first_index(nodes, |n: SceneNode| n.id == id)
}

pub open spec fn prop_pos(props: Seq<Property>, name: Seq<char>) -> Option<int> {
    first_index(props, |p: Property| p.name@ == name)
}

pub open spec fn signal_pos(sigs: Seq<Signal>, name: Seq<char>) -> Option<int> {
    first_index(sigs, |s: Signal| s.name@ == name)
}

/// The position of the first listener with id `id`.
pub open spec fn listener_pos(ls: Seq<Listener>, id: u64) -> Option<int> {
    first_index(ls, |l: Listener| l.id == id)
}

pub open spec fn child_pos(nodes: Seq<SceneNode>, children: Seq<u64>, name: Seq<char>) -> Option<int> {
    first_index(children, |c: u64| node_pos(nodes, c) matches Some(k) && nodes[k].name@ == name)
}

/// Whether walking up at most `fuel` parent links from `from` meets `target`.
pub open spec fn reaches_up(nodes: Seq<SceneNode>, from: u64, target: u64, fuel: nat) -> bool
    decreases fuel,
{
    if from == target {
        true
    } else if fuel == 0 {
        false
    } else {
        match node_pos(nodes, from) {
            Some(i) => match nodes[i].parent {
                Some(p) => reaches_up(nodes, p, target, (fuel - 1) as nat),
                None => false,
            },
            None => false,
        }
    }
}

/// The components of a `/`-separated path, empty ones dropped, from
/// position `i` on, with `cur` the component read so far.
pub open spec fn split_from(cs: Seq<char>, i: int, cur: Seq<char>) -> Seq<Seq<char>>
    decreases cs.len() - i,
{
    if i >= cs.len() {
        if cur.len() > 0 { seq![cur] } else { seq![] }
    } else if cs[i] == '/' {
        if cur.len() > 0 {
            seq![cur] + split_from(cs, i + 1, seq![])
        } else {
            split_from(cs, i + 1, seq![])
        }
    } else {
        split_from(cs, i + 1, cur.push(cs[i]))
    }
}

pub open spec fn path_components(path: Seq<char>) -> Seq<Seq<char>> {
    split_from(path, 0, seq![])
}

/// The node reached from `start` by following, for each component in turn,
/// the first child with that name.
pub open spec fn resolve(nodes: Seq<SceneNode>, start: u64, comps: Seq<Seq<char>>) -> Option<u64>
    decreases comps.len(),
{
    if comps.len() == 0 {
        Some(start)
    } else {
        match node_pos(nodes, start) {
            None => None,
            Some(i) => match child_pos(nodes, nodes[i].children@, comps[0]) {
                None => None,
                Some(c) => resolve(nodes, nodes[i].children@[c], comps.skip(1)),
            },
        }
    }
}

/// The scene graph, with the change events published since they were last taken.
pub struct SceneGraph {
    pub nodes: Vec<SceneNode>,
    pub next_id: u64,
    pub next_listener: u64,
    pub changes: Vec<ChangeEvent>,
}

impl SceneGraph {
    pub open spec fn wf(&self) -> bool {
        &&& forall|i: int| 0 <= i < self.nodes@.len() ==> (#[trigger] self.nodes@[i]).id < self.next_id
        &&& forall|i: int, j: int| 0 <= i < self.nodes@.len() && 0 <= j < self.nodes@[i].props@.len()
            ==> (#[trigger] self.nodes@[i].props@[j]).wf()
    }

    /// Nodes other than the one at `i` are as they were.
    pub open spec fn others_unchanged(&self, old: &SceneGraph, i: int) -> bool {
        &&& self.nodes@.len() == old.nodes@.len()
        &&& forall|k: int| 0 <= k < self.nodes@.len() && k != i ==> self.nodes@[k] == old.nodes@[k]
        &&& self.next_id == old.next_id
        &&& self.next_listener == old.next_listener
    }

    pub fn new() -> (r: SceneGraph)
        ensures
            r.wf(),
            r.nodes@.len() == 0,
            r.changes@.len() == 0,
    {
        SceneGraph { nodes: Vec::new(), next_id: 0, next_listener: 0, changes: Vec::new() }
    }

    /// Creates a standalone node and returns its id, which no node had before.
    pub fn create(&mut self, name: &str) -> (r: u64)
        requires
            old(self).wf(),
            old(self).next_id < u64::MAX,
        ensures
            final(self).wf(),
            forall|i: int| 0 <= i < old(self).nodes@.len() ==> old(self).nodes@[i].id != r,
            final(self).nodes@.len() == old(self).nodes@.len() + 1,
            forall|i: int| 0 <= i < old(self).nodes@.len() ==> final(self).nodes@[i] == old(self).nodes@[i],
            ({
                let n = final(self).nodes@.last();
                &&& n.id == r
                &&& n.name@ == name@
                &&& n.parent is None
                &&& n.children@.len() == 0
                &&& n.props@.len() == 0
                &&& n.signals@.len() == 0
            }),
            final(self).changes == old(self).changes,
    {
        let id = self.next_id;
        self.nodes.push(SceneNode {
            id,
            name: name.to_string(),
            parent: None,
            children: Vec::new(),
            props: Vec::new(),
            signals: Vec::new(),
        });
        self.next_id = id + 1;
        id
    }

    /// The position of the node with id `id`.
    pub fn find_node(&self, id: u64) -> (r: Option<usize>)
        ensures
            match r {
                Some(i) => node_pos(self.nodes@, id) == Some(i as int) && i < self.nodes@.len(),
                None => node_pos(self.nodes@, id) is None,
            },
    {
        let mut i: usize = 0;
        while i < self.nodes.len()
            invariant
                i <= self.nodes@.len(),
                forall|j: int| 0 <= j < i ==> self.nodes@[j].id != id,
            decreases self.nodes@.len() - i,
        {
            if self.nodes[i].id == id {
                proof {
                    lemma_first_index_found(self.nodes@, |n: SceneNode| n.id == id, i as int);
                }
                return Some(i);
            }
            i += 1;
        }
        proof {
            lemma_first_index_none(self.nodes@, |n: SceneNode| n.id == id);
        }
        None
    }

    fn find_prop(props: &Vec<Property>, name: &String) -> (r: Option<usize>)
        ensures
            match r {
                Some(i) => prop_pos(props@, name@) == Some(i as int) && i < props@.len(),
                None => prop_pos(props@, name@) is None,
            },
    {
        let mut i: usize = 0;
        while i < props.len()
            invariant
                i <= props@.len(),
                forall|j: int| 0 <= j < i ==> props@[j].name@ != name@,
            decreases props@.len() - i,
        {
            if props[i].name == *name {
                proof {
                    lemma_first_index_found(props@, |q: Property| q.name@ == name@, i as int);
                }
                return Some(i);
            }
            i += 1;
        }
        proof {
            lemma_first_index_none(props@, |q: Property| q.name@ == name@);
        }
        None
    }

    /// The node and property positions that a write to slot `slot` of
    /// property `name` of node `node` reaches, or why there are none.
    pub open spec fn prop_target(&self, node: u64, name: Seq<char>, slot: int) -> Result<(int, int), SceneError> {
        match node_pos(self.nodes@, node) {
            None => Err(SceneError::NotFound),
            Some(i) => match prop_pos(self.nodes@[i].props@, name) {
                None => Err(SceneError::NotFound),
                Some(j) => if 0 <= slot < self.nodes@[i].props@[j].vals@.len() {
                    Ok((i, j))
                } else {
                    Err(SceneError::BadSlot)
                },
            },
        }
    }

    /// Only property `j` of node `i` differs from `old`, and not in name or type.
    pub open spec fn only_prop_changed(&self, old: &SceneGraph, i: int, j: int) -> bool {
        &&& self.others_unchanged(old, i)
        &&& 0 <= i < self.nodes@.len()
        &&& self.nodes@[i].id == old.nodes@[i].id
        &&& self.nodes@[i].name == old.nodes@[i].name
        &&& self.nodes@[i].parent == old.nodes@[i].parent
        &&& self.nodes@[i].children == old.nodes@[i].children
        &&& self.nodes@[i].signals == old.nodes@[i].signals
        &&& self.nodes@[i].props@.len() == old.nodes@[i].props@.len()
        &&& forall|k: int| 0 <= k < self.nodes@[i].props@.len() && k != j
            ==> self.nodes@[i].props@[k] == old.nodes@[i].props@[k]
        &&& self.nodes@[i].props@[j].name == old.nodes@[i].props@[j].name
        &&& self.nodes@[i].props@[j].typ == old.nodes@[i].props@[j].typ
    }

    /// `changes` is `old`'s with one event for property `name` of `node` appended.
    pub open spec fn published(&self, old: &SceneGraph, node: u64, name: Seq<char>) -> bool {
        &&& self.changes@.len() == old.changes@.len() + 1
        &&& self.changes@.subrange(0, old.changes@.len() as int) == old.changes@
        &&& self.changes@.last().node == node
        &&& self.changes@.last().prop@ == name
    }

    /// The outcome of writing `v` into slot `slot` of property `name` of node
    /// `node` on behalf of `role`, as `self` after a write to `old` with result `r`.
    pub open spec fn set_outcome(&self, old: SceneGraph, node: u64, name: Seq<char>, role: Role, slot: int, v: Value, r: Result<(), SceneError>) -> bool {
        match old.prop_target(node, name, slot) {
            Err(e) => r == Err::<(), SceneError>(e) && *self == old,
            Ok((i, j)) => {
                let p = old.nodes@[i].props@[j];
                match write_check(p.role, role, fits(v, p.typ)) {
                    Err(e) => r == Err::<(), SceneError>(SceneError::Property(e)) && *self == old,
                    Ok(_) => {
                        let q = self.nodes@[i].props@[j];
                        &&& r is Ok
                        &&& self.only_prop_changed(&old, i, j)
                        &&& q.vals@ == p.vals@.update(slot, v)
                        &&& q.exprs@ == p.exprs@.update(slot, None)
                        &&& q.role == role
                        &&& self.published(&old, node, name)
                    },
                }
            },
        }
    }

    /// The outcome of delivering `payload` on signal `name` of node `node`, as
    /// `self` after a trigger on `old` with result `r`: every listener's queue
    /// gains one copy at its end.
    pub open spec fn triggered(&self, old: SceneGraph, node: u64, name: Seq<char>, payload: Seq<u8>, r: Result<(), SceneError>) -> bool {
        match old.signal_target(node, name) {
            None => r == Err::<(), SceneError>(SceneError::NotFound) && *self == old,
            Some((i, s)) => {
                let l0 = old.nodes@[i].signals@[s].listeners@;
                let l = self.nodes@[i].signals@[s].listeners@;
                &&& r is Ok
                &&& self.only_signal_changed(&old, i, s)
                &&& self.next_listener == old.next_listener
                &&& l.len() == l0.len()
                &&& forall|k: int| 0 <= k < l.len() ==> (#[trigger] l[k]).id == l0[k].id
                &&& forall|k: int| 0 <= k < l.len() ==> (#[trigger] l[k]).queue@.map_values(|b: Vec<u8>| b@)
                    == l0[k].queue@.map_values(|b: Vec<u8>| b@).push(payload)
            },
        }
    }

    /// The outcome of evaluating property `name` of node `node` against
    /// `parent`, as `self` after an evaluation on `old` with result `r`.
    pub open spec fn eval_outcome(&self, old: SceneGraph, node: u64, name: Seq<char>, parent: Rectangle, r: Result<(), SceneError>) -> bool {
        match old.prop_target(node, name, 0) {
            Err(e) => r == Err::<(), SceneError>(e) && *self == old,
            Ok((i, j)) => {
                let p = old.nodes@[i].props@[j];
                match first_error(p.exprs@, rect_env(parent), 0) {
                    Some(e) => r == Err::<(), SceneError>(SceneError::Eval(e)) && *self == old,
                    None => {
                        let q = self.nodes@[i].props@[j];
                        &&& r is Ok
                        &&& self.only_prop_changed(&old, i, j)
                        &&& q.vals@ == evaluated(p.vals@, p.exprs@, rect_env(parent))
                        &&& q.exprs@ == p.exprs@
                        &&& q.role == p.role
                        &&& self.changes == old.changes
                    },
                }
            },
        }
    }

    /// Whether evaluating property `name` of node `node` against `parent`
    /// fails: the property is missing, or a bound slot fails.
    pub open spec fn eval_fails(&self, node: u64, name: Seq<char>, parent: Rectangle) -> bool {
        match self.prop_target(node, name, 0) {
            Err(_) => true,
            Ok((i, j)) => first_error(self.nodes@[i].props@[j].exprs@, rect_env(parent), 0) is Some,
        }
    }

    fn locate(&self, node: u64, name: &String, slot: usize) -> (r: Result<(usize, usize), SceneError>)
        requires
            self.wf(),
        ensures
            match r {
                Ok((i, j)) => self.prop_target(node, name@, slot as int) == Ok::<(int, int), SceneError>((i as int, j as int))
                    && i < self.nodes@.len() && j < self.nodes@[i as int].props@.len(),
                Err(e) => self.prop_target(node, name@, slot as int) == Err::<(int, int), SceneError>(e),
            },
    {
        let i = match self.find_node(node) {
            Some(i) => i,
            None => return Err(SceneError::NotFound),
        };
        let j = match Self::find_prop(&self.nodes[i].props, name) {
            Some(j) => j,
            None => return Err(SceneError::NotFound),
        };
        if slot >= self.nodes[i].props[j].vals.len() {
            return Err(SceneError::BadSlot);
        }
        Ok((i, j))
    }

    fn publish(&mut self, node: u64, name: &String)
        ensures
            final(self).nodes == old(self).nodes,
            final(self).next_id == old(self).next_id,
            final(self).next_listener == old(self).next_listener,
            final(self).published(old(self), node, name@),
    {
        let ghost before = self.changes@;
        self.changes.push(ChangeEvent { node, prop: name.clone() });
        assert(self.changes@.subrange(0, before.len() as int) =~= before);
    }

    /// Adds a property to a node.
    pub fn add_property(&mut self, node: u64, prop: Property) -> (r: Result<(), SceneError>)
        requires
            old(self).wf(),
            prop.wf(),
        ensures
            final(self).wf(),
            match node_pos(old(self).nodes@, node) {
                None => r == Err::<(), SceneError>(SceneError::NotFound) && *final(self) == *old(self),
                Some(i) => {
                    &&& r is Ok
                    &&& final(self).others_unchanged(old(self), i)
                    &&& final(self).nodes@[i].props@ == old(self).nodes@[i].props@.push(prop)
                    &&& final(self).nodes@[i].id == old(self).nodes@[i].id
                    &&& final(self).nodes@[i].name == old(self).nodes@[i].name
                    &&& final(self).nodes@[i].parent == old(self).nodes@[i].parent
                    &&& final(self).nodes@[i].children == old(self).nodes@[i].children
                    &&& final(self).nodes@[i].signals == old(self).nodes@[i].signals
                    &&& final(self).changes == old(self).changes
                },
            },
    {
        let i = match self.find_node(node) {
            Some(i) => i,
            None => return Err(SceneError::NotFound),
        };
        self.nodes[i].props.push(prop);
        Ok(())
    }

    /// Writes a literal into slot `slot` of property `name` of node `node` on
    /// behalf of `role`, and publishes the change. Fails, changing nothing,
    /// where the target is missing or the property refuses the write.
    pub fn set_property(&mut self, node: u64, name: &String, role: Role, slot: usize, v: Value) -> (r: Result<(), SceneError>)
        requires
            old(self).wf(),
        ensures
            final(self).wf(),
            final(self).set_outcome(*old(self), node, name@, role, slot as int, v, r),
    {
        let (i, j) = match self.locate(node, name, slot) {
            Ok(t) => t,
            Err(e) => return Err(e),
        };
        if !self.nodes[i].props[j].accepts(&v) {
            return Err(SceneError::Property(PropertyError::WrongType));
        }
        if !crate::prop::may_overwrite(role, self.nodes[i].props[j].role) {
            return Err(SceneError::Property(PropertyError::RoleConflict));
        }
        let _ = self.nodes[i].props[j].set(role, slot, v);
        self.publish(node, name);
        Ok(())
    }

    /// Binds slot `slot` of property `name` of node `node` to a program on
    /// behalf of `role`, and publishes the change. Fails, changing nothing,
    /// where the target is missing or the property refuses the write.
    pub fn set_property_expr(&mut self, node: u64, name: &String, role: Role, slot: usize, p: Program) -> (r: Result<(), SceneError>)
        requires
            old(self).wf(),
        ensures
            final(self).wf(),
            match old(self).prop_target(node, name@, slot as int) {
                Err(e) => r == Err::<(), SceneError>(e) && *final(self) == *old(self),
                Ok((i, j)) => {
                    let q0 = old(self).nodes@[i].props@[j];
                    match write_check(q0.role, role, is_numeric(q0.typ)) {
                        Err(e) => r == Err::<(), SceneError>(SceneError::Property(e)) && *final(self) == *old(self),
                        Ok(_) => {
                            let q = final(self).nodes@[i].props@[j];
                            &&& r is Ok
                            &&& final(self).only_prop_changed(old(self), i, j)
                            &&& q.vals@ == q0.vals@
                            &&& q.exprs@ == q0.exprs@.update(slot as int, Some(p))
                            &&& q.role == role
                            &&& final(self).published(old(self), node, name@)
                        },
                    }
                },
            },
    {
        let (i, j) = match self.locate(node, name, slot) {
            Ok(t) => t,
            Err(e) => return Err(e),
        };
        let numeric = match self.nodes[i].props[j].typ {
            crate::prop::PropertyType::Num | crate::prop::PropertyType::Rect | crate::prop::PropertyType::Color => true,
            _ => false,
        };
        if !numeric {
            return Err(SceneError::Property(PropertyError::WrongType));
        }
        if !crate::prop::may_overwrite(role, self.nodes[i].props[j].role) {
            return Err(SceneError::Property(PropertyError::RoleConflict));
        }
        let _ = self.nodes[i].props[j].set_expr(role, slot, p);
        self.publish(node, name);
        Ok(())
    }

    /// Adds a signal with no listeners to a node.
    pub fn add_signal(&mut self, node: u64, name: &str) -> (r: Result<(), SceneError>)
        requires
            old(self).wf(),
        ensures
            final(self).wf(),
            match node_pos(old(self).nodes@, node) {
                None => r == Err::<(), SceneError>(SceneError::NotFound) && *final(self) == *old(self),
                Some(i) => {
                    &&& r is Ok
                    &&& final(self).others_unchanged(old(self), i)
                    &&& final(self).nodes@[i].signals@.len() == old(self).nodes@[i].signals@.len() + 1
                    &&& forall|k: int| 0 <= k < old(self).nodes@[i].signals@.len()
                        ==> final(self).nodes@[i].signals@[k] == old(self).nodes@[i].signals@[k]
                    &&& final(self).nodes@[i].signals@.last().name@ == name@
                    &&& final(self).nodes@[i].signals@.last().listeners@.len() == 0
                    &&& final(self).nodes@[i].props == old(self).nodes@[i].props
                    &&& final(self).nodes@[i].id == old(self).nodes@[i].id
                    &&& final(self).nodes@[i].name == old(self).nodes@[i].name
                    &&& final(self).nodes@[i].parent == old(self).nodes@[i].parent
                    &&& final(self).nodes@[i].children == old(self).nodes@[i].children
                    &&& final(self).changes == old(self).changes
                },
            },
    {
        let i = match self.find_node(node) {
            Some(i) => i,
            None => return Err(SceneError::NotFound),
        };
        self.nodes[i].signals.push(Signal { name: name.to_string(), listeners: Vec::new() });
        Ok(())
    }

    fn find_signal(sigs: &Vec<Signal>, name: &String) -> (r: Option<usize>)
        ensures
            match r {
                Some(i) => signal_pos(sigs@, name@) == Some(i as int) && i < sigs@.len(),
                None => signal_pos(sigs@, name@) is None,
            },
    {
        let mut i: usize = 0;
        while i < sigs.len()
            invariant
                i <= sigs@.len(),
                forall|j: int| 0 <= j < i ==> sigs@[j].name@ != name@,
            decreases sigs@.len() - i,
        {
            if sigs[i].name == *name {
                proof {
                    lemma_first_index_found(sigs@, |s: Signal| s.name@ == name@, i as int);
                }
                return Some(i);
            }
            i += 1;
        }
        proof {
            lemma_first_index_none(sigs@, |s: Signal| s.name@ == name@);
        }
        None
    }

    /// The node and signal positions of signal `name` of node `node`.
    pub open spec fn signal_target(&self, node: u64, name: Seq<char>) -> Option<(int, int)> {
        match node_pos(self.nodes@, node) {
            None => None,
            Some(i) => match signal_pos(self.nodes@[i].signals@, name) {
                None => None,
                Some(s) => Some((i, s)),
            },
        }
    }

    fn locate_signal(&self, node: u64, name: &String) -> (r: Option<(usize, usize)>)
        ensures
            match r {
                Some((i, s)) => self.signal_target(node, name@) == Some((i as int, s as int))
                    && i < self.nodes@.len() && s < self.nodes@[i as int].signals@.len(),
                None => self.signal_target(node, name@) is None,
            },
    {
        let i = match self.find_node(node) {
            Some(i) => i,
            None => return None,
        };
        match Self::find_signal(&self.nodes[i].signals, name) {
            Some(s) => Some((i, s)),
            None => None,
        }
    }

    /// Only signal `s` of node `i` differs from `old`, and not in name or in
    /// its number of listeners.
    pub open spec fn only_signal_changed(&self, old: &SceneGraph, i: int, s: int) -> bool {
        &&& 0 <= i < self.nodes@.len()
        &&& self.nodes@.len() == old.nodes@.len()
        &&& forall|k: int| 0 <= k < self.nodes@.len() && k != i ==> self.nodes@[k] == old.nodes@[k]
        &&& self.next_id == old.next_id
        &&& self.nodes@[i].id == old.nodes@[i].id
        &&& self.nodes@[i].name == old.nodes@[i].name
        &&& self.nodes@[i].parent == old.nodes@[i].parent
        &&& self.nodes@[i].children == old.nodes@[i].children
        &&& self.nodes@[i].props == old.nodes@[i].props
        &&& self.nodes@[i].signals@.len() == old.nodes@[i].signals@.len()
        &&& forall|k: int| 0 <= k < self.nodes@[i].signals@.len() && k != s
            ==> self.nodes@[i].signals@[k] == old.nodes@[i].signals@[k]
        &&& self.nodes@[i].signals@[s].name == old.nodes@[i].signals@[s].name
        &&& self.changes == old.changes
    }

    /// Registers a new listener, last in order, on signal `name` of node
    /// `node`, and returns its id.
    pub fn register(&mut self, node: u64, name: &String) -> (r: Result<u64, SceneError>)
        requires
            old(self).wf(),
            old(self).next_listener < u64::MAX,
        ensures
            final(self).wf(),
            match old(self).signal_target(node, name@) {
                None => r == Err::<u64, SceneError>(SceneError::NotFound) && *final(self) == *old(self),
                Some((i, s)) => {
                    let l0 = old(self).nodes@[i].signals@[s].listeners@;
                    let l = final(self).nodes@[i].signals@[s].listeners@;
                    &&& r == Ok::<u64, SceneError>(old(self).next_listener)
                    &&& final(self).next_listener == old(self).next_listener + 1
                    &&& l.len() == l0.len() + 1
                    &&& forall|k: int| 0 <= k < l0.len() ==> l[k] == l0[k]
                    &&& l.last().id == old(self).next_listener
                    &&& l.last().queue@.len() == 0
                },
            },
    {
        let (i, s) = match self.locate_signal(node, name) {
            Some(t) => t,
            None => return Err(SceneError::NotFound),
        };
        let id = self.next_listener;
        self.nodes[i].signals[s].listeners.push(Listener { id, queue: Vec::new() });
        self.next_listener = id + 1;
        Ok(id)
    }

    /// Delivers `payload` to every listener of signal `name` of node `node`:
    /// each listener's queue gains one copy at its end.
    pub fn trigger(&mut self, node: u64, name: &String, payload: &Vec<u8>) -> (r: Result<(), SceneError>)
        requires
            old(self).wf(),
        ensures
            final(self).wf(),
            final(self).triggered(*old(self), node, name@, payload@, r),
    {
        let (i, s) = match self.locate_signal(node, name) {
            Some(t) => t,
            None => return Err(SceneError::NotFound),
        };
        let ghost l0 = self.nodes@[i as int].signals@[s as int].listeners@;
        let n = self.nodes[i].signals[s].listeners.len();
        let mut k: usize = 0;
        while k < n
            invariant
                self.wf(),
                i < self.nodes@.len(),
                s < self.nodes@[i as int].signals@.len(),
                self.only_signal_changed(old(self), i as int, s as int),
                self.next_listener == old(self).next_listener,
                n == l0.len(),
                k <= n,
                self.nodes@[i as int].signals@[s as int].listeners@.len() == n,
                forall|m: int| 0 <= m < n ==> (#[trigger] self.nodes@[i as int].signals@[s as int].listeners@[m]).id == l0[m].id,
                forall|m: int| 0 <= m < k ==> (#[trigger] self.nodes@[i as int].signals@[s as int].listeners@[m]).queue@.map_values(|b: Vec<u8>| b@)
                    == l0[m].queue@.map_values(|b: Vec<u8>| b@).push(payload@),
                forall|m: int| k <= m < n ==> #[trigger] self.nodes@[i as int].signals@[s as int].listeners@[m] == l0[m],
            decreases n - k,
        {
            let ghost q0 = self.nodes@[i as int].signals@[s as int].listeners@[k as int].queue@;
            self.nodes[i].signals[s].listeners[k].queue.push(payload.clone());
            assert(self.nodes@[i as int].signals@[s as int].listeners@[k as int].queue@.map_values(|b: Vec<u8>| b@)
                =~= q0.map_values(|b: Vec<u8>| b@).push(payload@));
            k += 1;
        }
        Ok(())
    }

    /// Takes the oldest payload waiting for listener `listener` of signal
    /// `name` of node `node`.
    pub fn recv(&mut self, node: u64, name: &String, listener: u64) -> (r: Option<Vec<u8>>)
        requires
            old(self).wf(),
        ensures
            final(self).wf(),
            final(self).next_listener == old(self).next_listener,
            final(self).nodes@.len() == old(self).nodes@.len(),
            match old(self).signal_target(node, name@) {
                None => r is None && *final(self) == *old(self),
                Some((i, s)) => {
                    let ls = old(self).nodes@[i].signals@[s].listeners@;
                    match listener_pos(ls, listener) {
                        None => r is None && *final(self) == *old(self),
                        Some(k) => if ls[k].queue@.len() == 0 {
                            r is None && *final(self) == *old(self)
                        } else {
                            let l = final(self).nodes@[i].signals@[s].listeners@;
                            &&& r matches Some(v) && v@ == ls[k].queue@[0]@
                            &&& final(self).only_signal_changed(old(self), i, s)
                            &&& l.len() == ls.len()
                            &&& forall|m: int| 0 <= m < ls.len() && m != k ==> l[m] == ls[m]
                            &&& l[k].id == listener
                            &&& l[k].queue@ == ls[k].queue@.skip(1)
                        },
                    }
                },
            },
    {
        let (i, s) = match self.locate_signal(node, name) {
            Some(t) => t,
            None => return None,
        };
        let ghost ls = self.nodes@[i as int].signals@[s as int].listeners@;
        let mut k: usize = 0;
        while k < self.nodes[i].signals[s].listeners.len() && self.nodes[i].signals[s].listeners[k].id != listener
            invariant
                i < self.nodes@.len(),
                s < self.nodes@[i as int].signals@.len(),
                ls == self.nodes@[i as int].signals@[s as int].listeners@,
                k <= ls.len(),
                forall|m: int| 0 <= m < k ==> ls[m].id != listener,
            decreases ls.len() - k,
        {
            k += 1;
        }
        if k == self.nodes[i].signals[s].listeners.len() {
            proof {
                lemma_first_index_none(ls, |l: Listener| l.id == listener);
            }
            return None;
        }
        proof {
            lemma_first_index_found(ls, |l: Listener| l.id == listener, k as int);
        }
        if self.nodes[i].signals[s].listeners[k].queue.len() == 0 {
            return None;
        }
        let ghost q0 = ls[k as int].queue@;
        let v = self.nodes[i].signals[s].listeners[k].queue.remove(0);
        assert(self.nodes@[i as int].signals@[s as int].listeners@[k as int].queue@ =~= q0.skip(1));
        Some(v)
    }

    /// Takes the change events published since the last call, oldest first.
    pub fn take_changes(&mut self) -> (r: Vec<ChangeEvent>)
        ensures
            r@ == old(self).changes@,
            final(self).changes@.len() == 0,
            final(self).nodes == old(self).nodes,
            final(self).next_id == old(self).next_id,
            final(self).next_listener == old(self).next_listener,
    {
        let mut taken: Vec<ChangeEvent> = Vec::new();
        std::mem::swap(&mut taken, &mut self.changes);
        taken
    }

    /// Makes `child` a child of `parent`, last among its children. Fails,
    /// changing nothing, where a node is missing, the child already has a
    /// parent, or the child is the parent or one of its ancestors.
    pub fn link(&mut self, parent: u64, child: u64) -> (r: Result<(), SceneError>)
        requires
            old(self).wf(),
        ensures
            final(self).wf(),
            match (node_pos(old(self).nodes@, parent), node_pos(old(self).nodes@, child)) {
                (Some(pi), Some(ci)) => if old(self).nodes@[ci].parent is Some {
                    r == Err::<(), SceneError>(SceneError::AlreadyLinked) && *final(self) == *old(self)
                } else if reaches_up(old(self).nodes@, parent, child, old(self).nodes@.len()) {
                    r == Err::<(), SceneError>(SceneError::Cycle) && *final(self) == *old(self)
                } else {
                    &&& r is Ok
                    &&& final(self).nodes@.len() == old(self).nodes@.len()
                    &&& forall|k: int| 0 <= k < old(self).nodes@.len() && k != pi && k != ci
                        ==> final(self).nodes@[k] == old(self).nodes@[k]
                    &&& final(self).nodes@[pi].children@ == old(self).nodes@[pi].children@.push(child)
                    &&& final(self).nodes@[pi].parent == old(self).nodes@[pi].parent
                    &&& final(self).nodes@[ci].parent == Some(parent)
                    &&& final(self).nodes@[ci].children == old(self).nodes@[ci].children
                    &&& final(self).nodes@[pi].id == parent && final(self).nodes@[ci].id == child
                    &&& final(self).changes == old(self).changes
                },
                _ => r == Err::<(), SceneError>(SceneError::NotFound) && *final(self) == *old(self),
            },
    {
        let pi = match self.find_node(parent) {
            Some(i) => i,
            None => return Err(SceneError::NotFound),
        };
        let ci = match self.find_node(child) {
            Some(i) => i,
            None => return Err(SceneError::NotFound),
        };
        if self.nodes[ci].parent.is_some() {
            return Err(SceneError::AlreadyLinked);
        }
        let cycle = self.descends_from(parent, child);
        if cycle {
            return Err(SceneError::Cycle);
        }
        proof {
            if pi == ci {
                assert(parent == child);
            }
        }
        self.nodes[pi].children.push(child);
        self.nodes[ci].parent = Some(parent);
        Ok(())
    }

    /// Whether `node` is `ancestor` or lies below it: walking up from
    /// `node`, at most one step per node, meets `ancestor`.
    pub fn descends_from(&self, node: u64, ancestor: u64) -> (r: bool)
        ensures
            r == reaches_up(self.nodes@, node, ancestor, self.nodes@.len()),
    {
        let ghost nodes = self.nodes@;
        let mut cur = node;
        let mut fuel = self.nodes.len();
        let mut found = false;
        loop
            invariant_except_break
                !found,
            invariant
                nodes == self.nodes@,
                reaches_up(nodes, node, ancestor, nodes.len()) == reaches_up(nodes, cur, ancestor, fuel as nat),
            ensures
                found == reaches_up(nodes, node, ancestor, nodes.len()),
            decreases fuel,
        {
            if cur == ancestor {
                found = true;
                break;
            }
            if fuel == 0 {
                break;
            }
            match self.find_node(cur) {
                None => break,
                Some(k) => match self.nodes[k].parent {
                    None => break,
                    Some(p) => {
                        cur = p;
                        fuel = fuel - 1;
                    },
                },
            }
        }
        found
    }

    /// Detaches `child` from its parent: the parent no longer lists it, and
    /// it has no parent. Fails, changing nothing, where the child is missing
    /// or has no parent.
    pub fn unlink(&mut self, child: u64) -> (r: Result<(), SceneError>)
        requires
            old(self).wf(),
        ensures
            final(self).wf(),
            match node_pos(old(self).nodes@, child) {
                None => r == Err::<(), SceneError>(SceneError::NotFound) && *final(self) == *old(self),
                Some(ci) => match old(self).nodes@[ci].parent {
                    None => r == Err::<(), SceneError>(SceneError::NotFound) && *final(self) == *old(self),
                    Some(p) => {
                        &&& r is Ok
                        &&& final(self).nodes@.len() == old(self).nodes@.len()
                        &&& final(self).nodes@[ci].parent is None
                        &&& final(self).nodes@[ci].children == old(self).nodes@[ci].children
                        &&& forall|k: int| 0 <= k < old(self).nodes@.len() && k != ci
                            ==> (#[trigger] final(self).nodes@[k]).parent == old(self).nodes@[k].parent
                        &&& forall|k: int| 0 <= k < old(self).nodes@.len() && k != ci && old(self).nodes@[k].id != p
                            ==> final(self).nodes@[k] == old(self).nodes@[k]
                        &&& forall|k: int| 0 <= k < old(self).nodes@.len() && k != ci && old(self).nodes@[k].id == p
                            ==> (#[trigger] final(self).nodes@[k]).children@ == old(self).nodes@[k].children@.filter(|c: u64| c != child)
                        &&& final(self).changes == old(self).changes
                    },
                },
            },
    {
        let ci = match self.find_node(child) {
            Some(i) => i,
            None => return Err(SceneError::NotFound),
        };
        let p = match self.nodes[ci].parent {
            Some(p) => p,
            None => return Err(SceneError::NotFound),
        };
        let ghost before = self.nodes@;
        let mut k: usize = 0;
        while k < self.nodes.len()
            invariant
                self.wf(),
                self.next_id == old(self).next_id,
                self.next_listener == old(self).next_listener,
                self.changes == old(self).changes,
                before == old(self).nodes@,
                ci < before.len(),
                before[ci as int].parent == Some(p),
                self.nodes@.len() == before.len(),
                k <= before.len(),
                forall|m: int| k <= m < before.len() ==> self.nodes@[m] == before[m],
                forall|m: int| 0 <= m < k && (m == ci || before[m].id != p) ==> self.nodes@[m] == before[m],
                forall|m: int| 0 <= m < k && m != ci && before[m].id == p
                    ==> (#[trigger] self.nodes@[m]).children@ == before[m].children@.filter(|c: u64| c != child),
                forall|m: int| 0 <= m < k ==> (#[trigger] self.nodes@[m]).parent == before[m].parent,
            decreases before.len() - k,
        {
            if k != ci && self.nodes[k].id == p {
                let ghost old_children = self.nodes@[k as int].children@;
                let mut kept: Vec<u64> = Vec::new();
                let mut m: usize = 0;
                proof {
                    lemma_filter_empty(old_children, |c: u64| c != child);
                }
                while m < self.nodes[k].children.len()
                    invariant
                        k < self.nodes@.len(),
                        old_children == self.nodes@[k as int].children@,
                        m <= old_children.len(),
                        kept@ == old_children.subrange(0, m as int).filter(|c: u64| c != child),
                    decreases old_children.len() - m,
                {
                    let c = self.nodes[k].children[m];
                    proof {
                        lemma_filter_step(old_children, |c: u64| c != child, m as int);
                    }
                    if c != child {
                        kept.push(c);
                    }
                    m += 1;
                }
                assert(old_children.subrange(0, m as int) =~= old_children);
                self.nodes[k].children = kept;
            }
            k += 1;
        }
        self.nodes[ci].parent = None;
        Ok(())
    }

    /// Destroys node `id`, which must have no parent, with every node below
    /// it; their properties, signals and listeners go with them. The other
    /// nodes stay, in order.
    pub fn destroy(&mut self, id: u64) -> (r: Result<(), SceneError>)
        requires
            old(self).wf(),
        ensures
            final(self).wf(),
            match node_pos(old(self).nodes@, id) {
                None => r == Err::<(), SceneError>(SceneError::NotFound) && *final(self) == *old(self),
                Some(i) => if old(self).nodes@[i].parent is Some {
                    r == Err::<(), SceneError>(SceneError::AlreadyLinked) && *final(self) == *old(self)
                } else {
                    &&& r is Ok
                    &&& final(self).nodes@ == old(self).nodes@.filter(
                        |n: SceneNode| !reaches_up(old(self).nodes@, n.id, id, old(self).nodes@.len()),
                    )
                    &&& final(self).next_id == old(self).next_id
                    &&& final(self).changes == old(self).changes
                },
            },
    {
        let i = match self.find_node(id) {
            Some(i) => i,
            None => return Err(SceneError::NotFound),
        };
        if self.nodes[i].parent.is_some() {
            return Err(SceneError::AlreadyLinked);
        }
        let ghost all = self.nodes@;
        let mut keep: Vec<bool> = Vec::new();
        let mut k: usize = 0;
        while k < self.nodes.len()
            invariant
                all == self.nodes@,
                k <= all.len(),
                keep@.len() == k,
                forall|m: int| 0 <= m < k ==> keep@[m] == !reaches_up(all, #[trigger] all[m].id, id, all.len()),
            decreases all.len() - k,
        {
            let d = self.descends_from(self.nodes[k].id, id);
            keep.push(!d);
            k += 1;
        }
        let mut rest: Vec<SceneNode> = Vec::new();
        std::mem::swap(&mut rest, &mut self.nodes);
        let mut kept: Vec<SceneNode> = Vec::new();
        let mut k: usize = 0;
        proof {
            lemma_filter_empty(all, |n: SceneNode| !reaches_up(all, n.id, id, all.len()));
        }
        assert(all.skip(0) =~= all);
        while k < keep.len()
            invariant
                keep@.len() == all.len(),
                k <= all.len(),
                rest@ == all.skip(k as int),
                forall|m: int| 0 <= m < all.len() ==> keep@[m] == !reaches_up(all, #[trigger] all[m].id, id, all.len()),
                kept@ == all.subrange(0, k as int).filter(
                    |n: SceneNode| !reaches_up(all, n.id, id, all.len()),
                ),
                forall|m: int| 0 <= m < kept@.len() ==> (#[trigger] kept@[m]).id < old(self).next_id,
                forall|m: int, p: int| 0 <= m < kept@.len() && 0 <= p < kept@[m].props@.len()
                    ==> (#[trigger] kept@[m].props@[p]).wf(),
                all == old(self).nodes@,
                old(self).wf(),
            decreases all.len() - k,
        {
            proof {
                lemma_filter_step(all, |n: SceneNode| !reaches_up(all, n.id, id, all.len()), k as int);
            }
            let ghost before = rest@;
            let n = rest.remove(0);
            assert(before.skip(1) =~= all.skip(k + 1));
            assert(n == all[k as int]);
            if keep[k] {
                kept.push(n);
            }
            k += 1;
        }
        assert(all.subrange(0, k as int) =~= all);
        self.nodes = kept;
        Ok(())
    }

    /// The first child of the node at position `i` named `name`, by id.
    fn find_child(&self, i: usize, name: &Vec<char>) -> (r: Option<u64>)
        requires
            i < self.nodes@.len(),
        ensures
            match child_pos(self.nodes@, self.nodes@[i as int].children@, name@) {
                Some(c) => r == Some(self.nodes@[i as int].children@[c]),
                None => r is None,
            },
    {
        let ghost ch = self.nodes@[i as int].children@;
        let mut c: usize = 0;
        while c < self.nodes[i].children.len()
            invariant
                ch == self.nodes@[i as int].children@,
                i < self.nodes@.len(),
                c <= ch.len(),
                forall|j: int| 0 <= j < c ==> !(node_pos(self.nodes@, #[trigger] ch[j]) matches Some(k) && self.nodes@[k].name@ == name@),
            decreases ch.len() - c,
        {
            let id = self.nodes[i].children[c];
            match self.find_node(id) {
                Some(k) => {
                    let nm = chars_of(self.nodes[k].name.as_str());
                    if chars_eq(&nm, name) {
                        proof {
                            lemma_first_index_found(ch, |c: u64| node_pos(self.nodes@, c) matches Some(k) && self.nodes@[k].name@ == name@, c as int);
                        }
                        return Some(id);
                    }
                },
                None => {},
            }
            c += 1;
        }
        proof {
            lemma_first_index_none(ch, |c: u64| node_pos(self.nodes@, c) matches Some(k) && self.nodes@[k].name@ == name@);
        }
        None
    }

    /// The node that `/`-separated `path` names, starting from `start`: each
    /// component picks the first child with that name.
    pub fn lookup_node(&self, start: u64, path: &str) -> (r: Result<u64, SceneError>)
        ensures
            match resolve(self.nodes@, start, path_components(path@)) {
                Some(id) => r == Ok::<u64, SceneError>(id),
                None => r == Err::<u64, SceneError>(SceneError::NotFound),
            },
    {
        let cs = chars_of(path);
        let comps = split_path(&cs);
        let ghost all = path_components(path@);
        let mut cur = start;
        let mut k: usize = 0;
        let mut found = true;
        assert(all.skip(0) =~= all);
        while k < comps.len()
            invariant_except_break
                found,
            invariant
                comps@.map_values(|v: Vec<char>| v@) == all,
                k <= comps@.len(),
                resolve(self.nodes@, start, all) == resolve(self.nodes@, cur, all.skip(k as int)),
            ensures
                found ==> k == comps@.len() && resolve(self.nodes@, start, all) == resolve(self.nodes@, cur, all.skip(k as int)),
                !found ==> resolve(self.nodes@, start, all) is None,
            decreases comps@.len() - k,
        {
            assert(all.skip(k as int).skip(1) =~= all.skip(k + 1));
            assert(all.skip(k as int)[0] == comps@[k as int]@);
            let i = match self.find_node(cur) {
                Some(i) => i,
                None => {
                    found = false;
                    break;
                },
            };
            match self.find_child(i, &comps[k]) {
                Some(c) => cur = c,
                None => {
                    found = false;
                    break;
                },
            }
            k += 1;
        }
        if !found {
            return Err(SceneError::NotFound);
        }
        assert(all.skip(k as int).len() == 0);
        Ok(cur)
    }

    /// The value in slot `slot` of property `name` of node `node`.
    pub open spec fn value_at(&self, node: u64, name: Seq<char>, slot: int) -> Option<Value> {
        match self.prop_target(node, name, slot) {
            Ok((i, j)) => Some(self.nodes@[i].props@[j].vals@[slot]),
            Err(_) => None,
        }
    }

    /// The value in slot `slot` of property `name` of node `node`, if there is one.
    pub fn get_value(&self, node: u64, name: &String, slot: usize) -> (r: Option<&Value>)
        requires
            self.wf(),
        ensures
            match self.value_at(node, name@, slot as int) {
                Some(v) => r == Some(&v),
                None => r is None,
            },
    {
        match self.locate(node, name, slot) {
            Ok((i, j)) => Some(&self.nodes[i].props[j].vals[slot]),
            Err(_) => None,
        }
    }

    /// Evaluates the bound slots of property `name` of node `node` against
    /// the parent rectangle (see [`Property::eval`]). No change is published:
    /// the values are those of the current frame.
    pub fn eval_property(&mut self, node: u64, name: &String, parent: &Rectangle) -> (r: Result<(), SceneError>)
        requires
            old(self).wf(),
        ensures
            final(self).wf(),
            final(self).eval_outcome(*old(self), node, name@, *parent, r),
            old(self).eval_fails(node, name@, *parent) == r is Err,
    {
        let (i, j) = match self.locate(node, name, 0) {
            Ok(t) => t,
            Err(e) => return Err(e),
        };
        match self.nodes[i].props[j].check_eval(parent) {
            Some(e) => return Err(SceneError::Eval(e)),
            None => {},
        }
        let _ = self.nodes[i].props[j].eval(parent);
        Ok(())
    }
}

/// A write that changed only property `j` of node `i` leaves that property
/// where a lookup of it by node and name finds it.
pub proof fn lemma_target_kept(old: SceneGraph, new: SceneGraph, node: u64, name: Seq<char>, i: int, j: int)
    requires
        old.wf(),
        new.wf(),
        new.only_prop_changed(&old, i, j),
        old.prop_target(node, name, 0) == Ok::<(int, int), SceneError>((i, j)),
    ensures
        new.prop_target(node, name, 0) == Ok::<(int, int), SceneError>((i, j)),
{
    lemma_first_index_same(old.nodes@, new.nodes@, |n: SceneNode| n.id == node);
    lemma_first_index_same(old.nodes@[i].props@, new.nodes@[i].props@, |p: Property| p.name@ == name);
    assert(old.nodes@[i].props@[j].wf());
    assert(new.nodes@[i].props@[j].wf());
}

/// Whether two character sequences are equal.
pub fn chars_eq(a: &Vec<char>, b: &Vec<char>) -> (r: bool)
    ensures
        r == (a@ == b@),
{
    if a.len() != b.len() {
        return false;
    }
    let mut i: usize = 0;
    while i < a.len()
        invariant
            a@.len() == b@.len(),
            i <= a@.len(),
            forall|j: int| 0 <= j < i ==> a@[j] == b@[j],
        decreases a@.len() - i,
    {
        if a[i] != b[i] {
            return false;
        }
        i += 1;
    }
    assert(a@ =~= b@);
    true
}

/// The components of a `/`-separated path, empty ones dropped.
pub fn split_path(cs: &Vec<char>) -> (r: Vec<Vec<char>>)
    ensures
        r@.map_values(|v: Vec<char>| v@) == path_components(cs@),
{
    let mut comps: Vec<Vec<char>> = Vec::new();
    let mut cur: Vec<char> = Vec::new();
    let mut i: usize = 0;
    while i < cs.len()
        invariant
            i <= cs@.len(),
            comps@.map_values(|v: Vec<char>| v@) + split_from(cs@, i as int, cur@) == path_components(cs@),
        decreases cs@.len() - i,
    {
        let ghost before = comps@.map_values(|v: Vec<char>| v@);
        if cs[i] == '/' {
            assert(split_from(cs@, i as int, cur@) == (if cur@.len() > 0 {
                seq![cur@] + split_from(cs@, i + 1, seq![])
            } else {
                split_from(cs@, i + 1, seq![])
            }));
            if cur.len() > 0 {
                let ghost c = cur@;
                comps.push(cur);
                cur = Vec::new();
                assert(comps@.map_values(|v: Vec<char>| v@) =~= before.push(c));
                assert(before + (seq![c] + split_from(cs@, i + 1, seq![])) =~= before.push(c) + split_from(cs@, i + 1, seq![]));
                assert(cur@ =~= Seq::<char>::empty());
                assert(comps@.map_values(|v: Vec<char>| v@) + split_from(cs@, i + 1, cur@) == path_components(cs@));
            } else {
                assert(cur@ =~= Seq::<char>::empty());
            }
        } else {
            assert(split_from(cs@, i as int, cur@) == split_from(cs@, i + 1, cur@.push(cs@[i as int])));
            cur.push(cs[i]);
            assert(comps@.map_values(|v: Vec<char>| v@) + split_from(cs@, i + 1, cur@) == path_components(cs@));
        }
        i += 1;
    }
    if cur.len() > 0 {
        let ghost before = comps@.map_values(|v: Vec<char>| v@);
        let ghost c = cur@;
        comps.push(cur);
        assert(comps@.map_values(|v: Vec<char>| v@) =~= before.push(c));
        assert(before + seq![c] =~= before.push(c));
    } else {
        assert(comps@.map_values(|v: Vec<char>| v@) + Seq::<Seq<char>>::empty() =~= comps@.map_values(|v: Vec<char>| v@));
    }
    comps

}

} // verus!
