//! Redraw scheduling: which visual objects watch which properties, and the
//! decisions of the listener that each watch runs.
use vstd::prelude::*;
use crate::scene::ChangeEvent;

verus! {

/// A visual object's interest in one property of one node.
#[derive(Debug)]
pub struct Subscription {
    pub object: u64,
    pub node: u64,
    pub prop: String,
}

/// The objects, in subscription order, that watch property `prop` of `node`.
pub open spec fn watchers(subs: Seq<Subscription>, node: u64, prop: Seq<char>) -> Seq<u64>
    decreases subs.len(),
{
    if subs.len() == 0 {
        seq![]
    } else {
        let rest = watchers(subs.drop_last(), node, prop);
        if subs.last().node == node && subs.last().prop@ == prop {
            rest.push(subs.last().object)
        } else {
            rest
        }
    }
}

/// The subscriptions that do not belong to `object`, in order.
pub open spec fn without_object(subs: Seq<Subscription>, object: u64) -> Seq<Subscription>
    decreases subs.len(),
{
    if subs.len() == 0 {
        seq![]
    } else {
        let rest = without_object(subs.drop_last(), object);
        if subs.last().object == object {
            rest
        } else {
            rest.push(subs.last())
        }
    }
}

/// The subscriptions of all live visual objects.
pub struct Subscriptions {
    pub subs: Vec<Subscription>,
}

impl Subscriptions {
    pub fn new() -> (r: Subscriptions)
        ensures
            r.subs@.len() == 0,
    {
        Subscriptions { subs: Vec::new() }
    }

    /// Records that `object` watches property `prop` of `node`.
    pub fn subscribe(&mut self, object: u64, node: u64, prop: &str)
        ensures
            final(self).subs@.len() == old(self).subs@.len() + 1,
            final(self).subs@.drop_last() == old(self).subs@,
            final(self).subs@.last().object == object,
            final(self).subs@.last().node == node,
            final(self).subs@.last().prop@ == prop@,
    {
        self.subs.push(Subscription { object, node, prop: prop.to_string() });
        assert(self.subs@.drop_last() =~= old(self).subs@);
    }

    /// Drops every subscription of `object`: its listeners end.
    pub fn unsubscribe_object(&mut self, object: u64)
        ensures
            final(self).subs@ == without_object(old(self).subs@, object),
    {
        let mut kept: Vec<Subscription> = Vec::new();
        let ghost all = self.subs@;
        while self.subs.len() > 0
            invariant
                without_object(all, object) == without_object(self.subs@, object) + kept@,
                self.subs@ == all.subrange(0, self.subs@.len() as int),
                self.subs@.len() <= all.len(),
            decreases self.subs@.len(),
        {
            let ghost before = self.subs@;
            let s = self.subs.pop().unwrap();
            assert(before.drop_last() =~= self.subs@);
            assert(self.subs@ =~= all.subrange(0, self.subs@.len() as int));
            if s.object != object {
                let ghost k0 = kept@;
                kept.insert(0, s);
                assert(kept@ =~= seq![s] + k0);
                assert(without_object(self.subs@, object).push(s) + k0 =~= without_object(self.subs@, object) + kept@);
            }
        }
        assert(without_object(self.subs@, object) =~= Seq::<Subscription>::empty());
        assert(Seq::<Subscription>::empty() + kept@ =~= kept@);
        self.subs = kept;
    }

    /// The objects to redraw for a change, in subscription order.
    pub fn dispatch(&self, ev: &ChangeEvent) -> (r: Vec<u64>)
        ensures
            r@ == watchers(self.subs@, ev.node, ev.prop@),
    {
        let mut out: Vec<u64> = Vec::new();
        let mut i: usize = 0;
        while i < self.subs.len()
            invariant
                i <= self.subs@.len(),
                out@ == watchers(self.subs@.subrange(0, i as int), ev.node, ev.prop@),
            decreases self.subs@.len() - i,
        {
            let ghost pre = self.subs@.subrange(0, i + 1);
            assert(pre.drop_last() =~= self.subs@.subrange(0, i as int));
            if self.subs[i].node == ev.node && self.subs[i].prop == ev.prop {
                out.push(self.subs[i].object);
            }
            i += 1;
        }
        assert(self.subs@.subrange(0, i as int) =~= self.subs@);
        out
    }
}

/// Where a listener stands: waiting for a change, or with a redraw under way.
#[derive(Debug, Clone, Copy, PartialEq, Eq, Structural)]
pub enum ListenerState {
    Idle,
    Scheduled,
}

/// What a listener learns.
#[derive(Debug, Clone, Copy, PartialEq, Eq, Structural)]
pub enum ListenerEvent {
    /// The watched property changed.
    Changed,
    /// The redraw it asked for has run.
    RedrawDone,
}

/// What a listener asks of the loop that runs it.
#[derive(Debug, Clone, Copy, PartialEq, Eq, Structural)]
pub enum ListenerAction {
    /// Wait for the next change.
    Wait,
    /// Run the object's redraw.
    Redraw,
    /// End the listener: its object or node is gone.
    Exit,
}

/// The next state and action of a listener. A change schedules a redraw
/// while the object and its node live, and ends the listener otherwise; a
/// finished redraw returns it to waiting.
pub fn listener_step(state: ListenerState, event: ListenerEvent, object_alive: bool, node_alive: bool) -> (r: (
    ListenerState,
    ListenerAction,
))
    ensures
        event == ListenerEvent::Changed && object_alive && node_alive ==> r == (ListenerState::Scheduled, ListenerAction::Redraw),
        event == ListenerEvent::Changed && !(object_alive && node_alive) ==> r == (ListenerState::Idle, ListenerAction::Exit),
        event == ListenerEvent::RedrawDone ==> r == (ListenerState::Idle, ListenerAction::Wait),
{
    match event {
        ListenerEvent::Changed => if object_alive && node_alive {
            (ListenerState::Scheduled, ListenerAction::Redraw)
        } else {
            (ListenerState::Idle, ListenerAction::Exit)
        },
        ListenerEvent::RedrawDone => (ListenerState::Idle, ListenerAction::Wait),
    }
}

} // verus!
