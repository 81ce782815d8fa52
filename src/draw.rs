//! The draw-call registry: one entry per key, replaced atomically, and
//! assembled into a frame ordered by z-index.
use vstd::prelude::*;
use crate::gfx::DrawCall;

verus! {

/// The entries after installing `dc` under `key`: an existing entry of that
/// key is replaced where it stands, a new key goes last.
pub open spec fn put(entries: Seq<(u64, DrawCall)>, key: u64, dc: DrawCall) -> Seq<(u64, DrawCall)> {
    if exists|i: int| 0 <= i < entries.len() && entries[i].0 == key {
        let i = choose|i: int| 0 <= i < entries.len() && entries[i].0 == key;
        entries.update(i, (key, dc))
    } else {
        entries.push((key, dc))
    }
}

/// The entries after installing `calls` in order.
pub open spec fn put_all(entries: Seq<(u64, DrawCall)>, calls: Seq<(u64, DrawCall)>) -> Seq<(u64, DrawCall)>
    decreases calls.len(),
{
    if calls.len() == 0 {
        entries
    } else {
        put_all(put(entries, calls[0].0, calls[0].1), calls.skip(1))
    }
}

pub open spec fn keys_unique(entries: Seq<(u64, DrawCall)>) -> bool {
    forall|i: int, j: int| 0 <= i < j < entries.len() ==> entries[i].0 != entries[j].0
}

/// Whether entry `a` is drawn before entry `b`: lower z-index first, then
/// the order in which keys were first installed.
pub open spec fn drawn_before(entries: Seq<(u64, DrawCall)>, a: int, b: int) -> bool {
    entries[a].1.z_index < entries[b].1.z_index
        || (entries[a].1.z_index == entries[b].1.z_index && a < b)
}

/// Installing an entry keeps keys unique, puts the new entry under its key,
/// and leaves the entries of every other key where and as they were.
pub proof fn lemma_put(entries: Seq<(u64, DrawCall)>, key: u64, dc: DrawCall)
    requires
        keys_unique(entries),
    ensures
        keys_unique(put(entries, key, dc)),
        put(entries, key, dc).len() >= entries.len(),
        exists|i: int| 0 <= i < put(entries, key, dc).len() && put(entries, key, dc)[i] == (key, dc),
        forall|i: int| 0 <= i < entries.len() && entries[i].0 != key ==> put(entries, key, dc)[i] == entries[i],
        forall|i: int| entries.len() <= i < put(entries, key, dc).len() ==> put(entries, key, dc)[i].0 == key,
{
    let r = put(entries, key, dc);
    if exists|i: int| 0 <= i < entries.len() && entries[i].0 == key {
        let i = choose|i: int| 0 <= i < entries.len() && entries[i].0 == key;
        assert(r[i] == (key, dc));
    } else {
        assert(r[entries.len() as int] == (key, dc));
    }
}

/// The shared registry of draw calls, keyed by the visual object that owns each.
pub struct DrawRegistry {
    pub entries: Vec<(u64, DrawCall)>,
    /// Time of the latest replacement.
    pub timestamp: u64,
}

impl DrawRegistry {
    pub open spec fn wf(&self) -> bool {
        keys_unique(self.entries@)
    }

    pub fn new() -> (r: DrawRegistry)
        ensures
            r.wf(),
            r.entries@.len() == 0,
            r.timestamp == 0,
    {
        DrawRegistry { entries: Vec::new(), timestamp: 0 }
    }

    /// The position of `key`, if it has an entry.
    pub fn find(&self, key: u64) -> (r: Option<usize>)
        requires
            self.wf(),
        ensures
            match r {
                Some(i) => i < self.entries@.len() && self.entries@[i as int].0 == key,
                None => forall|i: int| 0 <= i < self.entries@.len() ==> self.entries@[i].0 != key,
            },
    {
        let mut i: usize = 0;
        while i < self.entries.len()
            invariant
                i <= self.entries@.len(),
                forall|k: int| 0 <= k < i ==> self.entries@[k].0 != key,
            decreases self.entries@.len() - i,
        {
            if self.entries[i].0 == key {
                return Some(i);
            }
            i += 1;
        }
        None
    }

    /// Installs one entry, replacing any entry of the same key.
    pub fn put(&mut self, key: u64, dc: DrawCall)
        requires
            old(self).wf(),
        ensures
            final(self).wf(),
            final(self).entries@ == put(old(self).entries@, key, dc),
            final(self).timestamp == old(self).timestamp,
    {
        match self.find(key) {
            Some(i) => {
                let ghost e = self.entries@;
                assert(exists|j: int| 0 <= j < e.len() && e[j].0 == key);
                let ghost c = choose|j: int| 0 <= j < e.len() && e[j].0 == key;
                assert(c == i as int) by {
                    if c != i as int {
                        assert(e[c].0 == e[i as int].0);
                    }
                }
                self.entries.set(i, (key, dc));
            },
            None => {
                self.entries.push((key, dc));
            },
        }
    }

    /// Installs `calls` in order, each replacing any previous entry of its key.
    pub fn replace_draw_calls(&mut self, timestamp: u64, new_calls: Vec<(u64, DrawCall)>)
        requires
            old(self).wf(),
        ensures
            final(self).wf(),
            final(self).entries@ == put_all(old(self).entries@, new_calls@),
            final(self).timestamp == timestamp,
    {
        let ghost orig = new_calls@;
        let mut calls = new_calls;
        while calls.len() > 0
            invariant
                self.wf(),
                put_all(old(self).entries@, orig) == put_all(self.entries@, calls@),
            decreases calls.len(),
        {
            let ghost before = calls@;
            let (key, dc) = calls.remove(0);
            assert(before.skip(1) =~= calls@);
            self.put(key, dc);
        }
        self.timestamp = timestamp;
    }

    /// The keys of all entries in drawing order: by z-index, ties in the
    /// order in which the keys were first installed.
    pub fn assemble_frame(&self) -> (r: Vec<usize>)
        requires
            self.wf(),
        ensures
            r@.len() == self.entries@.len(),
            forall|k: int| 0 <= k < r@.len() ==> r@[k] < self.entries@.len(),
            forall|a: int, b: int| 0 <= a < b < r@.len()
                ==> drawn_before(self.entries@, r@[a] as int, r@[b] as int),
    {
        let ghost e = self.entries@;
        let mut out: Vec<usize> = Vec::new();
        let mut i: usize = 0;
        while i < self.entries.len()
            invariant
                e == self.entries@,
                i <= e.len(),
                out@.len() == i,
                forall|k: int| 0 <= k < out@.len() ==> out@[k] < i,
                forall|a: int, b: int| 0 <= a < b < out@.len()
                    ==> drawn_before(e, out@[a] as int, out@[b] as int),
            decreases e.len() - i,
        {
            let z = self.entries[i].1.z_index;
            let mut p: usize = 0;
            while p < out.len() && self.entries[out[p]].1.z_index <= z
                invariant
                    e == self.entries@,
                    i < e.len(),
                    p <= out@.len(),
                    z == e[i as int].1.z_index,
                    forall|k: int| 0 <= k < out@.len() ==> out@[k] < i,
                    forall|k: int| 0 <= k < p ==> e[out@[k] as int].1.z_index <= z,
                decreases out@.len() - p,
            {
                p += 1;
            }
            let ghost old_out = out@;
            out.insert(p, i);
            assert forall|a: int, b: int| 0 <= a < b < out@.len()
                implies drawn_before(e, out@[a] as int, out@[b] as int) by {
                if b < p {
                } else if b == p {
                    assert(e[old_out[a] as int].1.z_index <= z);
                } else if a < p {
                    assert(drawn_before(e, old_out[a] as int, old_out[b - 1] as int));
                    if a + 1 < p {
                    }
                    assert(e[old_out[a] as int].1.z_index <= z);
                    assert(e[old_out[p as int] as int].1.z_index > z);
                    if b - 1 > p {
                        assert(drawn_before(e, old_out[p as int] as int, old_out[b - 1] as int));
                    }
                } else if a == p {
                    assert(e[old_out[p as int] as int].1.z_index > z);
                    if b - 1 > p {
                        assert(drawn_before(e, old_out[p as int] as int, old_out[b - 1] as int));
                    }
                } else {
                    assert(drawn_before(e, old_out[a - 1] as int, old_out[b - 1] as int));
                }
            }
            i += 1;
        }
        out
    }
}

} // verus!
