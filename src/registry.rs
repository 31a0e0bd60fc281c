use vstd::prelude::*;

use crate::message::copy_ids;

verus! {

/// An instance id together with the repeat indices of the repetitions around it.
pub type MountKey = (u64, Seq<u32>);

pub open spec fn holds(entries: Seq<(u64, Vec<u32>)>, id: u64, path: Seq<u32>) -> bool {
    exists|i: int| 0 <= i < entries.len() && entries[i].0 == id && #[trigger] entries[i].1@ == path
}

/// The keys of `mounted` whose instance id is not `id`.
pub open spec fn without_id(mounted: Set<MountKey>, id: u64) -> Set<MountKey> {
    mounted.filter(|k: MountKey| k.0 != id)
}

/// `k` has instance id `id` and, when `path` is given, that repeat path.
pub open spec fn matches_key(k: MountKey, id: u64, path: Option<Seq<u32>>) -> bool {
    k.0 == id && match path {
        None => true,
        Some(p) => k.1 == p,
    }
}

/// Which node instances are mounted, per instance id and repeat path.
pub struct InstanceRegistry {
    entries: Vec<(u64, Vec<u32>)>,
}

fn same_path(a: &Vec<u32>, b: &Vec<u32>) -> (r: bool)
    ensures
        r == (a@ == b@),
{
    if a.len() != b.len() {
        return false;
    }
    let mut i: usize = 0;
    while i < a.len()
        invariant
            a@.len() == b@.len(),
            0 <= i <= a@.len(),
            forall|j: int| 0 <= j < i ==> a@[j] == b@[j],
        decreases a@.len() - i,
    {
        if a[i] != b[i] {
            return false;
        }
        i = i + 1;
    }
    proof {
        assert(a@ =~= b@);
    }
    true
}

impl InstanceRegistry {
    /// The mounted keys.
    pub closed spec fn mounted(&self) -> Set<MountKey> {
        Set::new(|k: MountKey| holds(self.entries@, k.0, k.1))
    }

    pub fn new() -> (r: InstanceRegistry)
        ensures
            r.mounted() == Set::<MountKey>::empty(),
    {
        let r = InstanceRegistry { entries: Vec::new() };
        proof {
            assert(r.mounted() =~= Set::<MountKey>::empty());
        }
        r
    }

    pub fn is_mounted(&self, id: u64, repeat_path: &Vec<u32>) -> (r: bool)
        ensures
            r == self.mounted().contains((id, repeat_path@)),
    {
        let mut i: usize = 0;
        while i < self.entries.len()
            invariant
                0 <= i <= self.entries@.len(),
                forall|j: int|
                    0 <= j < i ==> !(self.entries@[j].0 == id && #[trigger] self.entries@[j].1@
                        == repeat_path@),
            decreases self.entries@.len() - i,
        {
            if self.entries[i].0 == id && same_path(&self.entries[i].1, repeat_path) {
                return true;
            }
            i = i + 1;
        }
        false
    }

    /// Marks one instance as mounted.
    pub fn mark_mounted(&mut self, id: u64, repeat_path: &Vec<u32>)
        ensures
            final(self).mounted() == old(self).mounted().insert((id, repeat_path@)),
    {
        if self.is_mounted(id, repeat_path) {
            proof {
                assert(old(self).mounted().insert((id, repeat_path@)) =~= old(self).mounted());
            }
            return;
        }
        let path = copy_ids(repeat_path);
        let ghost oe = self.entries@;
        self.entries.push((id, path));
        proof {
            let ne = self.entries@;
            let n = oe.len();
            assert forall|k: MountKey| #[trigger]
                holds(ne, k.0, k.1) == (holds(oe, k.0, k.1) || k == (id, repeat_path@)) by {
                if holds(oe, k.0, k.1) {
                    let i = choose|i: int| 0 <= i < n && oe[i].0 == k.0 && #[trigger] oe[i].1@ == k.1;
                    assert(ne[i] == oe[i]);
                }
                if k == (id, repeat_path@) {
                    assert(ne[n as int].1@ == k.1);
                }
                if holds(ne, k.0, k.1) {
                    let i = choose|i: int| 0 <= i < n + 1 && ne[i].0 == k.0 && #[trigger] ne[i].1@ == k.1;
                    if i < n {
                        assert(oe[i] == ne[i]);
                    }
                }
            }
            assert(final(self).mounted() =~= old(self).mounted().insert((id, repeat_path@)));
        }
    }

    /// Removes the keys that match `id` and, when given, `path`.
    fn remove_matching(&mut self, id: u64, path: Option<&Vec<u32>>)
        ensures
            final(self).mounted() == old(self).mounted().filter(
                |k: MountKey|
                    !matches_key(
                        k,
                        id,
                        match path {
                            None => None,
                            Some(p) => Some(p@),
                        },
                    ),
            ),
    {
        let ghost pv = match path {
            None => None,
            Some(p) => Some(p@),
        };
        let ghost gone = |k: MountKey| matches_key(k, id, pv);
        let mut kept: Vec<(u64, Vec<u32>)> = Vec::new();
        let mut i: usize = 0;
        while i < self.entries.len()
            invariant
                self.entries == old(self).entries,
                pv == (match path {
                    None => None,
                    Some(p) => Some(p@),
                }),
                gone == (|k: MountKey| matches_key(k, id, pv)),
                0 <= i <= self.entries@.len(),
                forall|m: int|
                    0 <= m < kept@.len() ==> !gone((kept@[m].0, kept@[m].1@)) && holds(
                        self.entries@,
                        kept@[m].0,
                        #[trigger] kept@[m].1@,
                    ),
                forall|j: int|
                    0 <= j < i && !gone((self.entries@[j].0, self.entries@[j].1@)) ==> holds(
                        kept@,
                        self.entries@[j].0,
                        #[trigger] self.entries@[j].1@,
                    ),
            decreases self.entries@.len() - i,
        {
            let eid = self.entries[i].0;
            let matches = if eid != id {
                false
            } else {
                match path {
                    None => true,
                    Some(p) => same_path(&self.entries[i].1, p),
                }
            };
            proof {
                assert(matches == gone((self.entries@[i as int].0, self.entries@[i as int].1@)));
            }
            if !matches {
                let copy = copy_ids(&self.entries[i].1);
                let ghost before = kept@;
                kept.push((eid, copy));
                proof {
                    assert forall|j: int|
                        0 <= j < i + 1 && !gone(
                            (self.entries@[j].0, self.entries@[j].1@),
                        ) implies holds(kept@, self.entries@[j].0, #[trigger] self.entries@[j].1@) by {
                        if j < i {
                            let w = choose|w: int|
                                0 <= w < before.len() && before[w].0 == self.entries@[j].0
                                    && #[trigger] before[w].1@ == self.entries@[j].1@;
                            assert(kept@[w] == before[w]);
                        } else {
                            assert(kept@[before.len() as int].1@ == self.entries@[j].1@);
                        }
                    }
                    assert forall|m: int| 0 <= m < kept@.len() implies !gone(
                        (kept@[m].0, kept@[m].1@),
                    ) && holds(self.entries@, kept@[m].0, #[trigger] kept@[m].1@) by {
                        if m < before.len() {
                            assert(kept@[m] == before[m]);
                        } else {
                            assert(self.entries@[i as int].1@ == kept@[m].1@);
                        }
                    }
                }
            }
            i = i + 1;
        }
        let ghost oe = self.entries@;
        self.entries = kept;
        proof {
            let ne = self.entries@;
            let target = old(self).mounted().filter(|k: MountKey| !matches_key(k, id, pv));
            assert forall|k: MountKey| #[trigger]
                final(self).mounted().contains(k) == target.contains(k) by {
                if holds(ne, k.0, k.1) {
                    let m = choose|m: int| 0 <= m < ne.len() && ne[m].0 == k.0 && #[trigger] ne[m].1@ == k.1;
                    assert(!gone((ne[m].0, ne[m].1@)));
                }
                if holds(oe, k.0, k.1) && !gone(k) {
                    let j = choose|j: int| 0 <= j < oe.len() && oe[j].0 == k.0 && #[trigger] oe[j].1@ == k.1;
                    assert(!gone((oe[j].0, oe[j].1@)));
                }
            }
            assert(final(self).mounted() =~= target);
        }
    }

    /// Marks one instance as not mounted, keeping the rest of its id's bookkeeping.
    pub fn mark_unmounted(&mut self, id: u64, repeat_path: &Vec<u32>)
        ensures
            final(self).mounted() == old(self).mounted().remove((id, repeat_path@)),
    {
        self.remove_matching(id, Some(repeat_path));
        proof {
            assert(final(self).mounted() =~= old(self).mounted().remove((id, repeat_path@)));
        }
    }

    /// Forgets an instance id for good: none of its keys stays mounted.
    pub fn deregister(&mut self, id: u64)
        ensures
            final(self).mounted() == without_id(old(self).mounted(), id),
    {
        self.remove_matching(id, None);
        proof {
            assert(final(self).mounted() =~= without_id(old(self).mounted(), id));
        }
    }
}

/// After an id is deregistered, none of its keys is mounted, whatever was mounted
/// before; it becomes mounted again only when it is marked mounted, and marking
/// other keys mounted does not mount it.
pub proof fn law_remount_after_deregister(
    mounted: Set<MountKey>,
    id: u64,
    repeat_path: Seq<u32>,
    other: MountKey,
)
    requires
        other != (id, repeat_path),
    ensures
        !without_id(mounted, id).contains((id, repeat_path)),
        !without_id(mounted, id).insert(other).contains((id, repeat_path)),
        without_id(mounted, id).insert((id, repeat_path)).contains((id, repeat_path)),
{
}

} // verus!
