use vstd::prelude::*;

verus! {

/// How long ago `created_at` was, seen at `now`; a clock reading earlier than the stamp counts
/// as no time at all.
pub open spec fn age(created_at: u64, now: u64) -> int {
    if now >= created_at {
        now - created_at
    } else {
        0
    }
}

/// Whether an entry stamped at `created_at` is still within `ttl` at `now`.
pub open spec fn is_fresh(created_at: u64, now: u64, ttl: u64) -> bool {
    age(created_at, now) < ttl
}

/// The entries of `m` that are still fresh at `now`.
pub open spec fn swept(m: Map<Seq<char>, (Seq<char>, u64)>, now: u64, ttl: u64) -> Map<
    Seq<char>,
    (Seq<char>, u64),
> {
    Map::new(|k: Seq<char>| m.contains_key(k) && is_fresh(m[k].1, now, ttl), |k: Seq<char>| m[k])
}

/// The contents after writing `value` under `key` at `now`: expired entries are swept out, then
/// the key gets the value and the stamp `now`, whatever it held before.
pub open spec fn written(
    m: Map<Seq<char>, (Seq<char>, u64)>,
    key: Seq<char>,
    value: Seq<char>,
    now: u64,
    ttl: u64,
) -> Map<Seq<char>, (Seq<char>, u64)> {
    swept(m, now, ttl).insert(key, (value, now))
}

struct CacheEntry {
    key: String,
    value: String,
    created_at: u64,
}

/// A key-to-text store whose entries expire `ttl` milliseconds after they were written.
/// Reads never evict; every write first sweeps out all expired entries.
pub struct TtlCache {
    entries: Vec<CacheEntry>,
    ttl: u64,
    contents: Ghost<Map<Seq<char>, (Seq<char>, u64)>>,
}

impl View for TtlCache {
    /// Each key, with its value and the time it was written.
    type V = Map<Seq<char>, (Seq<char>, u64)>;

    closed spec fn view(&self) -> Self::V {
        self.contents@
    }
}

impl TtlCache {
    /// The time-to-live, in milliseconds.
    pub closed spec fn ttl_spec(&self) -> u64 {
        self.ttl
    }

    /// The entries hold one slot per key, and each slot stands for its key in the view.
    pub closed spec fn wf(&self) -> bool {
        &&& forall|i: int, j: int|
            0 <= i < j < self.entries@.len() ==> #[trigger] self.entries@[i].key@
                != #[trigger] self.entries@[j].key@
        &&& forall|i: int|
            0 <= i < self.entries@.len() ==> self.contents@.contains_key(
                #[trigger] self.entries@[i].key@,
            ) && self.contents@[self.entries@[i].key@] == (
                self.entries@[i].value@,
                self.entries@[i].created_at,
            )
        &&& forall|k: Seq<char>|
            #[trigger] self.contents@.contains_key(k) ==> exists|i: int|
                0 <= i < self.entries@.len() && #[trigger] self.entries@[i].key@ == k
    }

    /// An empty cache whose entries live for `ttl` milliseconds.
    pub fn new(ttl: u64) -> (r: TtlCache)
        ensures
            r.wf(),
            r@ == Map::<Seq<char>, (Seq<char>, u64)>::empty(),
            r.ttl_spec() == ttl,
    {
        TtlCache { entries: Vec::new(), ttl, contents: Ghost(Map::empty()) }
    }

    /// The time-to-live, in milliseconds.
    pub fn ttl(&self) -> (r: u64)
        ensures
            r == self.ttl_spec(),
    {
        self.ttl
    }

    /// The value stored under `key` if it was written less than `ttl` before `now`.
    pub fn get(&self, key: &str, now: u64) -> (r: Option<String>)
        requires
            self.wf(),
        ensures
            r.is_some() <==> self@.contains_key(key@) && is_fresh(self@[key@].1, now, self.ttl_spec()),
            r.is_some() ==> r.unwrap()@ == self@[key@].0,
    {
        let wanted = key.to_owned();
        let mut i: usize = 0;
        while i < self.entries.len()
            invariant
                self.wf(),
                wanted@ == key@,
                i <= self.entries@.len(),
                forall|j: int| 0 <= j < i ==> #[trigger] self.entries@[j].key@ != key@,
            decreases self.entries@.len() - i,
        {
            let entry = &self.entries[i];
            if entry.key == wanted {
                let created_at = entry.created_at;
                let fresh = if now >= created_at {
                    now - created_at < self.ttl
                } else {
                    0 < self.ttl
                };
                if fresh {
                    return Some(entry.value.clone());
                } else {
                    return None;
                }
            }
            i = i + 1;
        }
        None
    }

    /// Whether an entry for `key` is held, fresh or not.
    pub fn contains_key(&self, key: &str) -> (r: bool)
        requires
            self.wf(),
        ensures
            r == self@.contains_key(key@),
    {
        let wanted = key.to_owned();
        let mut i: usize = 0;
        while i < self.entries.len()
            invariant
                self.wf(),
                wanted@ == key@,
                i <= self.entries@.len(),
                forall|j: int| 0 <= j < i ==> #[trigger] self.entries@[j].key@ != key@,
            decreases self.entries@.len() - i,
        {
            if self.entries[i].key == wanted {
                return true;
            }
            i = i + 1;
        }
        false
    }

    /// Removes every entry whose age at `now` has reached `ttl`, then stores `value` under `key`
    /// stamped with `now`, replacing any earlier value and stamp.
    pub fn set(&mut self, key: String, value: String, now: u64)
        requires
            old(self).wf(),
        ensures
            final(self).wf(),
            final(self).ttl_spec() == old(self).ttl_spec(),
            final(self)@ == written(old(self)@, key@, value@, now, old(self).ttl_spec()),
    {
        let ghost old_map = self@;
        let ghost olde = self.entries@;
        let ghost target = swept(old_map, now, self.ttl).remove(key@);
        let ghost mut origin: Seq<int> = Seq::empty();
        let mut kept: Vec<CacheEntry> = Vec::new();
        let mut i: usize = 0;
        while i < self.entries.len()
            invariant
                self.wf(),
                self@ == old_map,
                self.entries@ == olde,
                target == swept(old_map, now, self.ttl).remove(key@),
                i <= olde.len(),
                origin.len() == kept@.len(),
                forall|j: int|
                    0 <= j < kept@.len() ==> 0 <= #[trigger] origin[j] < i && kept@[j].key@
                        == olde[origin[j]].key@ && kept@[j].value@ == olde[origin[j]].value@
                        && kept@[j].created_at == olde[origin[j]].created_at,
                forall|j1: int, j2: int|
                    0 <= j1 < j2 < kept@.len() ==> #[trigger] origin[j1] < #[trigger] origin[j2],
                forall|j: int| 0 <= j < kept@.len() ==> target.contains_key(#[trigger] kept@[j].key@),
                forall|m: int|
                    0 <= m < i && target.contains_key(#[trigger] olde[m].key@) ==> exists|j: int|
                        0 <= j < kept@.len() && #[trigger] kept@[j].key@ == olde[m].key@,
            decreases olde.len() - i,
        {
            let ghost old_kept = kept@;
            let entry = &self.entries[i];
            let fresh = if now >= entry.created_at {
                now - entry.created_at < self.ttl
            } else {
                0 < self.ttl
            };
            let ghost k = olde[i as int].key@;
            assert(old_map.contains_key(k));
            if fresh && !(entry.key == key) {
                let copy = CacheEntry {
                    key: entry.key.clone(),
                    value: entry.value.clone(),
                    created_at: entry.created_at,
                };
                proof {
                    origin = origin.push(i as int);
                }
                kept.push(copy);
                assert(kept@[kept@.len() - 1].key@ == k);
            }
            assert forall|m: int|
                0 <= m < i + 1 && target.contains_key(#[trigger] olde[m].key@) implies exists|j: int|
                0 <= j < kept@.len() && #[trigger] kept@[j].key@ == olde[m].key@ by {
                if m < i {
                    let j = choose|j: int|
                        0 <= j < old_kept.len() && #[trigger] old_kept[j].key@ == olde[m].key@;
                    assert(kept@[j] == old_kept[j]);
                } else {
                    assert(kept@[kept@.len() - 1].key@ == k);
                }
            }
            i = i + 1;
        }
        let ghost new_map = target.insert(key@, (value@, now));
        let ghost n = kept@.len();
        let ghost kept_before = kept@;
        kept.push(CacheEntry { key, value, created_at: now });
        self.entries = kept;
        self.contents = Ghost(new_map);
        assert(new_map =~= swept(old_map, now, self.ttl).insert(key@, (value@, now)));
        assert forall|a: int, b: int|
            0 <= a < b < self.entries@.len() implies #[trigger] self.entries@[a].key@
            != #[trigger] self.entries@[b].key@ by {
            assert(self.entries@[a] == kept_before[a]);
            assert(target.contains_key(kept_before[a].key@));
            if b < n {
                assert(self.entries@[b] == kept_before[b]);
                assert(origin[a] < origin[b]);
                assert(olde[origin[a]].key@ != olde[origin[b]].key@);
            }
        }
        assert forall|a: int| 0 <= a < self.entries@.len() implies new_map.contains_key(
            #[trigger] self.entries@[a].key@,
        ) && new_map[self.entries@[a].key@] == (
            self.entries@[a].value@,
            self.entries@[a].created_at,
        ) by {
            if a < n {
                assert(self.entries@[a] == kept_before[a]);
                assert(target.contains_key(kept_before[a].key@));
                let o = origin[a];
                assert(old_map[olde[o].key@] == (olde[o].value@, olde[o].created_at));
            }
        }
        assert forall|k: Seq<char>| #[trigger] new_map.contains_key(k) implies exists|i: int|
            0 <= i < self.entries@.len() && #[trigger] self.entries@[i].key@ == k by {
            if k == key@ {
                assert(self.entries@[n as int].key@ == k);
            } else {
                assert(target.contains_key(k));
                assert(old_map.contains_key(k));
                let m = choose|m: int| 0 <= m < olde.len() && #[trigger] olde[m].key@ == k;
                let j = choose|j: int|
                    0 <= j < kept_before.len() && #[trigger] kept_before[j].key@ == olde[m].key@;
                assert(self.entries@[j] == kept_before[j]);
            }
        }
    }
}

/// A value written at `now` is read back at any `later` moment less than `ttl` after the write,
/// and missed once `ttl` has passed; with a zero `ttl` it is missed at once. The write replaces
/// both value and stamp of the key.
pub proof fn lemma_read_after_write(
    before: Map<Seq<char>, (Seq<char>, u64)>,
    key: Seq<char>,
    value: Seq<char>,
    now: u64,
    later: u64,
    ttl: u64,
)
    requires
        now <= later,
    ensures
        written(before, key, value, now, ttl).contains_key(key),
        written(before, key, value, now, ttl)[key] == (value, now),
        is_fresh(written(before, key, value, now, ttl)[key].1, later, ttl) <==> later - now < ttl,
        ttl == 0 ==> !is_fresh(written(before, key, value, now, ttl)[key].1, later, ttl),
{
}

/// A write at `now` evicts every other entry whose age at `now` has reached `ttl`, and keeps
/// every other fresh entry as it was.
pub proof fn lemma_write_sweeps(
    before: Map<Seq<char>, (Seq<char>, u64)>,
    key: Seq<char>,
    value: Seq<char>,
    now: u64,
    ttl: u64,
    other: Seq<char>,
)
    requires
        other != key,
    ensures
        written(before, key, value, now, ttl).contains_key(other) <==> before.contains_key(other)
            && is_fresh(before[other].1, now, ttl),
        written(before, key, value, now, ttl).contains_key(other) ==> written(
            before,
            key,
            value,
            now,
            ttl,
        )[other] == before[other],
{
}

} // verus!
