//! Synchronized frame pump: a TU clock plus the checksums that peers compare.
use vstd::prelude::*;
use crate::core_engine::strmap::{StrMap, entries_view, lemma_pairs_map_entries};
use crate::text::owned;

verus! {

pub struct NetSyncPump {
    pub time: u32,
    pub last_verify: StrMap<i32>,
    pub error: bool,
}

/// Every checksum of `mine` is present with the same value in `theirs`.
pub open spec fn checksums_agree(mine: Map<Seq<char>, i32>, theirs: Map<Seq<char>, i32>) -> bool {
    forall|k: Seq<char>| #[trigger]
        mine.dom().contains(k) ==> theirs.dom().contains(k) && theirs[k] == mine[k]
}

impl Default for NetSyncPump {
    fn default() -> (r: Self)
        ensures
            r.time == 0,
            r.last_verify@ == Map::<Seq<char>, i32>::empty(),
            !r.error,
    {
        NetSyncPump { time: 0, last_verify: StrMap::new(), error: false }
    }
}

impl NetSyncPump {
    /// Advance the clock one TU (wrapping) and return the new time.
    pub fn tick(&mut self) -> (r: u32)
        ensures
            r == final(self).time,
            final(self).time == (if old(self).time == u32::MAX {
                0
            } else {
                old(self).time + 1
            }),
            final(self).last_verify == old(self).last_verify,
            final(self).error == old(self).error,
    {
        self.time = self.time.wrapping_add(1);
        self.time
    }

    /// Record the local checksum `val` under `key`.
    pub fn set_verify(&mut self, key: &str, val: i32)
        ensures
            final(self).last_verify@ == old(self).last_verify@.insert(key@, val),
            final(self).time == old(self).time,
            final(self).error == old(self).error,
    {
        self.last_verify.insert(owned(key), val);
    }

    /// Whether every local checksum matches the peer's; a mismatch sets `error`.
    pub fn compare(&mut self, other: &StrMap<i32>) -> (r: bool)
        ensures
            r == checksums_agree(old(self).last_verify@, other@),
            final(self).error == (old(self).error || !r),
            final(self).time == old(self).time,
            final(self).last_verify == old(self).last_verify,
    {
        let ok = checksums_match(&self.last_verify, other);
        if !ok {
            self.error = true;
        }
        ok
    }
}

/// Whether every checksum of `mine` is present with the same value in `theirs`.
fn checksums_match(mine: &StrMap<i32>, theirs: &StrMap<i32>) -> (r: bool)
    ensures
        r == checksums_agree(mine@, theirs@),
{
    let entries = mine.entries();
    let ghost s = mine.pairs();
    proof {
        lemma_pairs_map_entries(s);
    }
    let mut i: usize = 0;
    while i < entries.len()
        invariant
            i <= entries@.len(),
            entries_view(entries@) == s,
            crate::core_engine::strmap::pairs_map(s) == mine@,
            forall|j: int| #![trigger s[j]]
                0 <= j < s.len() ==> mine@.dom().contains(s[j].0) && mine@[s[j].0] == s[j].1,
            forall|k: Seq<char>| #[trigger]
                mine@.dom().contains(k) ==> exists|j: int| 0 <= j < s.len() && #[trigger] s[j].0 == k,
            forall|j: int| #![trigger s[j]]
                0 <= j < i ==> theirs@.dom().contains(s[j].0) && theirs@[s[j].0] == s[j].1,
        decreases entries@.len() - i,
    {
        let (k, v) = &entries[i];
        assert(s[i as int] == (k@, *v));
        match theirs.get(k.as_str()) {
            Some(ov) => {
                if *ov != *v {
                    return false;
                }
            },
            None => {
                return false;
            },
        }
        i = i + 1;
    }
    proof {
        assert forall|k: Seq<char>| #[trigger] mine@.dom().contains(k) implies theirs@.dom().contains(
            k,
        ) && theirs@[k] == mine@[k] by {
            let j = choose|j: int| 0 <= j < s.len() && #[trigger] s[j].0 == k;
            assert(s[j].0 == k);
        }
    }
    true
}

} // verus!

verus! {

/// A set of checksums always agrees with itself, and agreement with a peer
/// that holds more checksums only needs the local ones.
pub proof fn law_checksums_agree_with_self(m: Map<Seq<char>, i32>, k: Seq<char>, v: i32)
    ensures
        checksums_agree(m, m),
        !m.dom().contains(k) ==> checksums_agree(m, m.insert(k, v)),
{
}

} // verus!
