//! Combo decoder: keeps the recent key actions and names the combo they end with.
use vstd::prelude::*;
use std::collections::VecDeque;
use crate::text::owned;

verus! {

/// The most actions the decoder remembers.
pub const HISTORY_LIMIT: usize = 16;

#[derive(Clone, Debug)]
pub struct ComboDef {
    pub name: String,
    pub seq: Vec<String>,
    pub clear_on_combo: bool,
}

pub struct ComboDecoder {
    combos: Vec<ComboDef>,
    history: VecDeque<(String, u32)>,
    timeout: u32,
    age: u32,
}

/// The characters of each string.
pub open spec fn strings_view(v: Seq<String>) -> Seq<Seq<char>> {
    v.map_values(|s: String| s@)
}

/// Each remembered action as its characters, with the age at which it was fed.
pub open spec fn history_view(h: Seq<(String, u32)>) -> Seq<(Seq<char>, u32)> {
    h.map_values(|p: (String, u32)| (p.0@, p.1))
}

/// The remembered actions, oldest first.
pub open spec fn actions_of(h: Seq<(Seq<char>, u32)>) -> Seq<Seq<char>> {
    h.map_values(|p: (Seq<char>, u32)| p.0)
}

/// A combo matches when it is non-empty and the latest actions are exactly its sequence.
pub open spec fn combo_matches(c: ComboDef, acts: Seq<Seq<char>>) -> bool {
    let sq = strings_view(c.seq@);
    &&& sq.len() > 0
    &&& sq.len() <= acts.len()
    &&& acts.subrange(acts.len() - sq.len(), acts.len() as int) == sq
}

/// Combo `i` is the answer: it matches, no matching combo is longer, and every
/// matching combo before it is shorter (the first of the longest wins).
pub open spec fn is_best_combo(combos: Seq<ComboDef>, acts: Seq<Seq<char>>, i: int) -> bool {
    &&& 0 <= i < combos.len()
    &&& combo_matches(combos[i], acts)
    &&& forall|j: int|
        0 <= j < combos.len() && combo_matches(#[trigger] combos[j], acts) ==> combos[j].seq@.len()
            <= combos[i].seq@.len()
    &&& forall|j: int|
        0 <= j < i && combo_matches(#[trigger] combos[j], acts) ==> combos[j].seq@.len()
            < combos[i].seq@.len()
}

/// The age an action fed at `t` has reached when the decoder's age is `age`.
pub open spec fn elapsed(age: u32, t: u32) -> int {
    if age >= t {
        age - t
    } else {
        0
    }
}

/// An action fed at `t` is forgotten once more than `timeout` TUs have elapsed.
pub open spec fn expired(age: u32, timeout: u32, t: u32) -> bool {
    elapsed(age, t) > timeout
}

impl ComboDecoder {
    /// The remembered actions with their feed ages, oldest first.
    pub closed spec fn history(&self) -> Seq<(Seq<char>, u32)> {
        history_view(self.history@)
    }

    /// The combos the decoder recognises.
    pub closed spec fn combo_defs(&self) -> Seq<ComboDef> {
        self.combos@
    }

    /// The combos the decoder recognises.
    pub fn combos(&self) -> (r: &Vec<ComboDef>)
        ensures
            r@ == self.combo_defs(),
    {
        &self.combos
    }

    /// The decoder's clock.
    pub closed spec fn age(&self) -> u32 {
        self.age
    }

    /// How many TUs an action is remembered for.
    pub closed spec fn timeout(&self) -> u32 {
        self.timeout
    }

    pub fn new(combos: Vec<ComboDef>, timeout: u32) -> (r: Self)
        ensures
            r.combo_defs() == combos@,
            r.history() == Seq::<(Seq<char>, u32)>::empty(),
            r.timeout() == timeout,
            r.age() == 0,
    {
        let r = ComboDecoder { combos, history: VecDeque::new(), timeout, age: 0 };
        assert(r.history() =~= Seq::<(Seq<char>, u32)>::empty());
        r
    }

    /// One TU: the clock advances (saturating) and the expired actions at the front are forgotten.
    pub fn tick(&mut self)
        ensures
            final(self).age() == (if old(self).age() == u32::MAX {
                u32::MAX
            } else {
                (old(self).age() + 1) as u32
            }),
            final(self).timeout() == old(self).timeout(),
            final(self).combo_defs() == old(self).combo_defs(),
            exists|k: int|
                0 <= k <= old(self).history().len() && final(self).history() == old(
                    self,
                ).history().skip(k) && (forall|j: int|
                    0 <= j < k ==> expired(
                        final(self).age(),
                        old(self).timeout(),
                        #[trigger] old(self).history()[j].1,
                    )) && (k < old(self).history().len() ==> !expired(
                    final(self).age(),
                    old(self).timeout(),
                    old(self).history()[k].1,
                )),
    {
        let ghost h0 = self.history();
        self.age = self.age.saturating_add(1);
        let ghost mut k: int = 0;
        let ghost age1 = self.age;
        let ghost timeout0 = self.timeout;
        let ghost combos0 = self.combos@;
        while self.history.len() > 0
            invariant
                self.age == age1,
                self.timeout == timeout0,
                self.combos@ == combos0,
                0 <= k <= h0.len(),
                self.history@.len() == h0.len() - k,
                self.history() == h0.skip(k),
                forall|j: int| 0 <= j < k ==> expired(self.age, self.timeout, #[trigger] h0[j].1),
            ensures
                self.age == age1,
                self.timeout == timeout0,
                self.combos@ == combos0,
                0 <= k <= h0.len(),
                self.history() == h0.skip(k),
                forall|j: int| 0 <= j < k ==> expired(self.age, self.timeout, #[trigger] h0[j].1),
                k < h0.len() ==> !expired(self.age, self.timeout, h0[k].1),
            decreases self.history@.len(),
        {
            let t = self.history[0].1;
            assert(self.history()[0] == h0.skip(k)[0]);
            assert(self.history()[0].1 == t);
            if self.age.saturating_sub(t) > self.timeout {
                let ghost before = self.history@;
                self.history.pop_front();
                proof {
                    assert(history_view(before) == h0.skip(k));
                    assert forall|i: int| 0 <= i < self.history@.len() implies self.history()[i]
                        == h0.skip(k + 1)[i] by {
                        assert(self.history@[i] == before[i + 1]);
                        assert(history_view(before)[i + 1] == h0.skip(k)[i + 1]);
                    }
                    k = k + 1;
                    assert(self.history() =~= h0.skip(k));
                }
            } else {
                break;
            }
        }
    }

    /// Remember `action`; the oldest action is forgotten beyond the history limit.
    pub fn feed(&mut self, action: &str)
        ensures
            final(self).history() == fed(old(self).history(), action@, old(self).age()),
            final(self).age() == old(self).age(),
            final(self).timeout() == old(self).timeout(),
            final(self).combo_defs() == old(self).combo_defs(),
    {
        let ghost h0 = self.history();
        self.history.push_back((owned(action), self.age));
        assert(self.history() =~= h0.push((action@, self.age)));
        if self.history.len() > HISTORY_LIMIT {
            self.history.pop_front();
            assert(self.history() =~= h0.push((action@, self.age)).drop_first());
        }
    }

    /// The name of the longest combo that the latest actions complete
    /// (the first one listed among equally long ones), if any.
    pub fn match_combo(&self) -> (r: Option<String>)
        ensures
            r is None ==> forall|i: int|
                0 <= i < self.combo_defs().len() ==> !combo_matches(
                    #[trigger] self.combo_defs()[i],
                    actions_of(self.history()),
                ),
            r matches Some(n) ==> exists|i: int|
                is_best_combo(self.combo_defs(), actions_of(self.history()), i)
                    && #[trigger] self.combo_defs()[i].name@ == n@,
    {
        let ghost acts = actions_of(self.history());
        let mut best: Option<(usize, usize)> = None;
        let mut ci: usize = 0;
        while ci < self.combos.len()
            invariant
                ci <= self.combos@.len(),
                acts == actions_of(self.history()),
                match best {
                    None => forall|j: int|
                        0 <= j < ci ==> !combo_matches(#[trigger] self.combos@[j], acts),
                    Some((score, bi)) => {
                        &&& bi < ci
                        &&& combo_matches(self.combos@[bi as int], acts)
                        &&& score == self.combos@[bi as int].seq@.len()
                        &&& forall|j: int|
                            0 <= j < ci && combo_matches(#[trigger] self.combos@[j], acts)
                                ==> self.combos@[j].seq@.len() <= score
                        &&& forall|j: int|
                            0 <= j < bi && combo_matches(#[trigger] self.combos@[j], acts)
                                ==> self.combos@[j].seq@.len() < score
                    },
                },
            decreases self.combos@.len() - ci,
        {
            let c = &self.combos[ci];
            if self.ends_with(&c.seq) {
                let score = c.seq.len();
                let better = match best {
                    None => true,
                    Some((s, _)) => score > s,
                };
                if better {
                    best = Some((score, ci));
                }
            }
            ci = ci + 1;
        }
        match best {
            None => {
                assert forall|i: int| 0 <= i < self.combo_defs().len() implies !combo_matches(
                    #[trigger] self.combo_defs()[i],
                    actions_of(self.history()),
                ) by {
                    assert(!combo_matches(self.combos@[i], acts));
                }
                None
            },
            Some((_, bi)) => {
                let n = self.combos[bi].name.clone();
                assert(is_best_combo(self.combos@, acts, bi as int));
                assert(is_best_combo(self.combo_defs(), actions_of(self.history()), bi as int));
                assert(self.combo_defs()[bi as int].name@ == n@);
                Some(n)
            },
        }
    }

    /// Whether `seq` is non-empty and the latest actions are exactly `seq`.
    fn ends_with(&self, seq: &Vec<String>) -> (r: bool)
        ensures
            r == (strings_view(seq@).len() > 0 && strings_view(seq@).len() <= actions_of(
                self.history(),
            ).len() && actions_of(self.history()).subrange(
                actions_of(self.history()).len() - strings_view(seq@).len(),
                actions_of(self.history()).len() as int,
            ) == strings_view(seq@)),
    {
        let ghost acts = actions_of(self.history());
        let slen = seq.len();
        let hlen = self.history.len();
        if slen == 0 || hlen < slen {
            return false;
        }
        let base = hlen - slen;
        let mut j: usize = 0;
        while j < slen
            invariant
                slen == seq@.len(),
                hlen == self.history@.len(),
                base + slen == hlen,
                j <= slen,
                acts == actions_of(self.history()),
                forall|x: int| 0 <= x < j ==> acts[base + x] == #[trigger] strings_view(seq@)[x],
            decreases slen - j,
        {
            if self.history[base + j].0 != seq[j] {
                assert(acts.subrange(base as int, hlen as int)[j as int] != strings_view(seq@)[j as int]);
                return false;
            }
            j = j + 1;
        }
        assert(acts.subrange(base as int, hlen as int) =~= strings_view(seq@));
        true
    }

    /// Forget every remembered action.
    pub fn clear(&mut self)
        ensures
            final(self).history() == Seq::<(Seq<char>, u32)>::empty(),
            final(self).age() == old(self).age(),
            final(self).timeout() == old(self).timeout(),
            final(self).combo_defs() == old(self).combo_defs(),
    {
        self.history.clear();
        assert(self.history() =~= Seq::<(Seq<char>, u32)>::empty());
    }
}

/// The history after feeding `a` at age `age`.
pub open spec fn fed(h: Seq<(Seq<char>, u32)>, a: Seq<char>, age: u32) -> Seq<(Seq<char>, u32)> {
    if h.len() + 1 > HISTORY_LIMIT {
        h.push((a, age)).drop_first()
    } else {
        h.push((a, age))
    }
}

/// The history after feeding each action of `acts` in turn at age `age`.
pub open spec fn fed_all(h: Seq<(Seq<char>, u32)>, acts: Seq<Seq<char>>, age: u32) -> Seq<
    (Seq<char>, u32),
>
    decreases acts.len(),
{
    if acts.len() == 0 {
        h
    } else {
        fed(fed_all(h, acts.drop_last(), age), acts.last(), age)
    }
}

/// The remembered actions end with `acts`.
pub open spec fn ends_with_actions(h: Seq<(Seq<char>, u32)>, acts: Seq<Seq<char>>) -> bool {
    &&& acts.len() <= h.len()
    &&& actions_of(h).subrange(h.len() - acts.len(), h.len() as int) == acts
}

/// Feeding never lets the history grow beyond its limit, and the latest
/// (up to the limit) actions fed are exactly the end of the history.
pub proof fn law_fed_actions_end_history(h: Seq<(Seq<char>, u32)>, acts: Seq<Seq<char>>, age: u32)
    requires
        h.len() <= HISTORY_LIMIT,
        acts.len() <= HISTORY_LIMIT,
    ensures
        fed_all(h, acts, age).len() <= HISTORY_LIMIT,
        ends_with_actions(fed_all(h, acts, age), acts),
    decreases acts.len(),
{
    if acts.len() == 0 {
        assert(actions_of(h).subrange(h.len() as int, h.len() as int) =~= acts);
    } else {
        let prev = acts.drop_last();
        law_fed_actions_end_history(h, prev, age);
        let h1 = fed_all(h, prev, age);
        let h2 = fed(h1, acts.last(), age);
        let p = h1.push((acts.last(), age));
        assert(actions_of(p).subrange(p.len() - acts.len(), p.len() as int) =~= acts) by {
            assert forall|i: int| 0 <= i < acts.len() implies actions_of(p).subrange(
                p.len() - acts.len(),
                p.len() as int,
            )[i] == acts[i] by {
                if i < acts.len() - 1 {
                    assert(actions_of(h1).subrange(h1.len() - prev.len(), h1.len() as int)[i]
                        == prev[i]);
                }
            }
        }
        if h1.len() + 1 > HISTORY_LIMIT {
            assert(actions_of(h2).subrange(h2.len() - acts.len(), h2.len() as int) =~= acts) by {
                assert forall|i: int| 0 <= i < acts.len() implies actions_of(h2).subrange(
                    h2.len() - acts.len(),
                    h2.len() as int,
                )[i] == acts[i] by {
                    assert(h2[h2.len() - acts.len() + i] == p[p.len() - acts.len() + i]);
                    assert(actions_of(p).subrange(p.len() - acts.len(), p.len() as int)[i] == acts[i]);
                }
            }
        }
    }
}

/// A combo whose key sequence was just fed (with no clock tick in between) matches.
pub proof fn law_fed_combo_matches(
    h: Seq<(Seq<char>, u32)>,
    c: ComboDef,
    age: u32,
)
    requires
        h.len() <= HISTORY_LIMIT,
        0 < c.seq@.len() <= HISTORY_LIMIT,
    ensures
        combo_matches(c, actions_of(fed_all(h, strings_view(c.seq@), age))),
{
    let acts = strings_view(c.seq@);
    law_fed_actions_end_history(h, acts, age);
    let f = fed_all(h, acts, age);
    assert(actions_of(f).len() == f.len());
}

/// With nothing remembered, no combo matches.
pub proof fn law_empty_history_matches_nothing(c: ComboDef)
    ensures
        !combo_matches(c, actions_of(Seq::<(Seq<char>, u32)>::empty())),
{
}

} // verus!
