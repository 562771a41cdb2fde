//! Controller recorder: records key streams and plays them back TU by TU.
use vstd::prelude::*;
use std::collections::VecDeque;
use crate::text::{owned, copy_string};

verus! {

#[derive(Clone, Debug)]
pub struct RecEvent {
    pub tu: u32,
    pub action: String,
    pub down: bool,
}

impl View for RecEvent {
    type V = (u32, Seq<char>, bool);

    open spec fn view(&self) -> (u32, Seq<char>, bool) {
        (self.tu, self.action@, self.down)
    }
}

pub struct ControllerRecorder {
    recording: bool,
    playing: bool,
    events: Vec<RecEvent>,
    play_idx: usize,
    queue: VecDeque<RecEvent>,
}

/// Each event as (TU, action characters, pressed).
pub open spec fn events_view(s: Seq<RecEvent>) -> Seq<(u32, Seq<char>, bool)> {
    s.map_values(|e: RecEvent| e@)
}

/// The keys held after one event: a press is added, a release removes every press of that action.
pub open spec fn apply_event(held: Seq<(u32, Seq<char>, bool)>, e: (u32, Seq<char>, bool)) -> Seq<
    (u32, Seq<char>, bool),
> {
    if e.2 {
        held.push(e)
    } else {
        held.filter(|q: (u32, Seq<char>, bool)| q.1 != e.1)
    }
}

/// The keys held after a run of events, applied in order.
pub open spec fn apply_events(held: Seq<(u32, Seq<char>, bool)>, es: Seq<(u32, Seq<char>, bool)>) -> Seq<
    (u32, Seq<char>, bool),
>
    decreases es.len(),
{
    if es.len() == 0 {
        held
    } else {
        apply_event(apply_events(held, es.drop_last()), es.last())
    }
}

/// Where playback stops for time `tu` when it resumes at `from`: the first event
/// at or after `from` that lies after `tu`, or the end.
pub open spec fn stop_index(events: Seq<(u32, Seq<char>, bool)>, from: int, tu: u32) -> int
    recommends
        0 <= from,
    decreases events.len() - from,
    when 0 <= from
{
    if from >= events.len() {
        from
    } else if events[from].0 > tu {
        from
    } else {
        stop_index(events, from + 1, tu)
    }
}

/// The actions of the held keys, in the order they were pressed.
pub open spec fn held_actions(held: Seq<(u32, Seq<char>, bool)>) -> Seq<Seq<char>> {
    held.map_values(|q: (u32, Seq<char>, bool)| q.1)
}

/// Applying two runs of events one after the other is applying them together.
pub proof fn lemma_apply_events_concat(
    held: Seq<(u32, Seq<char>, bool)>,
    a: Seq<(u32, Seq<char>, bool)>,
    b: Seq<(u32, Seq<char>, bool)>,
)
    ensures
        apply_events(apply_events(held, a), b) == apply_events(held, a + b),
    decreases b.len(),
{
    if b.len() == 0 {
        assert(a + b =~= a);
    } else {
        lemma_apply_events_concat(held, a, b.drop_last());
        assert((a + b).drop_last() =~= a + b.drop_last());
        assert((a + b).last() == b.last());
    }
}

/// Playback stops at or after where it resumes, and never beyond the end.
pub proof fn lemma_stop_index_bounds(events: Seq<(u32, Seq<char>, bool)>, from: int, tu: u32)
    requires
        0 <= from <= events.len(),
    ensures
        from <= stop_index(events, from, tu) <= events.len(),
        forall|j: int| from <= j < stop_index(events, from, tu) ==> events[j].0 <= tu,
        stop_index(events, from, tu) < events.len() ==> events[stop_index(events, from, tu)].0 > tu,
    decreases events.len() - from,
{
    if from < events.len() && events[from].0 <= tu {
        lemma_stop_index_bounds(events, from + 1, tu);
    }
}

/// Resuming at a later point that playback for `t2` would pass anyway does not change where it stops.
proof fn lemma_stop_index_resume(events: Seq<(u32, Seq<char>, bool)>, from: int, mid: int, tu: u32)
    requires
        0 <= from <= mid <= events.len(),
        forall|j: int| from <= j < mid ==> events[j].0 <= tu,
    ensures
        stop_index(events, mid, tu) == stop_index(events, from, tu),
    decreases mid - from,
{
    if from < mid {
        lemma_stop_index_resume(events, from + 1, mid, tu);
    }
}

/// Playing back in steps (time `t1`, then a later time `t2`) consumes the same events
/// and leaves the same keys held as playing back to `t2` at once.
pub proof fn law_playback_in_steps(
    events: Seq<(u32, Seq<char>, bool)>,
    from: int,
    held: Seq<(u32, Seq<char>, bool)>,
    t1: u32,
    t2: u32,
)
    requires
        0 <= from <= events.len(),
        t1 <= t2,
    ensures
        ({
            let k1 = stop_index(events, from, t1);
            let k2 = stop_index(events, k1, t2);
            &&& k2 == stop_index(events, from, t2)
            &&& apply_events(apply_events(held, events.subrange(from, k1)), events.subrange(k1, k2))
                == apply_events(held, events.subrange(from, k2))
        }),
{
    let k1 = stop_index(events, from, t1);
    lemma_stop_index_bounds(events, from, t1);
    lemma_stop_index_resume(events, from, k1, t2);
    let k2 = stop_index(events, k1, t2);
    lemma_stop_index_bounds(events, k1, t2);
    lemma_apply_events_concat(held, events.subrange(from, k1), events.subrange(k1, k2));
    assert(events.subrange(from, k1) + events.subrange(k1, k2) =~= events.subrange(from, k2));
}

/// After a release of an action, no press of that action is held; after a press, it is the
/// latest held key.
pub proof fn law_release_and_press(held: Seq<(u32, Seq<char>, bool)>, e: (u32, Seq<char>, bool))
    ensures
        !e.2 ==> forall|i: int|
            0 <= i < apply_event(held, e).len() ==> (#[trigger] apply_event(held, e)[i]).1 != e.1,
        e.2 ==> apply_event(held, e).last() == e,
{
    if !e.2 {
        let p = |q: (u32, Seq<char>, bool)| q.1 != e.1;
        assert forall|i: int| 0 <= i < apply_event(held, e).len() implies (#[trigger] apply_event(
            held,
            e,
        )[i]).1 != e.1 by {
            held.lemma_filter_pred(p, i);
        }
    }
}

/// Whether some event of `rest` releases `action`.
pub open spec fn released_in(rest: Seq<(u32, Seq<char>, bool)>, action: Seq<char>) -> bool {
    exists|j: int| 0 <= j < rest.len() && !(#[trigger] rest[j]).2 && rest[j].1 == action
}

/// The presses of `es` that no later event of `es` releases, in order.
pub open spec fn unreleased_presses(es: Seq<(u32, Seq<char>, bool)>) -> Seq<(u32, Seq<char>, bool)>
    decreases es.len(),
{
    if es.len() == 0 {
        es
    } else {
        let rest = es.drop_first();
        let head = if es[0].2 && !released_in(rest, es[0].1) {
            seq![es[0]]
        } else {
            Seq::empty()
        };
        head + unreleased_presses(rest)
    }
}

/// A press appended last is held, after everything held before it.
proof fn lemma_unreleased_push_press(es: Seq<(u32, Seq<char>, bool)>, e: (u32, Seq<char>, bool))
    requires
        e.2,
    ensures
        unreleased_presses(es.push(e)) == unreleased_presses(es).push(e),
    decreases es.len(),
{
    let es2 = es.push(e);
    if es.len() == 0 {
        assert(es2.drop_first() =~= Seq::<(u32, Seq<char>, bool)>::empty());
        assert(!released_in(es2.drop_first(), e.1));
        assert(unreleased_presses(es2.drop_first()) == es2.drop_first());
        assert(unreleased_presses(es2) =~= seq![e]);
        assert(unreleased_presses(es) =~= es);
        assert(unreleased_presses(es).push(e) =~= seq![e]);
    } else {
        let tail = es.drop_first();
        assert(es2.drop_first() =~= tail.push(e));
        assert(es2[0] == es[0]);
        assert(released_in(tail.push(e), es[0].1) == released_in(tail, es[0].1)) by {
            if released_in(tail.push(e), es[0].1) {
                let j = choose|j: int|
                    0 <= j < tail.push(e).len() && !(#[trigger] tail.push(e)[j]).2 && tail.push(
                        e,
                    )[j].1 == es[0].1;
                assert(j < tail.len());
                assert(tail[j] == tail.push(e)[j]);
            }
            if released_in(tail, es[0].1) {
                let j = choose|j: int|
                    0 <= j < tail.len() && !(#[trigger] tail[j]).2 && tail[j].1 == es[0].1;
                assert(tail.push(e)[j] == tail[j]);
            }
        }
        lemma_unreleased_push_press(tail, e);
        let head = if es[0].2 && !released_in(tail, es[0].1) {
            seq![es[0]]
        } else {
            Seq::empty()
        };
        assert(unreleased_presses(es2) == head + unreleased_presses(tail.push(e)));
        assert(unreleased_presses(es) == head + unreleased_presses(tail));
        assert(head + unreleased_presses(tail).push(e) =~= (head + unreleased_presses(tail)).push(e));
    }
}

/// A release appended last drops every held press of its action.
proof fn lemma_unreleased_push_release(es: Seq<(u32, Seq<char>, bool)>, e: (u32, Seq<char>, bool))
    requires
        !e.2,
    ensures
        unreleased_presses(es.push(e)) == unreleased_presses(es).filter(
            |q: (u32, Seq<char>, bool)| q.1 != e.1,
        ),
    decreases es.len(),
{
    let p = |q: (u32, Seq<char>, bool)| q.1 != e.1;
    let es2 = es.push(e);
    if es.len() == 0 {
        assert(es2.drop_first() =~= Seq::<(u32, Seq<char>, bool)>::empty());
        assert(unreleased_presses(es2.drop_first()) == es2.drop_first());
        assert(unreleased_presses(es2) =~= Seq::<(u32, Seq<char>, bool)>::empty());
        assert(unreleased_presses(es) =~= es);
        assert(es.filter(p) =~= Seq::<(u32, Seq<char>, bool)>::empty()) by {
            reveal(Seq::filter);
        }
    } else {
        let tail = es.drop_first();
        let x = es[0];
        assert(es2.drop_first() =~= tail.push(e));
        assert(es2[0] == x);
        assert(released_in(tail.push(e), x.1) == (released_in(tail, x.1) || x.1 == e.1)) by {
            if released_in(tail.push(e), x.1) {
                let j = choose|j: int|
                    0 <= j < tail.push(e).len() && !(#[trigger] tail.push(e)[j]).2 && tail.push(
                        e,
                    )[j].1 == x.1;
                if j < tail.len() {
                    assert(tail[j] == tail.push(e)[j]);
                }
            }
            if released_in(tail, x.1) {
                let j = choose|j: int| 0 <= j < tail.len() && !(#[trigger] tail[j]).2 && tail[j].1 == x.1;
                assert(tail.push(e)[j] == tail[j]);
            }
            if x.1 == e.1 {
                assert(tail.push(e)[tail.len() as int] == e);
            }
        }
        lemma_unreleased_push_release(tail, e);
        let head = if x.2 && !released_in(tail, x.1) {
            seq![x]
        } else {
            Seq::empty()
        };
        let head2 = if x.2 && !released_in(tail.push(e), x.1) {
            seq![x]
        } else {
            Seq::empty()
        };
        assert(head2 =~= head.filter(p)) by {
            let none = Seq::<(u32, Seq<char>, bool)>::empty();
            assert(none.filter(p) =~= none);
            if head.len() == 1 {
                assert(head =~= none.push(x));
                none.lemma_filter_push(x, p);
            }
        }
        assert(unreleased_presses(es2) == head2 + unreleased_presses(tail.push(e)));
        assert(unreleased_presses(es) == head + unreleased_presses(tail));
        Seq::filter_distributes_over_add(head, unreleased_presses(tail), p);
    }
}

/// What playback holds after a run of events, starting from nothing held, is every
/// press of the run that no later event of the run releases, in the order pressed.
pub proof fn law_held_are_unreleased_presses(es: Seq<(u32, Seq<char>, bool)>)
    ensures
        apply_events(Seq::empty(), es) == unreleased_presses(es),
    decreases es.len(),
{
    if es.len() == 0 {
        assert(unreleased_presses(es) =~= Seq::<(u32, Seq<char>, bool)>::empty());
    } else {
        let init = es.drop_last();
        law_held_are_unreleased_presses(init);
        assert(init.push(es.last()) =~= es);
        if es.last().2 {
            lemma_unreleased_push_press(init, es.last());
        } else {
            lemma_unreleased_push_release(init, es.last());
        }
    }
}

/// Since playback started, the keys held at time `t` are the presses among the events up
/// to `t` that no later one of those events releases; every one of those events lies at
/// or before `t`.
pub proof fn law_keys_held_at(events: Seq<(u32, Seq<char>, bool)>, t: u32)
    ensures
        ({
            let k = stop_index(events, 0, t);
            &&& apply_events(Seq::empty(), events.subrange(0, k)) == unreleased_presses(
                events.subrange(0, k),
            )
            &&& forall|j: int| 0 <= j < k ==> events[j].0 <= t
        }),
{
    lemma_stop_index_bounds(events, 0, t);
    law_held_are_unreleased_presses(events.subrange(0, stop_index(events, 0, t)));
}

/// Since playback started, after reading the keys at `t1` and then at a later `t2`, the keys
/// held are the presses among the events up to `t2` that none of those events releases.
pub proof fn law_keys_held_after_two_reads(events: Seq<(u32, Seq<char>, bool)>, t1: u32, t2: u32)
    requires
        t1 <= t2,
    ensures
        ({
            let k1 = stop_index(events, 0, t1);
            let k2 = stop_index(events, k1, t2);
            apply_events(apply_events(Seq::empty(), events.subrange(0, k1)), events.subrange(k1, k2))
                == unreleased_presses(events.subrange(0, stop_index(events, 0, t2)))
        }),
{
    law_playback_in_steps(events, 0, Seq::empty(), t1, t2);
    law_keys_held_at(events, t2);
}

impl Default for ControllerRecorder {
    fn default() -> (r: Self)
        ensures
            !r.is_recording(),
            !r.is_playing(),
            r.recorded() == Seq::<(u32, Seq<char>, bool)>::empty(),
            r.play_position() == 0,
            r.held() == Seq::<(u32, Seq<char>, bool)>::empty(),
    {
        let r = ControllerRecorder {
            recording: false,
            playing: false,
            events: Vec::new(),
            play_idx: 0,
            queue: VecDeque::new(),
        };
        assert(r.recorded() =~= Seq::<(u32, Seq<char>, bool)>::empty());
        assert(r.held() =~= Seq::<(u32, Seq<char>, bool)>::empty());
        r
    }
}

impl ControllerRecorder {
    pub closed spec fn is_recording(&self) -> bool {
        self.recording
    }

    pub closed spec fn is_playing(&self) -> bool {
        self.playing
    }

    /// The recorded events.
    pub closed spec fn recorded(&self) -> Seq<(u32, Seq<char>, bool)> {
        events_view(self.events@)
    }

    /// How many recorded events playback has consumed.
    pub closed spec fn play_position(&self) -> int {
        self.play_idx as int
    }

    /// The presses currently held by playback.
    pub closed spec fn held(&self) -> Seq<(u32, Seq<char>, bool)> {
        events_view(self.queue@)
    }

    /// Whether the recorder records.
    pub fn recording(&self) -> (r: bool)
        ensures
            r == self.is_recording(),
    {
        self.recording
    }

    /// Whether the recorder plays back.
    pub fn playing(&self) -> (r: bool)
        ensures
            r == self.is_playing(),
    {
        self.playing
    }

    /// The recorded events.
    pub fn events(&self) -> (r: &Vec<RecEvent>)
        ensures
            events_view(r@) == self.recorded(),
    {
        &self.events
    }

    pub fn start_record(&mut self)
        ensures
            final(self).is_recording(),
            !final(self).is_playing(),
            final(self).recorded() == Seq::<(u32, Seq<char>, bool)>::empty(),
            final(self).play_position() == old(self).play_position(),
            final(self).held() == old(self).held(),
    {
        self.recording = true;
        self.playing = false;
        self.events.clear();
        assert(self.recorded() =~= Seq::<(u32, Seq<char>, bool)>::empty());
    }

    pub fn stop_record(&mut self)
        ensures
            !final(self).is_recording(),
            final(self).is_playing() == old(self).is_playing(),
            final(self).recorded() == old(self).recorded(),
            final(self).play_position() == old(self).play_position(),
            final(self).held() == old(self).held(),
    {
        self.recording = false;
    }

    /// While recording, append the event (`tu`, `action`, `down`).
    pub fn record(&mut self, tu: u32, action: &str, down: bool)
        ensures
            final(self).recorded() == (if old(self).is_recording() {
                old(self).recorded().push((tu, action@, down))
            } else {
                old(self).recorded()
            }),
            final(self).is_recording() == old(self).is_recording(),
            final(self).is_playing() == old(self).is_playing(),
            final(self).play_position() == old(self).play_position(),
            final(self).held() == old(self).held(),
    {
        if self.recording {
            let ghost r0 = self.recorded();
            self.events.push(RecEvent { tu, action: owned(action), down });
            assert(self.recorded() =~= r0.push((tu, action@, down)));
        }
    }

    pub fn start_playback(&mut self)
        ensures
            final(self).is_playing(),
            !final(self).is_recording(),
            final(self).recorded() == old(self).recorded(),
            final(self).play_position() == 0,
            final(self).held() == Seq::<(u32, Seq<char>, bool)>::empty(),
    {
        self.playing = true;
        self.recording = false;
        self.play_idx = 0;
        self.queue.clear();
        assert(self.held() =~= Seq::<(u32, Seq<char>, bool)>::empty());
    }

    /// The keys that are down at time `tu`: playback consumes every event up to
    /// `tu` and returns the actions still pressed, in the order they were pressed.
    pub fn keys_at(&mut self, tu: u32) -> (r: Vec<String>)
        ensures
            final(self).is_playing() == old(self).is_playing(),
            final(self).is_recording() == old(self).is_recording(),
            final(self).recorded() == old(self).recorded(),
            !old(self).is_playing() ==> r@.len() == 0 && final(self).play_position()
                == old(self).play_position() && final(self).held() == old(self).held(),
            old(self).is_playing() && old(self).play_position() > old(self).recorded().len() ==> {
                &&& final(self).play_position() == old(self).play_position()
                &&& final(self).held() == old(self).held()
                &&& r@.map_values(|s: String| s@) == held_actions(old(self).held())
            },
            old(self).is_playing() && old(self).play_position() <= old(self).recorded().len() ==> {
                let k = stop_index(old(self).recorded(), old(self).play_position(), tu);
                &&& final(self).play_position() == k
                &&& final(self).held() == apply_events(
                    old(self).held(),
                    old(self).recorded().subrange(old(self).play_position(), k),
                )
                &&& r@.map_values(|s: String| s@) == held_actions(final(self).held())
            },
            old(self).play_position() <= old(self).recorded().len() ==> final(self).play_position()
                <= final(self).recorded().len(),
    {
        if !self.playing {
            return Vec::new();
        }
        if self.play_idx <= self.events.len() {
            self.consume_until(tu);
        }
        self.held_action_names()
    }

    /// Applies every event from the play position up to time `tu`.
    fn consume_until(&mut self, tu: u32)
        requires
            old(self).play_idx <= old(self).events@.len(),
        ensures
            final(self).playing == old(self).playing,
            final(self).recording == old(self).recording,
            final(self).events == old(self).events,
            final(self).play_position() == stop_index(old(self).recorded(), old(self).play_position(), tu),
            final(self).held() == apply_events(
                old(self).held(),
                old(self).recorded().subrange(
                    old(self).play_position(),
                    stop_index(old(self).recorded(), old(self).play_position(), tu),
                ),
            ),
            final(self).play_position() <= final(self).recorded().len(),
    {
        let ghost ev = self.recorded();
        let ghost events0 = self.events;
        let ghost start = self.play_idx as int;
        let ghost h0 = self.held();
        let ghost playing0 = self.playing;
        let ghost recording0 = self.recording;
        while self.play_idx < self.events.len() && self.events[self.play_idx].tu <= tu
            invariant
                ev == self.recorded(),
                self.events == events0,
                self.playing == playing0,
                self.recording == recording0,
                0 <= start <= self.play_idx <= self.events@.len(),
                stop_index(ev, start, tu) == stop_index(ev, self.play_idx as int, tu),
                self.held() == apply_events(h0, ev.subrange(start, self.play_idx as int)),
            decreases self.events@.len() - self.play_idx,
        {
            let i = self.play_idx;
            let ghost held_before = self.held();
            let e = &self.events[i];
            assert(ev[i as int] == e@);
            if e.down {
                let copy = RecEvent { tu: e.tu, action: copy_string(&e.action), down: e.down };
                self.queue.push_back(copy);
                assert(self.held() =~= held_before.push(e@));
            } else {
                let act = copy_string(&e.action);
                self.retain_other_actions(&act);
            }
            self.play_idx = i + 1;
            proof {
                assert(ev.len() == self.events@.len());
                assert(i + 1 <= ev.len());
                assert(start <= i);
                assert(self.play_idx as int == i + 1);
                let sub = ev.subrange(start, self.play_idx as int);
                assert(sub.len() == i + 1 - start);
                assert(sub.drop_last() =~= ev.subrange(start, i as int));
                assert(sub.last() == ev[i as int]);
            }
        }
    }

    /// The actions of the held presses, in order.
    fn held_action_names(&self) -> (r: Vec<String>)
        ensures
            r@.map_values(|s: String| s@) == held_actions(self.held()),
    {
        let mut out: Vec<String> = Vec::new();
        let mut j: usize = 0;
        while j < self.queue.len()
            invariant
                j <= self.queue@.len(),
                out@.map_values(|s: String| s@) == held_actions(self.held()).subrange(0, j as int),
            decreases self.queue@.len() - j,
        {
            let ghost prev = out@.map_values(|s: String| s@);
            out.push(copy_string(&self.queue[j].action));
            assert(held_actions(self.held())[j as int] == self.queue@[j as int].action@);
            assert(out@.map_values(|s: String| s@) =~= prev.push(self.queue@[j as int].action@));
            j = j + 1;
            assert(out@.map_values(|s: String| s@) =~= held_actions(self.held()).subrange(0, j as int));
        }
        assert(held_actions(self.held()).subrange(0, j as int) =~= held_actions(self.held()));
        out
    }

    /// Drops every held press of `act`.
    fn retain_other_actions(&mut self, act: &String)
        ensures
            final(self).held() == old(self).held().filter(
                |q: (u32, Seq<char>, bool)| q.1 != act@,
            ),
            final(self).playing == old(self).playing,
            final(self).recording == old(self).recording,
            final(self).events == old(self).events,
            final(self).play_idx == old(self).play_idx,
    {
        let ghost pred = |q: (u32, Seq<char>, bool)| q.1 != act@;
        let ghost h0 = self.held();
        let mut kept: VecDeque<RecEvent> = VecDeque::new();
        let mut j: usize = 0;
        while j < self.queue.len()
            invariant
                pred == (|q: (u32, Seq<char>, bool)| q.1 != act@),
                h0 == self.held(),
                j <= self.queue@.len(),
                events_view(kept@) == h0.subrange(0, j as int).filter(pred),
            decreases self.queue@.len() - j,
        {
            let q = &self.queue[j];
            let ghost before = events_view(kept@);
            assert(h0[j as int] == q@);
            proof {
                assert(h0.subrange(0, j as int + 1) =~= h0.subrange(0, j as int).push(h0[j as int]));
                h0.subrange(0, j as int).lemma_filter_push(h0[j as int], pred);
            }
            let same = q.action == *act;
            assert(same == (q.action@ == act@));
            assert(pred(q@) == !same);
            if !same {
                kept.push_back(RecEvent { tu: q.tu, action: copy_string(&q.action), down: q.down });
                assert(events_view(kept@) =~= before.push(q@));
            }
            j = j + 1;
        }
        assert(h0.subrange(0, j as int) =~= h0);
        self.queue = kept;
    }
}

} // verus!
