//! The frame position of a living object and its frame transitions.
use vstd::prelude::*;
use std::collections::HashMap;

verus! {

broadcast use vstd::std_specs::hash::group_hash_axioms;

#[derive(Clone, Copy, Debug, PartialEq, Eq)]
pub struct FrameState {
    pub pn: i32,
    pub n: i32,
    pub wait_left: i32,
    /// lock priority for transition (higher wins)
    pub lock: i32,
}

impl Default for FrameState {
    fn default() -> (r: Self)
        ensures
            r.pn == 0,
            r.n == 0,
            r.wait_left == 0,
            r.lock == 0,
    {
        FrameState { pn: 0, n: 0, wait_left: 0, lock: 0 }
    }
}

/// What the frame logic reads of a frame: how long it lasts, the picture it shows, its
/// state, the frame after it, its mana cost, and the frame each `hit_*` tag leads to (0 for none).
#[derive(Clone, Copy, Debug, PartialEq, Eq)]
pub struct FrameInfo {
    pub wait: i32,
    pub pic: i32,
    pub state: i32,
    /// the frame that follows once the wait is over (999: frame 0, 1000: the object is gone)
    pub next: i32,
    /// the cover of the frame's catch point, if it has one
    pub cpoint_cover: Option<i32>,
    pub mp: i32,
    pub hit_a: i32,
    pub hit_d: i32,
    pub hit_j: i32,
    pub hit_fa: i32,
    pub hit_ua: i32,
    pub hit_da: i32,
    pub hit_fj: i32,
    pub hit_uj: i32,
    pub hit_dj: i32,
    pub hit_ja: i32,
}

/// The frames of an object, by frame number.
pub struct FrameTable {
    frames: HashMap<i32, FrameInfo>,
}

impl View for FrameTable {
    type V = Map<i32, FrameInfo>;

    closed spec fn view(&self) -> Map<i32, FrameInfo> {
        self.frames@
    }
}

impl FrameTable {
    pub fn new() -> (r: Self)
        ensures
            r@ == Map::<i32, FrameInfo>::empty(),
    {
        FrameTable { frames: HashMap::new() }
    }

    /// Define (or redefine) frame `n`.
    pub fn insert(&mut self, n: i32, info: FrameInfo)
        ensures
            final(self)@ == old(self)@.insert(n, info),
    {
        self.frames.insert(n, info);
    }

    /// Whether the object has frame `n`.
    pub fn contains(&self, n: i32) -> (r: bool)
        ensures
            r == self@.contains_key(n),
    {
        self.frames.contains_key(&n)
    }

    /// Frame `n`, if the object has it.
    pub fn get(&self, n: i32) -> (r: Option<FrameInfo>)
        ensures
            r == (if self@.contains_key(n) {
                Some(self@[n])
            } else {
                None::<FrameInfo>
            }),
    {
        match self.frames.get(&n) {
            Some(f) => Some(*f),
            None => None,
        }
    }
}

/// The frame a transition aims at: 999 means frame 0.
pub open spec fn target_frame(frame: i32) -> i32 {
    if frame == 999 {
        0
    } else {
        frame
    }
}

/// Whether a transition to `frame` with priority `lock` goes through: its lock is at least
/// the current one and the (non-negative) target frame exists.
pub open spec fn transition_allowed(fs: FrameState, frame: i32, lock: i32, frames: Map<i32, FrameInfo>) -> bool {
    &&& lock >= fs.lock
    &&& target_frame(frame) >= 0
    &&& frames.contains_key(target_frame(frame))
}

/// The frame position after a transition that went through.
pub open spec fn transitioned(fs: FrameState, frame: i32, lock: i32, frames: Map<i32, FrameInfo>) -> FrameState {
    let f = target_frame(frame);
    FrameState { pn: fs.n, n: f, wait_left: frames[f].wait, lock }
}

/// Move to `frame` with priority `lock`. A transition whose lock is below the current
/// one, or whose target frame is negative or missing, is refused and changes nothing.
pub fn trans_frame(fs: &mut FrameState, frame: i32, lock: i32, frames: &FrameTable) -> (ok: bool)
    ensures
        ok == transition_allowed(*old(fs), frame, lock, frames@),
        ok ==> *final(fs) == transitioned(*old(fs), frame, lock, frames@),
        !ok ==> *final(fs) == *old(fs),
{
    if lock < fs.lock {
        return false;
    }
    let f: i32 = if frame == 999 { 0 } else { frame };
    if f < 0 {
        return false;
    }
    match frames.get(f) {
        None => false,
        Some(fd) => {
            let prev = fs.n;
            fs.pn = prev;
            fs.n = f;
            fs.wait_left = fd.wait;
            fs.lock = lock;
            true
        },
    }
}

/// A refused transition leaves the frame position as it was, and a transition that goes
/// through remembers the frame it left; a lower lock never overrides a higher one.
pub proof fn law_lock_priority(fs: FrameState, frame: i32, lock: i32, frames: Map<i32, FrameInfo>)
    ensures
        lock < fs.lock ==> !transition_allowed(fs, frame, lock, frames),
        transition_allowed(fs, frame, lock, frames) ==> transitioned(fs, frame, lock, frames).pn
            == fs.n && transitioned(fs, frame, lock, frames).lock == lock,
        frame == 999 ==> transition_allowed(fs, frame, lock, frames) == transition_allowed(
            fs,
            0,
            lock,
            frames,
        ),
{
}

/// The integer state of an object that its base TU advances.
#[derive(Clone, Copy, Debug, PartialEq, Eq)]
pub struct ObjectTu {
    pub frame: FrameState,
    pub removed: bool,
    pub dead: bool,
    /// frozen by a hit (once its delay `timein` has run out)
    pub stuck: bool,
    pub blink: bool,
    /// TUs before a freeze takes hold; below 0 once it has
    pub timein: i32,
    /// TUs left of the current effect
    pub timeout: i32,
    /// TUs before the object may attack again
    pub arest: i32,
    pub attlock: i32,
    pub visible: bool,
    /// the object bounced off the ground this TU (the caller applies the bounce speed)
    pub bounced: bool,
    /// the fall sound plays this TU
    pub fall_sound: bool,
}

/// What the caller's `f64` integration found about landing this TU.
#[derive(Clone, Copy, Debug, PartialEq, Eq)]
pub struct LandingFacts {
    /// the object came down onto the ground this TU (`y >= 0` with `vy > 0`)
    pub landing: bool,
    /// it was in the air (or moving vertically) before
    pub was_air: bool,
    /// it hit the ground fast enough to bounce
    pub fast: bool,
}

/// A freeze holds once its delay has run out.
pub open spec fn effectively_stuck(o: ObjectTu) -> bool {
    o.stuck && o.timein < 0
}

/// The effect timers of one TU: the timeout counts down only once the delay had already
/// run out, and on reaching 0 ends the blink and the freeze; the delay counts down to -1.
pub open spec fn effect_timer(o: ObjectTu) -> ObjectTu {
    let o1 = if o.timein < 0 && o.timeout > 0 {
        if o.timeout - 1 == 0 {
            ObjectTu { timeout: 0, blink: false, stuck: false, ..o }
        } else {
            ObjectTu { timeout: (o.timeout - 1) as i32, ..o }
        }
    } else {
        o
    };
    if o1.timein >= 0 {
        ObjectTu { timein: (o1.timein - 1) as i32, ..o1 }
    } else {
        o1
    }
}

/// The recovery timers of one TU.
pub open spec fn recover(o: ObjectTu) -> ObjectTu {
    let o1 = effect_timer(o);
    ObjectTu {
        arest: if o1.arest > 0 {
            (o1.arest - 1) as i32
        } else {
            o1.arest
        },
        attlock: if o1.attlock > 0 {
            (o1.attlock - 1) as i32
        } else {
            o1.attlock
        },
        ..o1
    }
}

/// The `vrest` entries after one TU: each counts down, and those that reach 0 are dropped.
pub open spec fn counted_down(v: Seq<(u32, i32)>) -> Seq<(u32, i32)>
    decreases v.len(),
{
    if v.len() == 0 {
        v
    } else {
        let rest = counted_down(v.drop_last());
        let e = v.last();
        if e.1 - 1 > 0 {
            rest.push((e.0, (e.1 - 1) as i32))
        } else {
            rest
        }
    }
}

/// The state of the frame the object shows (0 when it has no such frame).
pub open spec fn state_of(frames: Map<i32, FrameInfo>, n: i32) -> i32 {
    if frames.contains_key(n) {
        frames[n].state
    } else {
        0
    }
}

/// A frame transition tried on the object.
pub open spec fn goto(o: ObjectTu, f: i32, lock: i32, frames: Map<i32, FrameInfo>) -> ObjectTu {
    if transition_allowed(o.frame, f, lock, frames) {
        ObjectTu { frame: transitioned(o.frame, f, lock, frames), ..o }
    } else {
        o
    }
}

/// The frame a landing leads to: crouch after a jump, a bounce, lying or the fall end after a
/// fall, crouch after a dash or attack in the air.
pub open spec fn landing(o: ObjectTu, l: LandingFacts, frames: Map<i32, FrameInfo>) -> ObjectTu {
    let n = o.frame.n;
    let st = state_of(frames, n);
    if !l.landing {
        o
    } else if st == 4 || n == 212 {
        goto(o, 215, 15, frames)
    } else if l.was_air && (st == 12 || 180 <= n < 190) {
        let o1 = if l.fast {
            ObjectTu { bounced: true, ..goto(o, 182, 10, frames) }
        } else if frames.contains_key(219) {
            goto(o, 219, 15, frames)
        } else if frames.contains_key(185) {
            goto(o, 185, 15, frames)
        } else {
            o
        };
        ObjectTu { fall_sound: true, ..o1 }
    } else if l.was_air && (st == 5 || st == 3) {
        goto(o, 215, 15, frames)
    } else {
        o
    }
}

/// The frame's wait counts down; once it is over the frame's `next` follows: 1000 removes
/// the object, 999 goes to frame 0 and drops the lock, another frame is taken under the
/// current lock, which then drops by one.
pub open spec fn advance(o: ObjectTu, frames: Map<i32, FrameInfo>) -> ObjectTu {
    let fs = o.frame;
    if fs.wait_left > 0 {
        ObjectTu { frame: FrameState { wait_left: (fs.wait_left - 1) as i32, ..fs }, ..o }
    } else {
        let next = if frames.contains_key(fs.n) {
            frames[fs.n].next
        } else {
            0
        };
        if next == 1000 {
            ObjectTu { removed: true, dead: true, ..o }
        } else if next == 999 {
            let o1 = goto(o, 0, 0, frames);
            ObjectTu { frame: FrameState { lock: 0, ..o1.frame }, ..o1 }
        } else if next >= 0 {
            let o1 = goto(o, next, fs.lock, frames);
            if o1.frame.lock > 0 {
                ObjectTu { frame: FrameState { lock: (o1.frame.lock - 1) as i32, ..o1.frame }, ..o1 }
            } else {
                o1
            }
        } else {
            o
        }
    }
}

/// Whether a blinking object is hidden this TU: every other pair of TUs of its timeout
/// (`(timeout / 2) % 2 == 0`, with Rust's truncating division).
pub open spec fn blink_off(timeout: i32) -> bool {
    if timeout >= 0 {
        (timeout / 2) % 2 == 0
    } else {
        ((-timeout) / 2) % 2 == 0
    }
}

/// Whether the runs of the base TU count the recovery timers (not while removed or frozen).
pub open spec fn recovers(o: ObjectTu) -> bool {
    !o.removed && !effectively_stuck(o)
}

/// One base TU of an object: nothing while removed; only the effect timers while frozen;
/// otherwise the recovery timers, the landing frame, the frame advance and the blink.
pub open spec fn object_tu_spec(o: ObjectTu, l: LandingFacts, frames: Map<i32, FrameInfo>) -> ObjectTu {
    let o0 = ObjectTu { bounced: false, fall_sound: false, ..o };
    if o.removed {
        o0
    } else if effectively_stuck(o) {
        effect_timer(o0)
    } else {
        let o3 = advance(landing(recover(o0), l, frames), frames);
        ObjectTu {
            visible: if o3.blink && blink_off(o3.timeout) {
                false
            } else {
                !o3.removed
            },
            ..o3
        }
    }
}

fn goto_exec(o: ObjectTu, f: i32, lock: i32, frames: &FrameTable) -> (r: ObjectTu)
    ensures
        r == goto(o, f, lock, frames@),
{
    let mut fs = o.frame;
    if trans_frame(&mut fs, f, lock, frames) {
        ObjectTu { frame: fs, ..o }
    } else {
        o
    }
}

fn effect_timer_exec(o: ObjectTu) -> (r: ObjectTu)
    ensures
        r == effect_timer(o),
{
    let mut o1 = o;
    if o.timein < 0 && o.timeout > 0 {
        o1.timeout = o.timeout - 1;
        if o1.timeout == 0 {
            o1.blink = false;
            o1.stuck = false;
        }
    }
    if o1.timein >= 0 {
        o1.timein = o1.timein - 1;
    }
    o1
}

fn count_down(vrest: &mut Vec<(u32, i32)>)
    requires
        forall|i: int| 0 <= i < old(vrest)@.len() ==> old(vrest)@[i].1 > i32::MIN,
    ensures
        final(vrest)@ == counted_down(old(vrest)@),
{
    let mut out: Vec<(u32, i32)> = Vec::new();
    let mut i: usize = 0;
    while i < vrest.len()
        invariant
            i <= vrest@.len(),
            forall|j: int| 0 <= j < vrest@.len() ==> vrest@[j].1 > i32::MIN,
            out@ == counted_down(vrest@.subrange(0, i as int)),
        decreases vrest@.len() - i,
    {
        let (k, v) = vrest[i];
        assert(vrest@.subrange(0, i + 1).drop_last() =~= vrest@.subrange(0, i as int));
        if v - 1 > 0 {
            out.push((k, v - 1));
        }
        i = i + 1;
    }
    assert(vrest@.subrange(0, vrest@.len() as int) =~= vrest@);
    *vrest = out;
}

fn landing_exec(o: ObjectTu, l: LandingFacts, frames: &FrameTable) -> (r: ObjectTu)
    ensures
        r == landing(o, l, frames@),
{
    let n = o.frame.n;
    let st: i32 = match frames.get(n) {
        Some(fd) => fd.state,
        None => 0,
    };
    if !l.landing {
        o
    } else if st == 4 || n == 212 {
        goto_exec(o, 215, 15, frames)
    } else if l.was_air && (st == 12 || (180 <= n && n < 190)) {
        let o1 = if l.fast {
            ObjectTu { bounced: true, ..goto_exec(o, 182, 10, frames) }
        } else if frames.contains(219) {
            goto_exec(o, 219, 15, frames)
        } else if frames.contains(185) {
            goto_exec(o, 185, 15, frames)
        } else {
            o
        };
        ObjectTu { fall_sound: true, ..o1 }
    } else if l.was_air && (st == 5 || st == 3) {
        goto_exec(o, 215, 15, frames)
    } else {
        o
    }
}

fn advance_exec(o: ObjectTu, frames: &FrameTable) -> (r: ObjectTu)
    ensures
        r == advance(o, frames@),
{
    let fs = o.frame;
    if fs.wait_left > 0 {
        ObjectTu { frame: FrameState { wait_left: fs.wait_left - 1, ..fs }, ..o }
    } else {
        let next: i32 = match frames.get(fs.n) {
            Some(fd) => fd.next,
            None => 0,
        };
        if next == 1000 {
            ObjectTu { removed: true, dead: true, ..o }
        } else if next == 999 {
            let o1 = goto_exec(o, 0, 0, frames);
            ObjectTu { frame: FrameState { lock: 0, ..o1.frame }, ..o1 }
        } else if next >= 0 {
            let o1 = goto_exec(o, next, fs.lock, frames);
            if o1.frame.lock > 0 {
                ObjectTu { frame: FrameState { lock: o1.frame.lock - 1, ..o1.frame }, ..o1 }
            } else {
                o1
            }
        } else {
            o
        }
    }
}

fn blink_off_exec(t: i32) -> (r: bool)
    ensures
        r == blink_off(t),
{
    if t >= 0 {
        (t / 2) % 2 == 0
    } else if t == i32::MIN {
        true
    } else {
        ((-t) / 2) % 2 == 0
    }
}

/// One base TU of an object's integer state. The `vrest` entries (per-attacker rest
/// counters) count down with the other recovery timers.
pub fn object_tu(o: ObjectTu, vrest: &mut Vec<(u32, i32)>, land: LandingFacts, frames: &FrameTable) -> (r: ObjectTu)
    requires
        forall|i: int| 0 <= i < old(vrest)@.len() ==> old(vrest)@[i].1 > i32::MIN,
    ensures
        r == object_tu_spec(o, land, frames@),
        final(vrest)@ == (if recovers(o) {
            counted_down(old(vrest)@)
        } else {
            old(vrest)@
        }),
{
    let o0 = ObjectTu { bounced: false, fall_sound: false, ..o };
    if o.removed {
        o0
    } else if o.stuck && o.timein < 0 {
        effect_timer_exec(o0)
    } else {
        let e = effect_timer_exec(o0);
        let o1 = ObjectTu {
            arest: if e.arest > 0 {
                e.arest - 1
            } else {
                e.arest
            },
            attlock: if e.attlock > 0 {
                e.attlock - 1
            } else {
                e.attlock
            },
            ..e
        };
        count_down(vrest);
        let o3 = advance_exec(landing_exec(o1, land, frames), frames);
        ObjectTu {
            visible: if o3.blink && blink_off_exec(o3.timeout) {
                false
            } else {
                !o3.removed
            },
            ..o3
        }
    }
}

/// The object after `k` base TUs with the same landing facts and frames.
pub open spec fn object_tus(o: ObjectTu, k: nat, l: LandingFacts, frames: Map<i32, FrameInfo>) -> ObjectTu
    decreases k,
{
    if k == 0 {
        o
    } else {
        object_tus(object_tu_spec(o, l, frames), (k - 1) as nat, l, frames)
    }
}

/// A freeze never outlasts its timeout: an object frozen with `timeout` TUs left is free
/// again after that many TUs, and from then on its TU runs in full (motion resumes).
/// While frozen its frame does not move.
pub proof fn law_stuck_clears(o: ObjectTu, l: LandingFacts, frames: Map<i32, FrameInfo>)
    requires
        !o.removed,
        effectively_stuck(o),
        o.timeout > 0,
    ensures
        !object_tus(o, o.timeout as nat, l, frames).stuck,
        recovers(object_tus(o, o.timeout as nat, l, frames)),
        object_tu_spec(o, l, frames).frame == o.frame,
    decreases o.timeout,
{
    let o1 = object_tu_spec(o, l, frames);
    assert(o1 == effect_timer(ObjectTu { bounced: false, fall_sound: false, ..o }));
    if o.timeout > 1 {
        law_stuck_clears(o1, l, frames);
        assert(object_tus(o, o.timeout as nat, l, frames) == object_tus(o1, o1.timeout as nat, l, frames));
    } else {
        assert(object_tus(o1, 0, l, frames) == o1);
    }
}

/// A removed object stays removed and its state stands still; a frame whose wait is not
/// over only counts its wait down; a frame taken as `next` lowers the lock by one.
pub proof fn law_frame_advance(o: ObjectTu, l: LandingFacts, frames: Map<i32, FrameInfo>)
    ensures
        o.removed ==> object_tu_spec(o, l, frames) == (ObjectTu { bounced: false, fall_sound: false, ..o }),
        recovers(o) && !l.landing && o.frame.wait_left > 0 ==> object_tu_spec(o, l, frames).frame
            == (FrameState { wait_left: (o.frame.wait_left - 1) as i32, ..o.frame }),
        recovers(o) && !l.landing && o.frame.wait_left <= 0 && frames.contains_key(o.frame.n)
            && 0 <= frames[o.frame.n].next < 999 && o.frame.lock > 0
            && frames.contains_key(frames[o.frame.n].next) ==> object_tu_spec(o, l, frames).frame
            == (FrameState {
                pn: o.frame.n,
                n: frames[o.frame.n].next,
                wait_left: frames[frames[o.frame.n].next].wait,
                lock: (o.frame.lock - 1) as i32,
            }),
{
}


/// A dash or an attack in the air (states 5 and 3) that lands goes to the crouch frame 215,
/// when the object has it and its lock allows; the crouch then starts counting its wait.
pub proof fn law_dash_lands_in_crouch(o: ObjectTu, l: LandingFacts, frames: Map<i32, FrameInfo>)
    requires
        !o.removed,
        !(o.stuck && o.timein < 0),
        l.landing,
        l.was_air,
        frames.contains_key(o.frame.n),
        frames[o.frame.n].state == 5 || frames[o.frame.n].state == 3,
        o.frame.n != 212,
        !(180 <= o.frame.n < 190),
        frames.contains_key(215),
        frames[215].wait > 0,
        o.frame.lock <= 15,
    ensures
        object_tu_spec(o, l, frames).frame == (FrameState {
            pn: o.frame.n,
            n: 215,
            wait_left: (frames[215].wait - 1) as i32,
            lock: 15,
        }),
{
}


/// A frame transition goes through exactly when its lock is at least the current one and its
/// target (999 meaning frame 0) is a frame the object has; it then shows the target frame,
/// remembers the frame it left, starts the target's wait and takes the new lock.
pub proof fn law_transition(fs: FrameState, f: i32, lock: i32, frames: Map<i32, FrameInfo>)
    ensures
        transition_allowed(fs, f, lock, frames) == (lock >= fs.lock && ((f == 999 && frames.contains_key(0))
            || (f != 999 && f >= 0 && frames.contains_key(f)))),
        f != 999 && transition_allowed(fs, f, lock, frames) ==> transitioned(fs, f, lock, frames) == (FrameState {
            pn: fs.n,
            n: f,
            wait_left: frames[f].wait,
            lock,
        }),
        f == 999 && transition_allowed(fs, f, lock, frames) ==> transitioned(fs, f, lock, frames) == (FrameState {
            pn: fs.n,
            n: 0,
            wait_left: frames[0].wait,
            lock,
        }),
{
}

/// The recovery timers count down to 0 and no further: the attack rest and the attack lock
/// by one each TU that the object runs in full.
pub proof fn law_rest_timers(o: ObjectTu, l: LandingFacts, frames: Map<i32, FrameInfo>)
    requires
        !o.removed,
        !(o.stuck && o.timein < 0),
    ensures
        object_tu_spec(o, l, frames).arest == (if o.arest > 0 { o.arest - 1 } else { o.arest as int }),
        object_tu_spec(o, l, frames).attlock == (if o.attlock > 0 { o.attlock - 1 } else { o.attlock as int }),
        object_tu_spec(o, l, frames).timein == (if o.timein >= 0 { o.timein - 1 } else { o.timein as int }),
        o.timein < 0 && o.timeout > 1 ==> object_tu_spec(o, l, frames).timeout == o.timeout - 1
            && object_tu_spec(o, l, frames).stuck == o.stuck,
        o.timein < 0 && o.timeout == 1 ==> object_tu_spec(o, l, frames).timeout == 0
            && !object_tu_spec(o, l, frames).stuck && !object_tu_spec(o, l, frames).blink,
        o.timein >= 0 ==> object_tu_spec(o, l, frames).timeout == o.timeout,
{
}

/// The per-attacker rest counters count down by one and those that reach 0 are dropped, in
/// order; a counter of 1 or less is gone after one TU.
pub proof fn law_counted_down(v: Seq<(u32, i32)>, e: (u32, i32))
    ensures
        counted_down(v.push(e)) == (if e.1 > 1 {
            counted_down(v).push((e.0, (e.1 - 1) as i32))
        } else {
            counted_down(v)
        }),
        counted_down(Seq::<(u32, i32)>::empty()) == Seq::<(u32, i32)>::empty(),
        counted_down(v).len() <= v.len(),
    decreases v.len(),
{
    assert(v.push(e).drop_last() =~= v);
    if v.len() > 0 {
        law_counted_down(v.drop_last(), v.last());
        assert(v.drop_last().push(v.last()) =~= v);
    }
}

/// Landing: a jump lands in the crouch frame 215; a fall lands in lying frame 219 (or 185 when
/// the object has no 219) with the fall sound, or bounces (frame 182 under lock 10) when it hits
/// the ground fast; without a landing the frame only counts its wait.
pub proof fn law_landings(o: ObjectTu, l: LandingFacts, frames: Map<i32, FrameInfo>)
    requires
        !o.removed,
        !(o.stuck && o.timein < 0),
        o.frame.lock <= 10,
        frames.contains_key(215) && frames[215].wait > 0,
        frames.contains_key(182) && frames[182].wait > 0,
        frames.contains_key(219) && frames[219].wait > 0,
    ensures
        l.landing && frames.contains_key(o.frame.n) && frames[o.frame.n].state == 4 ==> object_tu_spec(o, l, frames).frame.n == 215,
        l.landing && o.frame.n == 212 ==> object_tu_spec(o, l, frames).frame.n == 215,
        l.landing && l.was_air && o.frame.n != 212 && 180 <= o.frame.n < 190 && (!frames.contains_key(o.frame.n)
            || frames[o.frame.n].state != 4) ==> object_tu_spec(o, l, frames).fall_sound
            && object_tu_spec(o, l, frames).frame.n == (if l.fast { 182i32 } else { 219i32 })
            && object_tu_spec(o, l, frames).bounced == l.fast,
        !l.landing ==> !object_tu_spec(o, l, frames).fall_sound && !object_tu_spec(o, l, frames).bounced,
{
}

/// Once a frame's wait is over: `next` 1000 removes (and kills) the object, 999 returns to
/// frame 0 with the lock dropped to 0; a negative `next` keeps the frame.
pub proof fn law_frame_ends(o: ObjectTu, frames: Map<i32, FrameInfo>)
    requires
        !o.removed,
        !(o.stuck && o.timein < 0),
        o.frame.wait_left <= 0,
        frames.contains_key(o.frame.n),
    ensures
        ({
            let l = LandingFacts { landing: false, was_air: false, fast: false };
            let r = object_tu_spec(o, l, frames);
            &&& frames[o.frame.n].next == 1000 ==> r.removed && r.dead && !r.visible
            &&& frames[o.frame.n].next == 999 && frames.contains_key(0) && o.frame.lock <= 0 ==> r.frame == (FrameState {
                pn: o.frame.n,
                n: 0,
                wait_left: frames[0].wait,
                lock: 0,
            })
            &&& frames[o.frame.n].next == 999 ==> r.frame.lock == 0
            &&& frames[o.frame.n].next < 0 ==> r.frame == o.frame
        }),
{
}

/// A blinking object shows in the TUs whose `timeout / 2` is odd and hides in the others;
/// an object that is not blinking shows unless it is removed, and a removed one never shows.
pub proof fn law_blink_visibility(o: ObjectTu, l: LandingFacts, frames: Map<i32, FrameInfo>)
    requires
        !o.removed,
        !(o.stuck && o.timein < 0),
    ensures
        ({
            let r = object_tu_spec(o, l, frames);
            &&& r.blink && r.timeout >= 0 && !r.removed ==> r.visible == ((r.timeout / 2) % 2 == 1)
            &&& !r.blink ==> r.visible == !r.removed
            &&& r.removed ==> !r.visible
        }),
{
}

} // verus!
