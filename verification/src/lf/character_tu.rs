//! The per-state timers and transitions of a character's TU. What the game writes as
//! `f64` comes out as tags; what it reads as `f64` comes in as plain values.
use vstd::prelude::*;
use crate::lf::character::dead_blink_spec;
use crate::lf::character_ids::IdEvent;
use crate::lf::livingobject::{FrameInfo, FrameState, FrameTable, trans_frame, transition_allowed, transitioned};
use crate::lf::transistor::FrameTransistor;

verus! {

/// What the per-state part of a character's TU reads besides its frame position.
#[derive(Clone, Copy, Debug, PartialEq, Eq)]
pub struct TuInput {
    pub id: i32,
    /// the state the TU started in
    pub state: i32,
    /// the previous frame when the TU started, before key handling
    pub start_pn: i32,
    /// the frame had just been entered when the TU started
    pub start_frame_tu: bool,
    /// the frame has just been entered (after key handling)
    pub frame_tu: bool,
    pub holding_heavy: bool,
    pub catch_counter: i32,
    pub catch_attacks: i32,
    /// the state of the current frame's `next` frame (its own state when it has none)
    pub next_state: i32,
    /// the current frame's `next`
    pub frame_next: i32,
    /// in the air (`y < 0`)
    pub airborne: bool,
    /// on the ground and not rising (`y >= 0 && vy >= 0`)
    pub landed: bool,
    /// not falling yet (`vy <= 0`)
    pub rising: bool,
    /// the waits that the fall frames 180 and 181 take from the vertical speed
    pub fall_wait180: i32,
    pub fall_wait181: i32,
    /// no hit points left
    pub dead: bool,
    pub dead_blink: i32,
}

/// A velocity write of the per-state TU, applied with the character's `f64` data.
#[derive(Clone, Copy, Debug, PartialEq, Eq)]
pub enum TuMotion {
    Keep,
    Run,
    JumpLaunch,
    DashForward,
    DashBack,
    Row,
    /// `vy = 0` while lifted
    LiftStop,
    /// `vx`, `vz` halved after rowing
    CrouchFriction,
}

/// What the per-state part of a TU decides besides the frame and the transistor.
#[derive(Clone, Copy, Debug, PartialEq, Eq)]
pub struct TuOutcome {
    pub catch_counter: i32,
    pub catch_attacks: i32,
    pub frame_tu: bool,
    /// let go of the caught character
    pub release: bool,
    pub motion: TuMotion,
    /// fall and defend meters reset
    pub clear_fall: bool,
    pub blink: Option<bool>,
    pub super_armor: bool,
    pub timeout: Option<i32>,
    pub allow_switch_dir: Option<bool>,
    /// the ice breaks
    pub broken: bool,
    /// while catching: whether the caught character is drawn in front (by the catch point's cover)
    pub zz_front: Option<bool>,
    /// John's heal aura
    pub heal: bool,
    pub dead_blink: i32,
    pub removed: bool,
}

/// The per-state TU's frame position, transistor and decisions together.
pub struct TuWorld {
    pub out: TuOutcome,
    pub fs: FrameState,
    pub tr: FrameTransistor,
}

pub open spec fn tu_start(t: TuInput) -> TuOutcome {
    TuOutcome {
        catch_counter: t.catch_counter,
        catch_attacks: t.catch_attacks,
        frame_tu: t.frame_tu,
        release: false,
        motion: TuMotion::Keep,
        clear_fall: false,
        blink: None,
        super_armor: false,
        timeout: None,
        allow_switch_dir: None,
        broken: false,
        zz_front: None,
        heal: false,
        dead_blink: t.dead_blink,
        removed: false,
    }
}

/// Whether the catch point of frame `n` draws the caught character in front: cover 0 or 10.
pub open spec fn cover_front(frames: Map<i32, FrameInfo>, n: i32, before: Option<bool>) -> Option<bool> {
    if frames.contains_key(n) {
        match frames[n].cpoint_cover {
            Some(c) => Some(c == 0 || c == 10),
            None => before,
        }
    } else {
        before
    }
}

/// Catching: the entry hook, the catch counter running out, punches and the transform frame.
pub open spec fn tu_catch(t: TuInput, w: TuWorld, frames: Map<i32, FrameInfo>) -> TuWorld {
    let o0 = if t.start_pn != 9 && t.start_frame_tu {
        TuOutcome { catch_counter: 43, catch_attacks: 0, ..w.out }
    } else {
        w.out
    };
    let o1 = TuOutcome { catch_counter: (o0.catch_counter - 1) as i32, ..o0 };
    let n = w.fs.n;
    let releases = o1.catch_counter <= 0 && !(n == 122 && o1.catch_attacks == 4) && (n == 121 || n == 122);
    let (o2, fs2) = if releases {
        if transition_allowed(w.fs, 0, 15, frames) {
            (TuOutcome { release: true, frame_tu: true, ..o1 }, transitioned(w.fs, 0, 15, frames))
        } else {
            (TuOutcome { release: true, ..o1 }, w.fs)
        }
    } else {
        (o1, w.fs)
    };
    let o2 = TuOutcome { zz_front: cover_front(frames, fs2.n, o2.zz_front), ..o2 };
    if fs2.n == 123 {
        TuWorld {
            out: TuOutcome {
                catch_attacks: (o2.catch_attacks + 1) as i32,
                catch_counter: (o2.catch_counter + 3) as i32,
                ..o2
            },
            fs: fs2,
            tr: w.tr.with_wait((w.tr.wait + 1) as i32, 10, 1),
        }
    } else if fs2.n == 233 || fs2.n == 234 {
        TuWorld { out: o2, fs: fs2, tr: w.tr.with_wait((w.tr.wait - 1) as i32, 10, 1) }
    } else {
        TuWorld { out: o2, fs: fs2, tr: w.tr }
    }
}

/// Falling: the fall frames chain on once their wait is over.
pub open spec fn tu_fall(t: TuInput, w: TuWorld) -> TuWorld {
    let n = w.fs.n;
    if w.tr.wait != 0 {
        w
    } else if n == 180 && t.rising {
        TuWorld { tr: w.tr.with_next(181, 15).with_wait(t.fall_wait180, 15, 1), ..w }
    } else if n == 180 {
        TuWorld { tr: w.tr.with_next(185, 15), ..w }
    } else if n == 181 {
        TuWorld { tr: w.tr.with_next(182, 15).with_wait(t.fall_wait181, 15, 1), ..w }
    } else if n == 182 {
        TuWorld { tr: w.tr.with_next(183, 15), ..w }
    } else if n == 186 {
        TuWorld { tr: w.tr.with_next(187, 15), ..w }
    } else if n == 187 {
        TuWorld { tr: w.tr.with_next(188, 15), ..w }
    } else if n == 188 {
        TuWorld { tr: w.tr.with_next(189, 15), ..w }
    } else {
        w
    }
}

/// Crouching and landing frames.
pub open spec fn tu_crouch(t: TuInput, w: TuWorld) -> TuWorld {
    let n = w.fs.n;
    let pn = w.fs.pn;
    if n == 19 && t.holding_heavy {
        TuWorld { tr: w.tr.with_next(12, 10), ..w }
    } else if n == 215 {
        TuWorld { tr: w.tr.with_wait((w.tr.wait - 1) as i32, 10, 1), ..w }
    } else if n == 219 {
        if (t.id == 1 && 267 <= pn <= 272) || pn == 216 || pn == 90 || pn == 91 || pn == 92 {
            TuWorld { tr: w.tr.with_wait((w.tr.wait - 1) as i32, 10, 1), ..w }
        } else if pn == 105 {
            TuWorld { out: TuOutcome { motion: TuMotion::CrouchFriction, ..w.out }, ..w }
        } else {
            w
        }
    } else if n == 54 && t.frame_next == 999 && t.airborne {
        TuWorld { tr: w.tr.with_next(212, 10), ..w }
    } else {
        w
    }
}

/// Whether the injured-dance blink shows: the transistor wait is a multiple of 3.
pub open spec fn wait_third(w: i32) -> bool {
    if w >= 0 {
        w % 3 == 0
    } else {
        (-w) % 3 == 0
    }
}

/// The per-state part of a character's TU, before the dead-body blink.
pub open spec fn tu_states(t: TuInput, w: TuWorld, frames: Map<i32, FrameInfo>) -> TuWorld {
    let st = t.state;
    let n = w.fs.n;
    let pn = w.fs.pn;
    let o = w.out;
    if st == 2 {
        TuWorld { out: TuOutcome { motion: TuMotion::Run, ..o }, ..w }
    } else if st == 4 {
        if n == 212 && pn == 211 && o.frame_tu {
            TuWorld { out: TuOutcome { frame_tu: false, motion: TuMotion::JumpLaunch, ..o }, ..w }
        } else {
            w
        }
    } else if st == 5 {
        if o.frame_tu && (n == 213 || n == 214) {
            TuWorld {
                out: TuOutcome {
                    frame_tu: false,
                    motion: if n == 213 {
                        TuMotion::DashForward
                    } else {
                        TuMotion::DashBack
                    },
                    ..o
                },
                ..w
            }
        } else {
            w
        }
    } else if st == 6 {
        if o.frame_tu {
            TuWorld { out: TuOutcome { frame_tu: false, motion: TuMotion::Row, ..o }, ..w }
        } else {
            w
        }
    } else if st == 9 {
        tu_catch(t, w, frames)
    } else if st == 10 {
        TuWorld {
            out: if n == 135 {
                TuOutcome { motion: TuMotion::LiftStop, ..o }
            } else {
                o
            },
            tr: w.tr.with_wait(99, 10, 99),
            ..w
        }
    } else if st == 11 {
        if n == 221 || n == 223 || n == 225 {
            TuWorld { tr: w.tr.with_next(999, 20), ..w }
        } else {
            w
        }
    } else if st == 12 {
        tu_fall(t, w)
    } else if st == 13 {
        TuWorld { out: TuOutcome { broken: t.next_state != 13 && w.tr.wait <= 1, ..o }, ..w }
    } else if st == 14 {
        let o1 = if pn != 14 {
            TuOutcome { clear_fall: true, ..o }
        } else {
            o
        };
        let o2 = if t.dead && o1.dead_blink < 0 {
            TuOutcome { dead_blink: 0, ..o1 }
        } else {
            o1
        };
        let o3 = if t.next_state != 14 && w.tr.wait <= 1 {
            TuOutcome { blink: Some(true), super_armor: true, timeout: Some(30i32), ..o2 }
        } else {
            o2
        };
        TuWorld { out: o3, ..w }
    } else if st == 15 {
        tu_crouch(t, w)
    } else if st == 16 {
        TuWorld {
            out: TuOutcome { blink: Some(wait_third(w.tr.wait)), allow_switch_dir: Some(false), ..o },
            ..w
        }
    } else if st == 18 || st == 19 {
        if t.landed && pn != 14 && (n < 180 || n > 191) && transition_allowed(w.fs, 185, 15, frames) {
            TuWorld {
                fs: transitioned(w.fs, 185, 15, frames),
                out: TuOutcome { frame_tu: true, ..o },
                ..w
            }
        } else {
            w
        }
    } else if st == 501 {
        TuWorld { out: TuOutcome { allow_switch_dir: Some(false), ..o }, ..w }
    } else if st == 1700 {
        let o1 = if pn != 1700 {
            TuOutcome { timeout: Some(30i32), super_armor: true, ..o }
        } else {
            o
        };
        TuWorld { out: TuOutcome { heal: true, ..o1 }, ..w }
    } else {
        w
    }
}

/// One TU of a character's per-state timers and transitions, with the dead-body blink.
pub open spec fn tu_spec(t: TuInput, fs: FrameState, tr: FrameTransistor, frames: Map<i32, FrameInfo>) -> TuWorld {
    let w = tu_states(t, TuWorld { out: tu_start(t), fs, tr }, frames);
    let d = dead_blink_spec(w.out.dead_blink);
    TuWorld {
        out: TuOutcome {
            dead_blink: d.0,
            removed: d.2,
            blink: if d.1 {
                Some(true)
            } else {
                w.out.blink
            },
            ..w.out
        },
        ..w
    }
}

/// The character hooks the per-state TU fires, after its own changes.
pub open spec fn tu_events(t: TuInput, fs_after: FrameState) -> Seq<IdEvent> {
    if t.state == 9 && fs_after.n == 240 {
        seq![IdEvent::RudolfTransform]
    } else if t.state == 15 && fs_after.n == 257 {
        seq![IdEvent::State1280Disappear]
    } else if t.state == 501 && fs_after.n == 298 {
        seq![IdEvent::RudolfTransform]
    } else {
        Seq::empty()
    }
}

/// The arithmetic limits of the per-state TU.
pub open spec fn tu_ok(t: TuInput, tr: FrameTransistor) -> bool {
    &&& t.state == 9 ==> {
        &&& i32::MIN < t.catch_counter < i32::MAX - 2
        &&& t.catch_attacks < i32::MAX
        &&& i32::MIN < tr.wait < i32::MAX
    }
    &&& t.state == 15 ==> i32::MIN < tr.wait
}

fn tu_catch_exec(t: TuInput, out: TuOutcome, fs: &mut FrameState, tr: &mut FrameTransistor, frames: &FrameTable) -> (r: TuOutcome)
    requires
        tu_ok(t, *old(tr)),
        t.state == 9,
        out.catch_counter == t.catch_counter,
        out.catch_attacks == t.catch_attacks,
    ensures
        (TuWorld { out: r, fs: *final(fs), tr: *final(tr) }) == tu_catch(
            t,
            TuWorld { out, fs: *old(fs), tr: *old(tr) },
            frames@,
        ),
{
    let mut o = out;
    if t.start_pn != 9 && t.start_frame_tu {
        o.catch_counter = 43;
        o.catch_attacks = 0;
    }
    o.catch_counter = o.catch_counter - 1;
    let n = fs.n;
    if o.catch_counter <= 0 && !(n == 122 && o.catch_attacks == 4) && (n == 121 || n == 122) {
        o.release = true;
        if trans_frame(fs, 0, 15, frames) {
            o.frame_tu = true;
        }
    }
    match frames.get(fs.n) {
        Some(fd) => match fd.cpoint_cover {
            Some(c) => {
                o.zz_front = Some(c == 0 || c == 10);
            },
            None => {},
        },
        None => {},
    }
    if fs.n == 123 {
        o.catch_attacks = o.catch_attacks + 1;
        o.catch_counter = o.catch_counter + 3;
        tr.inc_wait(1, 10, 1);
    } else if fs.n == 233 || fs.n == 234 {
        tr.inc_wait(-1, 10, 1);
    }
    o
}

fn tu_fall_exec(t: TuInput, tr: &mut FrameTransistor, n: i32)
    ensures
        ({
            let w0 = TuWorld { out: tu_start(t), fs: FrameState { pn: 0, n, wait_left: 0, lock: 0 }, tr: *old(tr) };
            *final(tr) == tu_fall(t, w0).tr
        }),
{
    if tr.wait != 0 {
    } else if n == 180 && t.rising {
        tr.set_next(181, 15);
        tr.set_wait(t.fall_wait180, 15, 1);
    } else if n == 180 {
        tr.set_next(185, 15);
    } else if n == 181 {
        tr.set_next(182, 15);
        tr.set_wait(t.fall_wait181, 15, 1);
    } else if n == 182 {
        tr.set_next(183, 15);
    } else if n == 186 {
        tr.set_next(187, 15);
    } else if n == 187 {
        tr.set_next(188, 15);
    } else if n == 188 {
        tr.set_next(189, 15);
    }
}

fn tu_crouch_exec(t: TuInput, out: TuOutcome, fs: FrameState, tr: &mut FrameTransistor) -> (r: TuOutcome)
    requires
        i32::MIN < old(tr).wait,
    ensures
        (TuWorld { out: r, fs, tr: *final(tr) }) == tu_crouch(t, TuWorld { out, fs, tr: *old(tr) }),
{
    let n = fs.n;
    let pn = fs.pn;
    let mut o = out;
    if n == 19 && t.holding_heavy {
        tr.set_next(12, 10);
    } else if n == 215 {
        tr.inc_wait(-1, 10, 1);
    } else if n == 219 {
        if (t.id == 1 && 267 <= pn && pn <= 272) || pn == 216 || pn == 90 || pn == 91 || pn == 92 {
            tr.inc_wait(-1, 10, 1);
        } else if pn == 105 {
            o.motion = TuMotion::CrouchFriction;
        }
    } else if n == 54 && t.frame_next == 999 && t.airborne {
        tr.set_next(212, 10);
    }
    o
}

fn wait_third_exec(w: i32) -> (r: bool)
    ensures
        r == wait_third(w),
{
    if w >= 0 {
        w % 3 == 0
    } else if w == i32::MIN {
        false
    } else {
        (-w) % 3 == 0
    }
}

#[verifier::rlimit(40)]
fn tu_states_exec(t: TuInput, fs: &mut FrameState, tr: &mut FrameTransistor, frames: &FrameTable) -> (r: TuOutcome)
    requires
        tu_ok(t, *old(tr)),
    ensures
        (TuWorld { out: r, fs: *final(fs), tr: *final(tr) }) == tu_states(
            t,
            TuWorld { out: tu_start(t), fs: *old(fs), tr: *old(tr) },
            frames@,
        ),
{
    let st = t.state;
    let n = fs.n;
    let pn = fs.pn;
    let mut o = TuOutcome {
        catch_counter: t.catch_counter,
        catch_attacks: t.catch_attacks,
        frame_tu: t.frame_tu,
        release: false,
        motion: TuMotion::Keep,
        clear_fall: false,
        blink: None,
        super_armor: false,
        timeout: None,
        allow_switch_dir: None,
        broken: false,
        zz_front: None,
        heal: false,
        dead_blink: t.dead_blink,
        removed: false,
    };
    if st == 2 {
        o.motion = TuMotion::Run;
    } else if st == 4 {
        if n == 212 && pn == 211 && o.frame_tu {
            o.frame_tu = false;
            o.motion = TuMotion::JumpLaunch;
        }
    } else if st == 5 {
        if o.frame_tu && (n == 213 || n == 214) {
            o.frame_tu = false;
            o.motion = if n == 213 {
                TuMotion::DashForward
            } else {
                TuMotion::DashBack
            };
        }
    } else if st == 6 {
        if o.frame_tu {
            o.frame_tu = false;
            o.motion = TuMotion::Row;
        }
    } else if st == 9 {
        o = tu_catch_exec(t, o, fs, tr, frames);
    } else if st == 10 {
        if n == 135 {
            o.motion = TuMotion::LiftStop;
        }
        tr.set_wait(99, 10, 99);
    } else if st == 11 {
        if n == 221 || n == 223 || n == 225 {
            tr.set_next(999, 20);
        }
    } else if st == 12 {
        tu_fall_exec(t, tr, n);
    } else if st == 13 {
        o.broken = t.next_state != 13 && tr.wait <= 1;
    } else if st == 14 {
        if pn != 14 {
            o.clear_fall = true;
        }
        if t.dead && o.dead_blink < 0 {
            o.dead_blink = 0;
        }
        if t.next_state != 14 && tr.wait <= 1 {
            o.blink = Some(true);
            o.super_armor = true;
            o.timeout = Some(30);
        }
    } else if st == 15 {
        o = tu_crouch_exec(t, o, *fs, tr);
    } else if st == 16 {
        o.blink = Some(wait_third_exec(tr.wait));
        o.allow_switch_dir = Some(false);
    } else if st == 18 || st == 19 {
        if t.landed && pn != 14 && (n < 180 || n > 191) {
            if trans_frame(fs, 185, 15, frames) {
                o.frame_tu = true;
            }
        }
    } else if st == 501 {
        o.allow_switch_dir = Some(false);
    } else if st == 1700 {
        if pn != 1700 {
            o.timeout = Some(30);
            o.super_armor = true;
        }
        o.heal = true;
    }
    o
}

/// One TU of a character's per-state timers and transitions, then the dead-body blink.
/// Updates the frame position and the transistor, and returns the other decisions with
/// the character hooks to run afterwards.
pub fn tu_step(t: TuInput, fs: &mut FrameState, tr: &mut FrameTransistor, frames: &FrameTable) -> (r: (TuOutcome, Vec<IdEvent>))
    requires
        tu_ok(t, *old(tr)),
    ensures
        ({
            let w = tu_spec(t, *old(fs), *old(tr), frames@);
            &&& r.0 == w.out
            &&& *final(fs) == w.fs
            &&& *final(tr) == w.tr
            &&& r.1@ == tu_events(t, w.fs)
        }),
{
    let o = tu_states_exec(t, fs, tr, frames);
    let (c, blinking, removed) = crate::lf::character::dead_blink_step(o.dead_blink);
    let out = TuOutcome {
        dead_blink: c,
        removed,
        blink: if blinking {
            Some(true)
        } else {
            o.blink
        },
        ..o
    };
    let mut events: Vec<IdEvent> = Vec::new();
    if t.state == 9 && fs.n == 240 {
        events.push(IdEvent::RudolfTransform);
    } else if t.state == 15 && fs.n == 257 {
        events.push(IdEvent::State1280Disappear);
    } else if t.state == 501 && fs.n == 298 {
        events.push(IdEvent::RudolfTransform);
    }
    assert(events@ =~= tu_events(t, *fs));
    (out, events)
}

/// A character caught for its last punch is let go exactly when the catch counter runs
/// out on a catching frame, and the catch counter only counts down while catching.
pub proof fn law_catch_counter(t: TuInput, fs: FrameState, tr: FrameTransistor, frames: Map<i32, FrameInfo>)
    requires
        t.state == 9,
        !(t.start_pn != 9 && t.start_frame_tu),
        tu_ok(t, tr),
    ensures
        tu_spec(t, fs, tr, frames).out.release == (t.catch_counter - 1 <= 0 && !(fs.n == 122
            && t.catch_attacks == 4) && (fs.n == 121 || fs.n == 122)),
        fs.n != 121 && fs.n != 122 && fs.n != 123 ==> tu_spec(t, fs, tr, frames).out.catch_counter
            == t.catch_counter - 1,
{
}

/// Whether a character reads its keys this TU: not while held by another, frozen, caught,
/// hurt, falling, frozen in ice, lying, dancing in pain or burning.
pub open spec fn input_allowed_spec(held: bool, stuck: bool, state: i32) -> bool {
    !held && !stuck && !(state == 10 || state == 11 || state == 12 || state == 13 || state == 14
        || state == 16 || state == 18)
}

/// Whether a character reads its keys this TU (see `input_allowed_spec`).
pub fn input_allowed(held: bool, stuck: bool, state: i32) -> (r: bool)
    ensures
        r == input_allowed_spec(held, stuck, state),
{
    !held && !stuck && !(state == 10 || state == 11 || state == 12 || state == 13 || state == 14
        || state == 16 || state == 18)
}

/// Whether the per-state TU accepts these inputs (see `tu_ok`).
pub fn tu_fits(t: TuInput, tr: &FrameTransistor) -> (r: bool)
    ensures
        r == tu_ok(t, *tr),
{
    let c9 = t.state != 9 || (i32::MIN < t.catch_counter && t.catch_counter < i32::MAX - 2
        && t.catch_attacks < i32::MAX && i32::MIN < tr.wait && tr.wait < i32::MAX);
    let c15 = t.state != 15 || i32::MIN < tr.wait;
    c9 && c15
}


/// A jump takes off on the TU its frame 212 is entered from 211: the launch velocity is
/// applied once and the frame counts as no longer fresh.
pub proof fn law_jump_takes_off(t: TuInput, fs: FrameState, tr: FrameTransistor, frames: Map<i32, FrameInfo>)
    requires
        t.state == 4,
        t.frame_tu,
        fs.n == 212,
        fs.pn == 211,
    ensures
        tu_spec(t, fs, tr, frames).out.motion == TuMotion::JumpLaunch,
        !tu_spec(t, fs, tr, frames).out.frame_tu,
        tu_spec(t, fs, tr, frames).fs == fs,
{
}


/// Running keeps its speed; a dash takes off once on entering frame 213 (forward) or 214
/// (backward); rowing takes off once on entering its frame.
pub proof fn law_launches(t: TuInput, fs: FrameState, tr: FrameTransistor, frames: Map<i32, FrameInfo>)
    ensures
        t.state == 2 ==> tu_spec(t, fs, tr, frames).out.motion == TuMotion::Run,
        t.state == 5 && t.frame_tu && fs.n == 213 ==> tu_spec(t, fs, tr, frames).out.motion == TuMotion::DashForward
            && !tu_spec(t, fs, tr, frames).out.frame_tu,
        t.state == 5 && t.frame_tu && fs.n == 214 ==> tu_spec(t, fs, tr, frames).out.motion == TuMotion::DashBack
            && !tu_spec(t, fs, tr, frames).out.frame_tu,
        t.state == 5 && !t.frame_tu ==> tu_spec(t, fs, tr, frames).out.motion == TuMotion::Keep,
        t.state == 6 && t.frame_tu ==> tu_spec(t, fs, tr, frames).out.motion == TuMotion::Row
            && !tu_spec(t, fs, tr, frames).out.frame_tu,
        t.state == 4 && !(fs.n == 212 && fs.pn == 211 && t.frame_tu) ==> tu_spec(t, fs, tr, frames).out.motion
            == TuMotion::Keep,
{
}

/// Being caught holds the frame (wait 99 under authority 10) and stops the lift on frame
/// 135; an injury frame 221, 223 or 225 returns to standing (next 999) under authority 20.
pub proof fn law_caught_and_injured(t: TuInput, fs: FrameState, tr: FrameTransistor, frames: Map<i32, FrameInfo>)
    ensures
        t.state == 10 && tr.lock <= 10 ==> tu_spec(t, fs, tr, frames).tr.wait == 99
            && tu_spec(t, fs, tr, frames).tr.lock == 10,
        t.state == 10 && fs.n == 135 ==> tu_spec(t, fs, tr, frames).out.motion == TuMotion::LiftStop,
        t.state == 11 && (fs.n == 221 || fs.n == 223 || fs.n == 225) && tr.lock <= 20 ==> tu_spec(t, fs, tr, frames).tr.next
            == 999 && tu_spec(t, fs, tr, frames).tr.lock == 20,
        t.state == 11 && !(fs.n == 221 || fs.n == 223 || fs.n == 225) ==> tu_spec(t, fs, tr, frames).tr == tr,
{
}

/// Falling, once a fall frame's wait is over its successor is set under authority 15:
/// 180 goes to 181 while rising (waiting by the fall speed) or to 185, and 181, 182, 186,
/// 187, 188 go to the frame after them.
pub proof fn law_fall_chain(t: TuInput, fs: FrameState, tr: FrameTransistor, frames: Map<i32, FrameInfo>)
    requires
        t.state == 12,
        tr.wait == 0,
        tr.lock <= 15,
    ensures
        fs.n == 180 && t.rising ==> tu_spec(t, fs, tr, frames).tr.next == 181
            && tu_spec(t, fs, tr, frames).tr.wait == (if t.fall_wait180 < 0 { 0 } else { t.fall_wait180 }),
        fs.n == 180 && !t.rising ==> tu_spec(t, fs, tr, frames).tr.next == 185,
        fs.n == 181 ==> tu_spec(t, fs, tr, frames).tr.next == 182,
        fs.n == 182 ==> tu_spec(t, fs, tr, frames).tr.next == 183,
        fs.n == 186 ==> tu_spec(t, fs, tr, frames).tr.next == 187,
        fs.n == 187 ==> tu_spec(t, fs, tr, frames).tr.next == 188,
        fs.n == 188 ==> tu_spec(t, fs, tr, frames).tr.next == 189,
        (fs.n == 180 || fs.n == 181 || fs.n == 182 || fs.n == 186 || fs.n == 187 || fs.n == 188)
            ==> tu_spec(t, fs, tr, frames).tr.lock == 15,
{
}

/// Catching: entering a catch arms the counter at 43 (so 42 after this TU); otherwise it
/// counts down by one; a punch frame 123 adds one attack and three TUs.
pub proof fn law_catch_timing(t: TuInput, fs: FrameState, tr: FrameTransistor, frames: Map<i32, FrameInfo>)
    requires
        t.state == 9,
        tu_ok(t, tr),
        fs.n != 121 && fs.n != 122,
    ensures
        t.start_pn != 9 && t.start_frame_tu && fs.n != 123 ==> tu_spec(t, fs, tr, frames).out.catch_counter == 42
            && tu_spec(t, fs, tr, frames).out.catch_attacks == 0,
        !(t.start_pn != 9 && t.start_frame_tu) && fs.n == 123 ==> tu_spec(t, fs, tr, frames).out.catch_counter
            == t.catch_counter + 2 && tu_spec(t, fs, tr, frames).out.catch_attacks == t.catch_attacks + 1,
        !tu_spec(t, fs, tr, frames).out.release,
{
}

/// Ice breaks when its frame is about to lead out of state 13; lying resets the fall
/// meters on entry, starts a dead body's blink, and grants a short armoured blink when
/// getting up.
pub proof fn law_ice_and_lying(t: TuInput, fs: FrameState, tr: FrameTransistor, frames: Map<i32, FrameInfo>)
    ensures
        t.state == 13 ==> tu_spec(t, fs, tr, frames).out.broken == (t.next_state != 13 && tr.wait <= 1),
        t.state != 13 ==> !tu_spec(t, fs, tr, frames).out.broken,
        t.state == 14 ==> tu_spec(t, fs, tr, frames).out.clear_fall == (fs.pn != 14),
        t.state == 14 && t.dead && t.dead_blink < 0 ==> tu_spec(t, fs, tr, frames).out.dead_blink == 1
            && tu_spec(t, fs, tr, frames).out.blink == Some(true),
        t.state == 14 && t.next_state != 14 && tr.wait <= 1 ==> tu_spec(t, fs, tr, frames).out.super_armor
            && tu_spec(t, fs, tr, frames).out.timeout == Some(30i32),
{
}

/// Crouching: a heavy weapon on frame 19 goes to frame 12; frame 215 waits one TU less;
/// burning that lands on the ground outside the fall frames goes to frame 185.
pub proof fn law_crouch_and_burn(t: TuInput, fs: FrameState, tr: FrameTransistor, frames: Map<i32, FrameInfo>)
    ensures
        t.state == 15 && fs.n == 19 && t.holding_heavy && tr.lock <= 10 ==> tu_spec(t, fs, tr, frames).tr.next == 12,
        t.state == 15 && fs.n == 215 && tr.lock <= 10 && tr.wait > i32::MIN ==> tu_spec(t, fs, tr, frames).tr.wait == (
        if tr.wait - 1 < 0 { 0 } else { tr.wait - 1 }),
        (t.state == 18 || t.state == 19) && t.landed && fs.pn != 14 && (fs.n < 180 || fs.n > 191)
            && frames.contains_key(185) && fs.lock <= 15 ==> tu_spec(t, fs, tr, frames).fs.n == 185
            && tu_spec(t, fs, tr, frames).fs.pn == fs.n,
        (t.state == 18 || t.state == 19) && !t.landed ==> tu_spec(t, fs, tr, frames).fs == fs,
{
}

/// Dancing in pain can not turn and blinks every third TU of the wait; the special states
/// can not turn; healing grants armour and time on entry and heals every TU.
pub proof fn law_pain_and_heal(t: TuInput, fs: FrameState, tr: FrameTransistor, frames: Map<i32, FrameInfo>)
    requires
        t.dead_blink < 0,
    ensures
        t.state == 16 ==> tu_spec(t, fs, tr, frames).out.allow_switch_dir == Some(false),
        t.state == 16 && tr.wait >= 0 ==> tu_spec(t, fs, tr, frames).out.blink == Some(tr.wait % 3 == 0),
        t.state == 501 ==> tu_spec(t, fs, tr, frames).out.allow_switch_dir == Some(false),
        t.state == 1700 ==> tu_spec(t, fs, tr, frames).out.heal,
        t.state == 1700 && fs.pn != 1700 ==> tu_spec(t, fs, tr, frames).out.timeout == Some(30i32)
            && tu_spec(t, fs, tr, frames).out.super_armor,
        t.state != 1700 ==> !tu_spec(t, fs, tr, frames).out.heal,
{
}

/// A dead body's blink runs one step per TU and removes the body once it has run 30 TUs.
pub proof fn law_dead_body(t: TuInput, fs: FrameState, tr: FrameTransistor, frames: Map<i32, FrameInfo>)
    requires
        t.state != 14,
    ensures
        0 <= t.dead_blink < 30 ==> tu_spec(t, fs, tr, frames).out.dead_blink == t.dead_blink + 1
            && !tu_spec(t, fs, tr, frames).out.removed,
        t.dead_blink >= 30 ==> tu_spec(t, fs, tr, frames).out.removed
            && tu_spec(t, fs, tr, frames).out.dead_blink == -1,
        t.dead_blink < 0 ==> !tu_spec(t, fs, tr, frames).out.removed
            && tu_spec(t, fs, tr, frames).out.dead_blink == t.dead_blink,
{
}

} // verus!
