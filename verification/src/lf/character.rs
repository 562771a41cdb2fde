//! A character's key handling and its per-TU timers.
//! What the game writes as `f64` (velocities, the defend meter) comes out as tags; what it
//! reads as `f64` or from outside (weapon properties, chance, the catch point) comes in
//! as plain values.
use vstd::prelude::*;
use crate::core_engine::combodec::{ComboDecoder, ComboDef, actions_of, combo_matches, fed, fed_all, is_best_combo};
use crate::text::{chars_of, has_char, str_eq};
use crate::lf::character_ids::{HitTag, IdEvent, IdFlags, WaitChange, id_event, id_event_spec};
use crate::lf::global::UNSPECIFIED;
use crate::lf::livingobject::{FrameInfo, FrameState, FrameTable, trans_frame, transition_allowed, transitioned};

verus! {

/// The keys held this TU, and whether a direction key was just tapped twice.
#[derive(Clone, Copy, Debug, PartialEq, Eq)]
pub struct HeldKeys {
    pub left: bool,
    pub right: bool,
    pub up: bool,
    pub down: bool,
    pub att: bool,
    pub jump: bool,
    pub def: bool,
    pub double_left: bool,
    pub double_right: bool,
}

/// The actions of a catch point.
#[derive(Clone, Copy, Debug, PartialEq, Eq)]
pub struct CatchPoint {
    pub taction: i32,
    pub aaction: i32,
    pub jaction: i32,
    pub dircontrol: i32,
}

/// The character as the key handling reads it.
#[derive(Clone, Copy, Debug, PartialEq, Eq)]
pub struct InputState {
    pub id: i32,
    /// the state the TU started in
    pub state: i32,
    pub frame: FrameState,
    pub facing: i32,
    pub running: bool,
    pub last_left: bool,
    pub last_right: bool,
    pub allow_switch_dir: bool,
    pub holding_heavy: bool,
    pub holding_light: bool,
    pub is_rudolf_transform: bool,
    pub want_super_punch: bool,
    pub attlock: i32,
    pub catch_counter: i32,
}

/// What the key handling reads from outside the character's integers.
#[derive(Clone, Copy, Debug, PartialEq, Eq)]
pub struct InputWorld {
    /// weapon properties of the held light weapon
    pub just_throw: bool,
    pub stand_throw: bool,
    pub attackable: bool,
    /// whether the character may jump with a heavy weapon
    pub heavy_weapon_jump: bool,
    /// the coin toss between two attack frames
    pub random_half: bool,
    /// the catch point of the current frame
    pub cpoint: Option<CatchPoint>,
    /// fall meter below knock-out and hit points left
    pub can_recover: bool,
    /// the sign of the horizontal velocity (-1, 0 or 1)
    pub vx_sign: i32,
    /// the whole mana points
    pub mp: i32,
}

/// A velocity write that the caller performs with the character's `f64` data.
#[derive(Clone, Copy, Debug, PartialEq, Eq)]
pub enum VelTag {
    Keep,
    /// walking speed by the direction keys
    Walk,
    /// heavy-weapon walking speed by the direction keys
    HeavyWalk,
    /// `vx = vz = 0`
    Stop,
    /// running speed along facing, `vz` by the vertical keys
    Run,
    /// air steering by left and right
    AirSteer,
    /// the recovery bounce out of a fall
    Recover,
}

/// The combo that the latest keys completed.
#[derive(Clone, Copy, Debug, PartialEq, Eq)]
pub struct ComboHit {
    pub tag: HitTag,
    /// the combo is `DJA`
    pub dja: bool,
    /// the combo's name points right (`>`)
    pub faces_right: bool,
    /// the history is cleared once it fires
    pub clear: bool,
}

/// What one TU of key handling decides.
#[derive(Clone, Copy, Debug, PartialEq, Eq)]
pub struct InputAction {
    pub frame: FrameState,
    /// some frame transition went through (the new frame is entered)
    pub entered: bool,
    pub facing: i32,
    pub running: bool,
    pub last_left: bool,
    pub last_right: bool,
    /// mana spent on a special move
    pub mp_cost: i32,
    pub catch_counter: i32,
    pub attlock: i32,
    pub want_super_punch: bool,
    pub allow_switch_dir: bool,
    /// the broken-defend meter recovers this TU
    pub recover_defend: bool,
    pub vel: VelTag,
    /// a character hook to run
    pub event: Option<IdEvent>,
    pub wait: WaitChange,
    /// `set_next(frame, authority)` on the transistor
    pub next: Option<(i32, i32)>,
    pub clear_combo: bool,
}

/// The frame a tag leads to from a frame.
pub open spec fn tag_next(fd: FrameInfo, t: HitTag) -> i32 {
    match t {
        HitTag::HitA => fd.hit_a,
        HitTag::HitD => fd.hit_d,
        HitTag::HitJ => fd.hit_j,
        HitTag::HitFa => fd.hit_fa,
        HitTag::HitUa => fd.hit_ua,
        HitTag::HitDa => fd.hit_da,
        HitTag::HitFj => fd.hit_fj,
        HitTag::HitUj => fd.hit_uj,
        HitTag::HitDj => fd.hit_dj,
        HitTag::HitJa => fd.hit_ja,
    }
}

/// The mana a frame costs: the magnitude of its `mp` modulo 1000.
pub open spec fn mp_cost_of(m: i32) -> int {
    if m >= 0 {
        (m % 1000) as int
    } else {
        (-m) % 1000
    }
}

/// A frame transition tried on the action.
pub open spec fn go(a: InputAction, f: i32, lock: i32, frames: Map<i32, FrameInfo>) -> (bool, InputAction) {
    if transition_allowed(a.frame, f, lock, frames) {
        (true, InputAction { frame: transitioned(a.frame, f, lock, frames), entered: true, ..a })
    } else {
        (false, a)
    }
}

/// A tagged move tried from the current frame: the tag must lead somewhere, a special
/// move (other than `hit_a`, `hit_d`, `hit_j`) must be paid for, then the frame changes
/// with lock 10.
pub open spec fn hit(a: InputAction, t: HitTag, mp: i32, frames: Map<i32, FrameInfo>) -> (bool, InputAction) {
    if !frames.contains_key(a.frame.n) {
        (false, a)
    } else {
        let fd = frames[a.frame.n];
        let next = tag_next(fd, t);
        if next == 0 || next == UNSPECIFIED {
            (false, a)
        } else {
            let costly = fd.mp != 0 && !(t == HitTag::HitA || t == HitTag::HitD || t == HitTag::HitJ);
            if costly && mp < mp_cost_of(fd.mp) {
                (false, a)
            } else {
                let a2 = if costly {
                    InputAction { mp_cost: mp_cost_of(fd.mp) as i32, ..a }
                } else {
                    a
                };
                go(a2, next, 10, frames)
            }
        }
    }
}

/// The action before any key is handled.
pub open spec fn start_action(s: InputState) -> InputAction {
    InputAction {
        frame: s.frame,
        entered: false,
        facing: s.facing,
        running: s.running,
        last_left: s.last_left,
        last_right: s.last_right,
        mp_cost: 0,
        catch_counter: s.catch_counter,
        attlock: s.attlock,
        want_super_punch: s.want_super_punch,
        allow_switch_dir: s.allow_switch_dir,
        recover_defend: false,
        vel: VelTag::Keep,
        event: None,
        wait: WaitChange::Keep,
        next: None,
        clear_combo: false,
    }
}

/// A double tap starts running (or lifts a heavy weapon into its run).
pub open spec fn double_tap(a: InputAction, s: InputState, face: i32, frames: Map<i32, FrameInfo>) -> InputAction {
    if s.holding_heavy {
        go(a, 16, 10, frames).1
    } else {
        go(InputAction { running: true, facing: face, ..a }, 9, 10, frames).1
    }
}

/// Facing, double taps and the remembered direction keys.
pub open spec fn pre_keys(s: InputState, k: HeldKeys, frames: Map<i32, FrameInfo>) -> InputAction {
    let a0 = start_action(s);
    let st = s.state;
    let a1 = if s.allow_switch_dir && (st == 0 || st == 1 || st == 2 || st == 4 || st == 5 || st == 7
        || st == 9) {
        if k.left && !k.right {
            InputAction { facing: -1i32, ..a0 }
        } else if k.right && !k.left {
            InputAction { facing: 1, ..a0 }
        } else {
            a0
        }
    } else {
        a0
    };
    let a2 = if (st == 0 || st == 1) && k.left && !s.last_left && k.double_left {
        double_tap(a1, s, -1i32, frames)
    } else {
        a1
    };
    let a3 = if (st == 0 || st == 1) && k.right && !s.last_right && k.double_right {
        double_tap(a2, s, 1, frames)
    } else {
        a2
    };
    InputAction { last_left: k.left, last_right: k.right, ..a3 }
}

/// The combo, if one fired: (whether key handling ends here, the action).
pub open spec fn combo_phase(s: InputState, a: InputAction, h: Option<ComboHit>, w: InputWorld, frames: Map<i32, FrameInfo>) -> (bool, InputAction) {
    match h {
        None => (false, a),
        Some(c) => {
            if c.dja && s.is_rudolf_transform {
                (
                    true,
                    InputAction {
                        event: Some(IdEvent::RevertTransform),
                        clear_combo: true,
                        running: false,
                        ..a
                    },
                )
            } else {
                let a1 = if c.tag == HitTag::HitFj && s.id == 1 {
                    InputAction {
                        facing: if c.faces_right {
                            1
                        } else {
                            -1i32
                        },
                        ..a
                    }
                } else {
                    a
                };
                let flags = IdFlags {
                    holding: false,
                    transform_target_id: 0,
                    transform_caught_id: 0,
                    is_rudolf_transform: s.is_rudolf_transform,
                };
                if id_event_spec(s.id, a1.frame.n, a1.frame.pn, IdEvent::GenericCombo, Some(c.tag), flags).0 {
                    (true, InputAction { clear_combo: true, ..a1 })
                } else {
                    let (ok, a2) = hit(a1, c.tag, w.mp, frames);
                    if ok {
                        (true, InputAction { clear_combo: c.clear, running: false, ..a2 })
                    } else {
                        (false, a2)
                    }
                }
            }
        },
    }
}

/// Attack, defend, jump and walking from standing or walking.
pub open spec fn state01(s: InputState, k: HeldKeys, w: InputWorld, frames: Map<i32, FrameInfo>, a: InputAction) -> InputAction {
    if k.att && s.holding_heavy {
        go(a, 50, 10, frames).1
    } else if k.att && s.holding_light {
        if w.just_throw {
            go(a, 45, 10, frames).1
        } else if (k.left != k.right) && w.stand_throw {
            go(a, 45, 10, frames).1
        } else if w.attackable || !w.stand_throw {
            if k.left != k.right {
                go(a, 45, 10, frames).1
            } else {
                go(
                    a,
                    if w.random_half {
                        20
                    } else {
                        25
                    },
                    10,
                    frames,
                ).1
            }
        } else {
            go(a, 45, 10, frames).1
        }
    } else if k.att {
        let a1 = if a.want_super_punch {
            InputAction { want_super_punch: false, ..a }
        } else {
            a
        };
        let fr: i32 = if a.want_super_punch {
            70
        } else if w.random_half {
            60
        } else {
            65
        };
        let (ok1, b1) = hit(a1, HitTag::HitA, w.mp, frames);
        let (ok, b) = if ok1 {
            (true, b1)
        } else {
            go(b1, fr, 10, frames)
        };
        if ok {
            InputAction { running: false, ..b }
        } else {
            after_attack(s, k, w, frames, b)
        }
    } else {
        after_attack(s, k, w, frames, a)
    }
}

/// Defend, jump and walking, once no attack went off.
pub open spec fn after_attack(s: InputState, k: HeldKeys, w: InputWorld, frames: Map<i32, FrameInfo>, a: InputAction) -> InputAction {
    let (ok_def, b) = if k.def && !s.holding_heavy {
        let (ok1, b1) = hit(a, HitTag::HitD, w.mp, frames);
        if ok1 {
            (true, b1)
        } else {
            go(b1, 110, 10, frames)
        }
    } else {
        (false, a)
    };
    if ok_def {
        InputAction { running: false, ..b }
    } else if k.jump && s.holding_heavy && !w.heavy_weapon_jump {
        b
    } else if k.jump {
        let (ok1, c1) = hit(b, HitTag::HitJ, w.mp, frames);
        let (ok, c) = if ok1 {
            (true, c1)
        } else {
            go(c1, 210, 10, frames)
        };
        if ok {
            InputAction { running: false, ..c }
        } else {
            walking(s, k, frames, c)
        }
    } else {
        walking(s, k, frames, b)
    }
}

/// Walking by the direction keys, or stopping a walk.
pub open spec fn walking(s: InputState, k: HeldKeys, frames: Map<i32, FrameInfo>, a: InputAction) -> InputAction {
    if k.left || k.right || k.up || k.down {
        if s.holding_heavy {
            let c = if s.state == 0 {
                go(a, 12, 5, frames).1
            } else {
                a
            };
            InputAction { vel: VelTag::HeavyWalk, ..c }
        } else {
            let c = if s.state == 0 {
                go(a, 5, 5, frames).1
            } else {
                a
            };
            InputAction { vel: VelTag::Walk, ..c }
        }
    } else if s.state == 1 {
        InputAction { vel: VelTag::Stop, ..go(a, 0, 2, frames).1 }
    } else {
        a
    }
}

/// Running: stop, dash, run attack, rowing, or keep running.
pub open spec fn state2(s: InputState, k: HeldKeys, frames: Map<i32, FrameInfo>, a: InputAction) -> InputAction {
    if !k.left && !k.right {
        let b = go(InputAction { running: false, ..a }, 218, 5, frames).1;
        if !frames.contains_key(218) {
            go(b, 0, 5, frames).1
        } else {
            b
        }
    } else if k.jump {
        InputAction { running: false, ..go(a, 213, 10, frames).1 }
    } else if k.att {
        let f: i32 = if s.holding_light {
            35
        } else if s.holding_heavy {
            50
        } else {
            85
        };
        InputAction { running: false, ..go(a, f, 10, frames).1 }
    } else {
        let b = if k.def {
            go(a, 102, 10, frames).1
        } else {
            a
        };
        InputAction { vel: VelTag::Run, ..b }
    }
}

/// Jumping: one air attack from frame 212, and steering.
pub open spec fn state4(s: InputState, k: HeldKeys, frames: Map<i32, FrameInfo>, a: InputAction) -> InputAction {
    let b = if k.att && a.frame.n == 212 && a.attlock == 0 {
        InputAction {
            attlock: 2,
            ..go(
                a,
                if s.holding_light {
                    30
                } else {
                    80
                },
                10,
                frames,
            ).1
        }
    } else {
        a
    };
    if k.left || k.right {
        InputAction { vel: VelTag::AirSteer, ..b }
    } else {
        b
    }
}

/// Attacking while catching: a throw when a direction is held, else the catch point's
/// attack, else the plain catch punch.
pub open spec fn catch_attack(k: HeldKeys, cp: CatchPoint, frames: Map<i32, FrameInfo>, a: InputAction) -> InputAction {
    if !k.att {
        a
    } else if ((k.left != k.right) || (k.up != k.down)) && cp.taction != 0 {
        let c = if cp.taction < 0 {
            go(
                InputAction {
                    facing: if a.facing > 0 {
                        -1i32
                    } else {
                        1
                    },
                    ..a
                },
                (-cp.taction) as i32,
                10,
                frames,
            ).1
        } else {
            go(a, cp.taction, 10, frames).1
        };
        InputAction { catch_counter: (c.catch_counter + 10) as i32, ..c }
    } else if cp.aaction != 0 {
        go(a, cp.aaction, 10, frames).1
    } else {
        go(a, 121, 12, frames).1
    }
}

/// The catch point's actions: attack, jump, and turning where it allows.
pub open spec fn catch_actions(k: HeldKeys, cp: CatchPoint, frames: Map<i32, FrameInfo>, a: InputAction) -> InputAction {
    let b1 = catch_attack(k, cp, frames, a);
    let b2 = if k.jump && b1.frame.n == 121 && cp.jaction != 0 {
        go(b1, cp.jaction, 10, frames).1
    } else if k.jump {
        go(b1, 122, 12, frames).1
    } else {
        b1
    };
    if cp.dircontrol == 1 {
        let b3 = if k.left {
            InputAction { facing: -1i32, ..b2 }
        } else {
            b2
        };
        if k.right {
            InputAction { facing: 1, ..b3 }
        } else {
            b3
        }
    } else {
        b2
    }
}

/// The catch point's actions, or without one the plain catch punch and throw.
pub open spec fn catch_or_punch(k: HeldKeys, w: InputWorld, frames: Map<i32, FrameInfo>, a: InputAction) -> InputAction {
    if !frames.contains_key(a.frame.n) {
        a
    } else {
        match w.cpoint {
            Some(cp) => catch_actions(k, cp, frames, a),
            None => {
                let b1 = if k.att {
                    go(a, 121, 12, frames).1
                } else {
                    a
                };
                if k.jump {
                    go(b1, 122, 12, frames).1
                } else {
                    b1
                }
            },
        }
    }
}

/// Turning by the direction keys.
pub open spec fn turn_by_keys(k: HeldKeys, b: InputAction) -> InputAction {
    let c = if k.left {
        InputAction { facing: -1i32, ..b }
    } else {
        b
    };
    if k.right {
        InputAction { facing: 1, ..c }
    } else {
        c
    }
}

/// Catching: the catch point's actions (or the plain catch punch and throw), then turning.
pub open spec fn state9(k: HeldKeys, w: InputWorld, frames: Map<i32, FrameInfo>, a: InputAction) -> InputAction {
    turn_by_keys(k, catch_or_punch(k, w, frames, a))
}

/// Falling: the recovery jump on frames 182 and 188.
pub open spec fn state12(k: HeldKeys, w: InputWorld, frames: Map<i32, FrameInfo>, a: InputAction) -> InputAction {
    let n = a.frame.n;
    if k.jump && (n == 182 || n == 188) && w.can_recover {
        let b = go(
            a,
            if n == 182 {
                100
            } else {
                108
            },
            10,
            frames,
        ).1;
        InputAction { vel: VelTag::Recover, ..b }
    } else {
        a
    }
}

/// Crouching after a jump (frame 215): rowing on defend, a dash or a jump on jump.
pub open spec fn state15(k: HeldKeys, w: InputWorld, frames: Map<i32, FrameInfo>, a: InputAction) -> InputAction {
    if a.frame.n != 215 {
        a
    } else {
        let b = if k.def {
            go(a, 102, 10, frames).1
        } else {
            a
        };
        if !k.jump {
            b
        } else if k.left != k.right {
            let c = go(b, 213, 10, frames).1;
            InputAction {
                facing: if k.right {
                    1
                } else {
                    -1i32
                },
                ..c
            }
        } else if w.vx_sign == 0 {
            InputAction {
                wait: WaitChange::IncBy { dv: 2, au: 10, out: 99 },
                next: Some((210i32, 10i32)),
                ..b
            }
        } else if (w.vx_sign > 0) == (b.facing > 0) {
            go(b, 213, 10, frames).1
        } else {
            go(b, 214, 10, frames).1
        }
    }
}

/// The keys by the state the TU started in.
pub open spec fn state_phase(s: InputState, k: HeldKeys, w: InputWorld, frames: Map<i32, FrameInfo>, a: InputAction) -> InputAction {
    let st = s.state;
    if st == 0 || st == 1 {
        state01(s, k, w, frames, a)
    } else if st == 2 {
        state2(s, k, frames, a)
    } else if st == 4 {
        state4(s, k, frames, a)
    } else if st == 5 {
        if k.att {
            go(a, 90, 10, frames).1
        } else {
            a
        }
    } else if st == 7 {
        if !k.def {
            go(a, 0, 5, frames).1
        } else {
            a
        }
    } else if st == 8 {
        InputAction { recover_defend: true, allow_switch_dir: false, ..a }
    } else if st == 9 {
        state9(k, w, frames, a)
    } else if st == 12 {
        state12(k, w, frames, a)
    } else if st == 3 {
        InputAction { event: Some(IdEvent::State3Frame), ..a }
    } else if st == 15 {
        state15(k, w, frames, a)
    } else {
        a
    }
}

/// One TU of key handling, given the combo (if any) that the keys completed.
pub open spec fn input_spec(s: InputState, k: HeldKeys, w: InputWorld, frames: Map<i32, FrameInfo>, h: Option<ComboHit>) -> InputAction {
    let a = pre_keys(s, k, frames);
    let (done, b) = combo_phase(s, a, h, w, frames);
    if done {
        b
    } else {
        state_phase(s, k, w, frames, b)
    }
}

/// Whether a throw is asked for while catching: attack with a direction held.
pub open spec fn throws(k: HeldKeys) -> bool {
    k.att && ((k.left != k.right) || (k.up != k.down))
}

/// A throw from this catch point stays in range: its action can be mirrored and the catch
/// counter has room for the throw's extra time.
pub open spec fn throw_fits(k: HeldKeys, cp: CatchPoint, catch_counter: i32) -> bool {
    throws(k) && cp.taction != 0 ==> cp.taction != i32::MIN && catch_counter <= i32::MAX - 10
}

/// The inputs key handling accepts: those where a throw stays in range.
pub open spec fn input_ok(s: InputState, k: HeldKeys, w: InputWorld) -> bool {
    s.state == 9 ==> match w.cpoint {
        Some(cp) => throw_fits(k, cp, s.catch_counter),
        None => true,
    }
}

fn go_exec(a: InputAction, f: i32, lock: i32, frames: &FrameTable) -> (r: (bool, InputAction))
    ensures
        r == go(a, f, lock, frames@),
{
    let mut fs = a.frame;
    let ok = trans_frame(&mut fs, f, lock, frames);
    if ok {
        (true, InputAction { frame: fs, entered: true, ..a })
    } else {
        (false, a)
    }
}

/// The mana a frame with `mp` costs.
pub fn frame_mp_cost(m: i32) -> (r: i32)
    ensures
        r == mp_cost_of(m),
        0 <= r < 1000,
{
    if m >= 0 {
        m % 1000
    } else {
        let k: i32 = -(m + 1);
        assert((k % 1000 + 1) % 1000 == (k + 1) % 1000) by (nonlinear_arith)
            requires
                k >= 0,
        ;
        (k % 1000 + 1) % 1000
    }
}

fn tag_next_exec(fd: FrameInfo, t: HitTag) -> (r: i32)
    ensures
        r == tag_next(fd, t),
{
    match t {
        HitTag::HitA => fd.hit_a,
        HitTag::HitD => fd.hit_d,
        HitTag::HitJ => fd.hit_j,
        HitTag::HitFa => fd.hit_fa,
        HitTag::HitUa => fd.hit_ua,
        HitTag::HitDa => fd.hit_da,
        HitTag::HitFj => fd.hit_fj,
        HitTag::HitUj => fd.hit_uj,
        HitTag::HitDj => fd.hit_dj,
        HitTag::HitJa => fd.hit_ja,
    }
}

fn hit_exec(a: InputAction, t: HitTag, mp: i32, frames: &FrameTable) -> (r: (bool, InputAction))
    ensures
        r == hit(a, t, mp, frames@),
{
    match frames.get(a.frame.n) {
        None => (false, a),
        Some(fd) => {
            let next = tag_next_exec(fd, t);
            if next == 0 || next == UNSPECIFIED {
                (false, a)
            } else {
                let basic = match t {
                    HitTag::HitA | HitTag::HitD | HitTag::HitJ => true,
                    _ => false,
                };
                let costly = fd.mp != 0 && !basic;
                let cost = frame_mp_cost(fd.mp);
                if costly && mp < cost {
                    (false, a)
                } else {
                    let a2 = if costly {
                        InputAction { mp_cost: cost, ..a }
                    } else {
                        a
                    };
                    go_exec(a2, next, 10, frames)
                }
            }
        },
    }
}

fn double_tap_exec(a: InputAction, s: InputState, face: i32, frames: &FrameTable) -> (r: InputAction)
    ensures
        r == double_tap(a, s, face, frames@),
{
    if s.holding_heavy {
        go_exec(a, 16, 10, frames).1
    } else {
        go_exec(InputAction { running: true, facing: face, ..a }, 9, 10, frames).1
    }
}

fn pre_keys_exec(s: InputState, k: HeldKeys, frames: &FrameTable) -> (r: InputAction)
    ensures
        r == pre_keys(s, k, frames@),
{
    let a0 = InputAction {
        frame: s.frame,
        entered: false,
        facing: s.facing,
        running: s.running,
        last_left: s.last_left,
        last_right: s.last_right,
        mp_cost: 0,
        catch_counter: s.catch_counter,
        attlock: s.attlock,
        want_super_punch: s.want_super_punch,
        allow_switch_dir: s.allow_switch_dir,
        recover_defend: false,
        vel: VelTag::Keep,
        event: None,
        wait: WaitChange::Keep,
        next: None,
        clear_combo: false,
    };
    let st = s.state;
    let a1 = if s.allow_switch_dir && (st == 0 || st == 1 || st == 2 || st == 4 || st == 5 || st == 7
        || st == 9) {
        if k.left && !k.right {
            InputAction { facing: -1, ..a0 }
        } else if k.right && !k.left {
            InputAction { facing: 1, ..a0 }
        } else {
            a0
        }
    } else {
        a0
    };
    let a2 = if (st == 0 || st == 1) && k.left && !s.last_left && k.double_left {
        double_tap_exec(a1, s, -1, frames)
    } else {
        a1
    };
    let a3 = if (st == 0 || st == 1) && k.right && !s.last_right && k.double_right {
        double_tap_exec(a2, s, 1, frames)
    } else {
        a2
    };
    InputAction { last_left: k.left, last_right: k.right, ..a3 }
}

#[verifier::rlimit(40)]
fn combo_exec(s: InputState, a: InputAction, h: Option<ComboHit>, w: InputWorld, frames: &FrameTable) -> (r: (bool, InputAction))
    ensures
        r == combo_phase(s, a, h, w, frames@),
{
    match h {
        None => (false, a),
        Some(c) => {
            if c.dja && s.is_rudolf_transform {
                (
                    true,
                    InputAction {
                        event: Some(IdEvent::RevertTransform),
                        clear_combo: true,
                        running: false,
                        ..a
                    },
                )
            } else {
                let fj = match c.tag {
                    HitTag::HitFj => true,
                    _ => false,
                };
                let a1 = if fj && s.id == 1 {
                    InputAction {
                        facing: if c.faces_right {
                            1
                        } else {
                            -1
                        },
                        ..a
                    }
                } else {
                    a
                };
                let flags = IdFlags {
                    holding: false,
                    transform_target_id: 0,
                    transform_caught_id: 0,
                    is_rudolf_transform: s.is_rudolf_transform,
                };
                let (blocked, _) = id_event(s.id, a1.frame.n, a1.frame.pn, IdEvent::GenericCombo, Some(c.tag), flags);
                if blocked {
                    (true, InputAction { clear_combo: true, ..a1 })
                } else {
                    let (ok, a2) = hit_exec(a1, c.tag, w.mp, frames);
                    if ok {
                        (true, InputAction { clear_combo: c.clear, running: false, ..a2 })
                    } else {
                        (false, a2)
                    }
                }
            }
        },
    }
}

fn walking_exec(s: InputState, k: HeldKeys, frames: &FrameTable, a: InputAction) -> (r: InputAction)
    ensures
        r == walking(s, k, frames@, a),
{
    if k.left || k.right || k.up || k.down {
        if s.holding_heavy {
            let c = if s.state == 0 {
                go_exec(a, 12, 5, frames).1
            } else {
                a
            };
            InputAction { vel: VelTag::HeavyWalk, ..c }
        } else {
            let c = if s.state == 0 {
                go_exec(a, 5, 5, frames).1
            } else {
                a
            };
            InputAction { vel: VelTag::Walk, ..c }
        }
    } else if s.state == 1 {
        InputAction { vel: VelTag::Stop, ..go_exec(a, 0, 2, frames).1 }
    } else {
        a
    }
}

fn after_attack_exec(s: InputState, k: HeldKeys, w: InputWorld, frames: &FrameTable, a: InputAction) -> (r: InputAction)
    ensures
        r == after_attack(s, k, w, frames@, a),
{
    let (ok_def, b) = if k.def && !s.holding_heavy {
        let (ok1, b1) = hit_exec(a, HitTag::HitD, w.mp, frames);
        if ok1 {
            (true, b1)
        } else {
            go_exec(b1, 110, 10, frames)
        }
    } else {
        (false, a)
    };
    if ok_def {
        InputAction { running: false, ..b }
    } else if k.jump && s.holding_heavy && !w.heavy_weapon_jump {
        b
    } else if k.jump {
        let (ok1, c1) = hit_exec(b, HitTag::HitJ, w.mp, frames);
        let (ok, c) = if ok1 {
            (true, c1)
        } else {
            go_exec(c1, 210, 10, frames)
        };
        if ok {
            InputAction { running: false, ..c }
        } else {
            walking_exec(s, k, frames, c)
        }
    } else {
        walking_exec(s, k, frames, b)
    }
}

fn state01_exec(s: InputState, k: HeldKeys, w: InputWorld, frames: &FrameTable, a: InputAction) -> (r: InputAction)
    ensures
        r == state01(s, k, w, frames@, a),
{
    if k.att && s.holding_heavy {
        go_exec(a, 50, 10, frames).1
    } else if k.att && s.holding_light {
        if w.just_throw {
            go_exec(a, 45, 10, frames).1
        } else if (k.left != k.right) && w.stand_throw {
            go_exec(a, 45, 10, frames).1
        } else if w.attackable || !w.stand_throw {
            if k.left != k.right {
                go_exec(a, 45, 10, frames).1
            } else {
                go_exec(
                    a,
                    if w.random_half {
                        20
                    } else {
                        25
                    },
                    10,
                    frames,
                ).1
            }
        } else {
            go_exec(a, 45, 10, frames).1
        }
    } else if k.att {
        let a1 = if a.want_super_punch {
            InputAction { want_super_punch: false, ..a }
        } else {
            a
        };
        let fr: i32 = if a.want_super_punch {
            70
        } else if w.random_half {
            60
        } else {
            65
        };
        let (ok1, b1) = hit_exec(a1, HitTag::HitA, w.mp, frames);
        let (ok, b) = if ok1 {
            (true, b1)
        } else {
            go_exec(b1, fr, 10, frames)
        };
        if ok {
            InputAction { running: false, ..b }
        } else {
            after_attack_exec(s, k, w, frames, b)
        }
    } else {
        after_attack_exec(s, k, w, frames, a)
    }
}

#[verifier::rlimit(40)]
fn state2_exec(s: InputState, k: HeldKeys, frames: &FrameTable, a: InputAction) -> (r: InputAction)
    ensures
        r == state2(s, k, frames@, a),
{
    if !k.left && !k.right {
        let b = go_exec(InputAction { running: false, ..a }, 218, 5, frames).1;
        if !frames.contains(218) {
            go_exec(b, 0, 5, frames).1
        } else {
            b
        }
    } else if k.jump {
        InputAction { running: false, ..go_exec(a, 213, 10, frames).1 }
    } else if k.att {
        let f: i32 = if s.holding_light {
            35
        } else if s.holding_heavy {
            50
        } else {
            85
        };
        InputAction { running: false, ..go_exec(a, f, 10, frames).1 }
    } else {
        let b = if k.def {
            go_exec(a, 102, 10, frames).1
        } else {
            a
        };
        InputAction { vel: VelTag::Run, ..b }
    }
}

fn state4_exec(s: InputState, k: HeldKeys, frames: &FrameTable, a: InputAction) -> (r: InputAction)
    ensures
        r == state4(s, k, frames@, a),
{
    let b = if k.att && a.frame.n == 212 && a.attlock == 0 {
        let f: i32 = if s.holding_light {
            30
        } else {
            80
        };
        InputAction { attlock: 2, ..go_exec(a, f, 10, frames).1 }
    } else {
        a
    };
    if k.left || k.right {
        InputAction { vel: VelTag::AirSteer, ..b }
    } else {
        b
    }
}

fn catch_attack_exec(k: HeldKeys, cp: CatchPoint, frames: &FrameTable, a: InputAction) -> (r: InputAction)
    requires
        throw_fits(k, cp, a.catch_counter),
    ensures
        r == catch_attack(k, cp, frames@, a),
{
    if !k.att {
        a
    } else if ((k.left != k.right) || (k.up != k.down)) && cp.taction != 0 {
        let c = if cp.taction < 0 {
            let fc: i32 = if a.facing > 0 {
                -1
            } else {
                1
            };
            go_exec(InputAction { facing: fc, ..a }, -cp.taction, 10, frames).1
        } else {
            go_exec(a, cp.taction, 10, frames).1
        };
        InputAction { catch_counter: c.catch_counter + 10, ..c }
    } else if cp.aaction != 0 {
        go_exec(a, cp.aaction, 10, frames).1
    } else {
        go_exec(a, 121, 12, frames).1
    }
}

#[verifier::rlimit(40)]
fn catch_actions_exec(k: HeldKeys, cp: CatchPoint, frames: &FrameTable, a: InputAction) -> (r: InputAction)
    requires
        throw_fits(k, cp, a.catch_counter),
    ensures
        r == catch_actions(k, cp, frames@, a),
{
    let b1 = catch_attack_exec(k, cp, frames, a);
    let b2 = if k.jump && b1.frame.n == 121 && cp.jaction != 0 {
        go_exec(b1, cp.jaction, 10, frames).1
    } else if k.jump {
        go_exec(b1, 122, 12, frames).1
    } else {
        b1
    };
    if cp.dircontrol == 1 {
        let b3 = if k.left {
            InputAction { facing: -1, ..b2 }
        } else {
            b2
        };
        if k.right {
            InputAction { facing: 1, ..b3 }
        } else {
            b3
        }
    } else {
        b2
    }
}

#[verifier::rlimit(40)]
fn catch_or_punch_exec(k: HeldKeys, w: InputWorld, frames: &FrameTable, a: InputAction) -> (r: InputAction)
    requires
        w.cpoint matches Some(cp) ==> throw_fits(k, cp, a.catch_counter),
    ensures
        r == catch_or_punch(k, w, frames@, a),
{
    if !frames.contains(a.frame.n) {
        a
    } else {
        match w.cpoint {
            Some(cp) => catch_actions_exec(k, cp, frames, a),
            None => {
                let b1 = if k.att {
                    go_exec(a, 121, 12, frames).1
                } else {
                    a
                };
                if k.jump {
                    go_exec(b1, 122, 12, frames).1
                } else {
                    b1
                }
            },
        }
    }
}

fn state9_exec(k: HeldKeys, w: InputWorld, frames: &FrameTable, a: InputAction) -> (r: InputAction)
    requires
        w.cpoint matches Some(cp) ==> throw_fits(k, cp, a.catch_counter),
    ensures
        r == state9(k, w, frames@, a),
{
    let b = catch_or_punch_exec(k, w, frames, a);
    let c = if k.left {
        InputAction { facing: -1, ..b }
    } else {
        b
    };
    if k.right {
        InputAction { facing: 1, ..c }
    } else {
        c
    }
}

fn state12_exec(k: HeldKeys, w: InputWorld, frames: &FrameTable, a: InputAction) -> (r: InputAction)
    ensures
        r == state12(k, w, frames@, a),
{
    let n = a.frame.n;
    if k.jump && (n == 182 || n == 188) && w.can_recover {
        let f: i32 = if n == 182 {
            100
        } else {
            108
        };
        let b = go_exec(a, f, 10, frames).1;
        InputAction { vel: VelTag::Recover, ..b }
    } else {
        a
    }
}

#[verifier::rlimit(40)]
fn state15_exec(k: HeldKeys, w: InputWorld, frames: &FrameTable, a: InputAction) -> (r: InputAction)
    ensures
        r == state15(k, w, frames@, a),
{
    if a.frame.n != 215 {
        a
    } else {
        let b = if k.def {
            go_exec(a, 102, 10, frames).1
        } else {
            a
        };
        if !k.jump {
            b
        } else if k.left != k.right {
            let c = go_exec(b, 213, 10, frames).1;
            InputAction {
                facing: if k.right {
                    1
                } else {
                    -1
                },
                ..c
            }
        } else if w.vx_sign == 0 {
            InputAction {
                wait: WaitChange::IncBy { dv: 2, au: 10, out: 99 },
                next: Some((210, 10)),
                ..b
            }
        } else if (w.vx_sign > 0) == (b.facing > 0) {
            go_exec(b, 213, 10, frames).1
        } else {
            go_exec(b, 214, 10, frames).1
        }
    }
}

fn state_phase_exec(s: InputState, k: HeldKeys, w: InputWorld, frames: &FrameTable, a: InputAction) -> (r: InputAction)
    requires
        input_ok(s, k, w),
        a.catch_counter == s.catch_counter,
    ensures
        r == state_phase(s, k, w, frames@, a),
{
    let st = s.state;
    if st == 0 || st == 1 {
        state01_exec(s, k, w, frames, a)
    } else if st == 2 {
        state2_exec(s, k, frames, a)
    } else if st == 4 {
        state4_exec(s, k, frames, a)
    } else if st == 5 {
        if k.att {
            go_exec(a, 90, 10, frames).1
        } else {
            a
        }
    } else if st == 7 {
        if !k.def {
            go_exec(a, 0, 5, frames).1
        } else {
            a
        }
    } else if st == 8 {
        InputAction { recover_defend: true, allow_switch_dir: false, ..a }
    } else if st == 9 {
        state9_exec(k, w, frames, a)
    } else if st == 12 {
        state12_exec(k, w, frames, a)
    } else if st == 3 {
        InputAction { event: Some(IdEvent::State3Frame), ..a }
    } else if st == 15 {
        state15_exec(k, w, frames, a)
    } else {
        a
    }
}

/// The frame tag a combo name triggers.
pub open spec fn tag_named(name: Seq<char>) -> Option<HitTag> {
    if name == "def"@ {
        Some(HitTag::HitD)
    } else if name == "jump"@ {
        Some(HitTag::HitJ)
    } else if name == "att"@ {
        Some(HitTag::HitA)
    } else if name == "D<A"@ || name == "D>A"@ {
        Some(HitTag::HitFa)
    } else if name == "DvA"@ {
        Some(HitTag::HitDa)
    } else if name == "D^A"@ {
        Some(HitTag::HitUa)
    } else if name == "D<J"@ || name == "D>J"@ || name == "D<AJ"@ || name == "D>AJ"@ {
        Some(HitTag::HitFj)
    } else if name == "DvJ"@ {
        Some(HitTag::HitDj)
    } else if name == "D^J"@ {
        Some(HitTag::HitUj)
    } else if name == "DJA"@ {
        Some(HitTag::HitJa)
    } else {
        None
    }
}

/// The frame tag a combo name triggers.
pub fn hit_tag_named(name: &str) -> (r: Option<HitTag>)
    ensures
        r == tag_named(name@),
{
    if str_eq(name, "def") {
        Some(HitTag::HitD)
    } else if str_eq(name, "jump") {
        Some(HitTag::HitJ)
    } else if str_eq(name, "att") {
        Some(HitTag::HitA)
    } else if str_eq(name, "D<A") || str_eq(name, "D>A") {
        Some(HitTag::HitFa)
    } else if str_eq(name, "DvA") {
        Some(HitTag::HitDa)
    } else if str_eq(name, "D^A") {
        Some(HitTag::HitUa)
    } else if str_eq(name, "D<J") || str_eq(name, "D>J") || str_eq(name, "D<AJ") || str_eq(
        name,
        "D>AJ",
    ) {
        Some(HitTag::HitFj)
    } else if str_eq(name, "DvJ") {
        Some(HitTag::HitDj)
    } else if str_eq(name, "D^J") {
        Some(HitTag::HitUj)
    } else if str_eq(name, "DJA") {
        Some(HitTag::HitJa)
    } else {
        None
    }
}

/// Whether the first combo named `name` clears the history when it fires (yes if none is).
pub open spec fn first_clear(defs: Seq<ComboDef>, name: Seq<char>) -> bool
    decreases defs.len(),
{
    if defs.len() == 0 {
        true
    } else if defs[0].name@ == name {
        defs[0].clear_on_combo
    } else {
        first_clear(defs.drop_first(), name)
    }
}

/// What combo `i` of `defs` fires, if its name has a tag.
pub open spec fn hit_of(defs: Seq<ComboDef>, i: int) -> Option<ComboHit> {
    let name = defs[i].name@;
    match tag_named(name) {
        None => None,
        Some(t) => Some(
            ComboHit {
                tag: t,
                dja: name == "DJA"@,
                faces_right: name.contains('>'),
                clear: first_clear(defs, name),
            },
        ),
    }
}

/// The names of the pressed keys, in the order they are fed to the combo decoder.
pub open spec fn pressed_names(k: HeldKeys) -> Seq<Seq<char>> {
    (if k.def { seq!["def"@] } else { Seq::empty() }) + (if k.jump { seq!["jump"@] } else { Seq::empty() })
        + (if k.att { seq!["att"@] } else { Seq::empty() }) + (if k.left { seq!["left"@] } else { Seq::empty() })
        + (if k.right { seq!["right"@] } else { Seq::empty() }) + (if k.up { seq!["up"@] } else { Seq::empty() })
        + (if k.down { seq!["down"@] } else { Seq::empty() })
}

/// The best matching combo is unique.
pub proof fn lemma_best_combo_unique(defs: Seq<ComboDef>, acts: Seq<Seq<char>>, i: int, j: int)
    requires
        is_best_combo(defs, acts, i),
        is_best_combo(defs, acts, j),
    ensures
        i == j,
{
    if i < j {
        assert(combo_matches(defs[i], acts));
    } else if j < i {
        assert(combo_matches(defs[j], acts));
    }
}

fn first_clear_exec(defs: &Vec<ComboDef>, name: &str) -> (r: bool)
    ensures
        r == first_clear(defs@, name@),
{
    let mut i: usize = 0;
    assert(defs@.subrange(0, defs@.len() as int) =~= defs@);
    while i < defs.len()
        invariant
            i <= defs@.len(),
            first_clear(defs@, name@) == first_clear(defs@.subrange(i as int, defs@.len() as int), name@),
        decreases defs@.len() - i,
    {
        let ghost rest = defs@.subrange(i as int, defs@.len() as int);
        assert(rest.drop_first() =~= defs@.subrange(i + 1, defs@.len() as int));
        assert(rest[0] == defs@[i as int]);
        if str_eq(defs[i].name.as_str(), name) {
            return defs[i].clear_on_combo;
        }
        i = i + 1;
    }
    true
}

proof fn lemma_fed_all_push(h: Seq<(Seq<char>, u32)>, acts: Seq<Seq<char>>, x: Seq<char>, age: u32)
    ensures
        fed_all(h, acts.push(x), age) == fed(fed_all(h, acts, age), x, age),
{
    assert(acts.push(x).drop_last() =~= acts);
}

fn feed_one(combo: &mut ComboDecoder, on: bool, name: &str)
    ensures
        final(combo).history() == (if on {
            fed(old(combo).history(), name@, old(combo).age())
        } else {
            old(combo).history()
        }),
        final(combo).age() == old(combo).age(),
        final(combo).timeout() == old(combo).timeout(),
        final(combo).combo_defs() == old(combo).combo_defs(),
{
    if on {
        combo.feed(name);
    }
}

#[verifier::rlimit(40)]
fn feed_pressed(combo: &mut ComboDecoder, k: HeldKeys)
    ensures
        final(combo).history() == fed_all(old(combo).history(), pressed_names(k), old(combo).age()),
        final(combo).age() == old(combo).age(),
        final(combo).timeout() == old(combo).timeout(),
        final(combo).combo_defs() == old(combo).combo_defs(),
{
    let ghost h0 = combo.history();
    let ghost age = combo.age();
    let ghost mut fedn: Seq<Seq<char>> = Seq::empty();
    assert(fed_all(h0, fedn, age) == h0);
    feed_one(combo, k.def, "def");
    proof {
        if k.def {
            lemma_fed_all_push(h0, fedn, "def"@, age);
            fedn = fedn.push("def"@);
        }
    }
    feed_one(combo, k.jump, "jump");
    proof {
        if k.jump {
            lemma_fed_all_push(h0, fedn, "jump"@, age);
            fedn = fedn.push("jump"@);
        }
    }
    feed_one(combo, k.att, "att");
    proof {
        if k.att {
            lemma_fed_all_push(h0, fedn, "att"@, age);
            fedn = fedn.push("att"@);
        }
    }
    feed_one(combo, k.left, "left");
    proof {
        if k.left {
            lemma_fed_all_push(h0, fedn, "left"@, age);
            fedn = fedn.push("left"@);
        }
    }
    feed_one(combo, k.right, "right");
    proof {
        if k.right {
            lemma_fed_all_push(h0, fedn, "right"@, age);
            fedn = fedn.push("right"@);
        }
    }
    feed_one(combo, k.up, "up");
    proof {
        if k.up {
            lemma_fed_all_push(h0, fedn, "up"@, age);
            fedn = fedn.push("up"@);
        }
    }
    feed_one(combo, k.down, "down");
    proof {
        if k.down {
            lemma_fed_all_push(h0, fedn, "down"@, age);
            fedn = fedn.push("down"@);
        }
    }
    assert(fedn =~= pressed_names(k));
}

/// One TU of key handling once the combo that fired (if any) is known.
pub fn input_decide(s: InputState, keys: HeldKeys, w: InputWorld, frames: &FrameTable, hit: Option<ComboHit>) -> (r: InputAction)
    requires
        input_ok(s, keys, w),
    ensures
        r == input_spec(s, keys, w, frames@, hit),
{
    let a = pre_keys_exec(s, keys, frames);
    let (done, b) = combo_exec(s, a, hit, w, frames);
    if done {
        b
    } else {
        state_phase_exec(s, keys, w, frames, b)
    }
}

/// One TU of a character's key handling: turning, double taps, feeding the combo decoder
/// and firing its combo, then the keys of the state the TU started in. Returns what it
/// decided and the combo that fired, if any.
pub fn input_step(
    s: &InputState,
    keys: HeldKeys,
    w: InputWorld,
    frames: &FrameTable,
    combo: &mut ComboDecoder,
) -> (r: (InputAction, Option<ComboHit>))
    requires
        input_ok(*s, keys, w),
    ensures
        ({
            let fedh = fed_all(old(combo).history(), pressed_names(keys), old(combo).age());
            let defs = old(combo).combo_defs();
            &&& r.0 == input_spec(*s, keys, w, frames@, r.1)
            &&& r.1 is None ==> forall|i: int|
                is_best_combo(defs, actions_of(fedh), i) ==> hit_of(defs, i) is None
            &&& r.1 is Some ==> exists|i: int|
                is_best_combo(defs, actions_of(fedh), i) && hit_of(defs, i) == r.1
            &&& final(combo).history() == (if r.0.clear_combo {
                Seq::<(Seq<char>, u32)>::empty()
            } else {
                fedh
            })
            &&& final(combo).age() == old(combo).age()
            &&& final(combo).timeout() == old(combo).timeout()
            &&& final(combo).combo_defs() == defs
        }),
{
    feed_pressed(combo, keys);
    let ghost defs = combo.combo_defs();
    let ghost acts = actions_of(combo.history());
    let hit: Option<ComboHit> = match combo.match_combo() {
        None => {
            assert forall|i: int| is_best_combo(defs, acts, i) implies hit_of(defs, i) is None by {
                assert(combo_matches(defs[i], acts));
            }
            None
        },
        Some(name) => {
            let ghost bi = choose|i: int| is_best_combo(defs, acts, i) && #[trigger] defs[i].name@ == name@;
            proof {
                assert forall|j: int| is_best_combo(defs, acts, j) implies j == bi by {
                    lemma_best_combo_unique(defs, acts, j, bi);
                }
            }
            match hit_tag_named(name.as_str()) {
                None => None,
                Some(t) => {
                    let cs = chars_of(name.as_str());
                    let clear = first_clear_exec(combo.combos(), name.as_str());
                    let h = ComboHit {
                        tag: t,
                        dja: str_eq(name.as_str(), "DJA"),
                        faces_right: has_char(&cs, '>'),
                        clear,
                    };
                    assert(hit_of(defs, bi) == Some(h));
                    Some(h)
                },
            }
        },
    };
    let r = input_decide(*s, keys, w, frames, hit);
    if r.clear_combo {
        combo.clear();
    }
    (r, hit)
}

/// How many TUs a dead body blinks before it is removed.
pub const DEAD_BLINK_TUS: i32 = 30;

/// One TU of the dead-body blink: (the counter after it, blinking, removed). A counter
/// below 0 is not running; one that has reached the end removes the body and stops.
pub open spec fn dead_blink_spec(c: i32) -> (i32, bool, bool) {
    if c < 0 {
        (c, false, false)
    } else if c >= DEAD_BLINK_TUS {
        (-1i32, false, true)
    } else {
        ((c + 1) as i32, true, false)
    }
}

/// One TU of the dead-body blink.
pub fn dead_blink_step(c: i32) -> (r: (i32, bool, bool))
    ensures
        r == dead_blink_spec(c),
{
    if c < 0 {
        (c, false, false)
    } else if c >= DEAD_BLINK_TUS {
        (-1, false, true)
    } else {
        (c + 1, true, false)
    }
}

/// A body armed at 0 blinks for exactly `DEAD_BLINK_TUS` TUs, one step each, and is removed
/// on the next one.
pub proof fn law_dead_blink_window(c: i32)
    ensures
        0 <= c < DEAD_BLINK_TUS ==> dead_blink_spec(c) == ((c + 1) as i32, true, false),
        c >= DEAD_BLINK_TUS ==> dead_blink_spec(c).2 && dead_blink_spec(c).0 < 0,
        c < 0 ==> !dead_blink_spec(c).2 && dead_blink_spec(c).0 == c,
{
}

/// A frame transition changes neither the facing nor the combo flags.
pub broadcast proof fn lemma_go_keeps(a: InputAction, f: i32, lock: i32, frames: Map<i32, FrameInfo>)
    ensures
        (#[trigger] go(a, f, lock, frames)).1.clear_combo == a.clear_combo,
        go(a, f, lock, frames).1.facing == a.facing,
{
}

/// A tagged move changes neither the facing nor the combo flags.
pub broadcast proof fn lemma_hit_keeps(a: InputAction, t: HitTag, mp: i32, frames: Map<i32, FrameInfo>)
    ensures
        (#[trigger] hit(a, t, mp, frames)).1.clear_combo == a.clear_combo,
        hit(a, t, mp, frames).1.facing == a.facing,
{
    broadcast use lemma_go_keeps;
}

proof fn lemma_state01_keeps(s: InputState, k: HeldKeys, w: InputWorld, frames: Map<i32, FrameInfo>, a: InputAction)
    ensures
        state01(s, k, w, frames, a).clear_combo == a.clear_combo,
        state01(s, k, w, frames, a).facing == a.facing,
{
    broadcast use lemma_go_keeps, lemma_hit_keeps;
}

proof fn lemma_state9_keeps(k: HeldKeys, w: InputWorld, frames: Map<i32, FrameInfo>, a: InputAction)
    ensures
        state9(k, w, frames, a).clear_combo == a.clear_combo,
        (a.facing == 1 || a.facing == -1) ==> (state9(k, w, frames, a).facing == 1 || state9(
            k,
            w,
            frames,
            a,
        ).facing == -1),
{
    broadcast use lemma_go_keeps;
}

proof fn lemma_state_phase_keeps(s: InputState, k: HeldKeys, w: InputWorld, frames: Map<i32, FrameInfo>, a: InputAction)
    ensures
        state_phase(s, k, w, frames, a).clear_combo == a.clear_combo,
        (a.facing == 1 || a.facing == -1) ==> (state_phase(s, k, w, frames, a).facing == 1
            || state_phase(s, k, w, frames, a).facing == -1),
{
    broadcast use lemma_go_keeps;
    lemma_state01_keeps(s, k, w, frames, a);
    lemma_state9_keeps(k, w, frames, a);
}

proof fn lemma_combo_phase_keeps(s: InputState, a: InputAction, h: Option<ComboHit>, w: InputWorld, frames: Map<i32, FrameInfo>)
    requires
        !a.clear_combo,
    ensures
        combo_phase(s, a, h, w, frames).1.clear_combo ==> h is Some,
        (a.facing == 1 || a.facing == -1) ==> (combo_phase(s, a, h, w, frames).1.facing == 1
            || combo_phase(s, a, h, w, frames).1.facing == -1),
{
    broadcast use lemma_go_keeps, lemma_hit_keeps;
}

proof fn lemma_pre_keys_keeps(s: InputState, k: HeldKeys, frames: Map<i32, FrameInfo>)
    ensures
        !pre_keys(s, k, frames).clear_combo,
        (s.facing == 1 || s.facing == -1) ==> (pre_keys(s, k, frames).facing == 1 || pre_keys(
            s,
            k,
            frames,
        ).facing == -1),
{
    broadcast use lemma_go_keeps;
}

/// The combo history is only cleared by a combo that fired: key handling with no combo
/// keeps every key fed this TU (unconsumed combos persist), and a character facing left or
/// right still faces left or right afterwards.
pub proof fn law_combo_history_persists(s: InputState, k: HeldKeys, w: InputWorld, frames: Map<i32, FrameInfo>, h: Option<ComboHit>)
    ensures
        input_spec(s, k, w, frames, h).clear_combo ==> h is Some,
        (s.facing == 1 || s.facing == -1) ==> (input_spec(s, k, w, frames, h).facing == 1
            || input_spec(s, k, w, frames, h).facing == -1),
{
    let a = pre_keys(s, k, frames);
    lemma_pre_keys_keeps(s, k, frames);
    let b = combo_phase(s, a, h, w, frames).1;
    lemma_combo_phase_keeps(s, a, h, w, frames);
    lemma_state_phase_keeps(s, k, w, frames, b);
}


/// Whether key handling accepts these inputs (see `input_ok`).
pub fn input_fits(s: InputState, k: HeldKeys, w: InputWorld) -> (r: bool)
    ensures
        r == input_ok(s, k, w),
{
    if s.state != 9 {
        return true;
    }
    match w.cpoint {
        None => true,
        Some(cp) => {
            let throws = k.att && ((k.left != k.right) || (k.up != k.down));
            !(throws && cp.taction != 0) || (cp.taction != i32::MIN && s.catch_counter <= i32::MAX - 10)
        },
    }
}


/// Running (state 2) with a direction held and no combo firing, jump dashes: frame 213 is
/// taken with lock 10 whenever the character has it and its lock allows, and the run ends.
pub proof fn law_run_jump_dashes(s: InputState, k: HeldKeys, w: InputWorld, frames: Map<i32, FrameInfo>)
    requires
        s.state == 2,
        k.left || k.right,
        k.jump,
        frames.contains_key(213),
        s.frame.lock <= 10,
    ensures
        input_spec(s, k, w, frames, None).frame == (FrameState {
            pn: s.frame.n,
            n: 213,
            wait_left: frames[213].wait,
            lock: 10,
        }),
        !input_spec(s, k, w, frames, None).running,
{
}


/// Standing with a direction held and no other key, a character starts walking: frame 5
/// (frame 12 with a heavy weapon) under lock 5, at walking speed.
pub proof fn law_stand_walks(s: InputState, k: HeldKeys, w: InputWorld, frames: Map<i32, FrameInfo>)
    requires
        s.state == 0,
        !k.att,
        !k.def,
        !k.jump,
        k.left || k.right || k.up || k.down,
        !k.double_left,
        !k.double_right,
        s.frame.lock <= 5,
    ensures
        !s.holding_heavy && frames.contains_key(5) ==> input_spec(s, k, w, frames, None).frame == (FrameState { pn: s.frame.n, n: 5, wait_left: frames[5].wait, lock: 5 }),
        !s.holding_heavy ==> input_spec(s, k, w, frames, None).vel == VelTag::Walk,
        s.holding_heavy && frames.contains_key(12) ==> input_spec(s, k, w, frames, None).frame == (FrameState { pn: s.frame.n, n: 12, wait_left: frames[12].wait, lock: 5 }),
        s.holding_heavy ==> input_spec(s, k, w, frames, None).vel == VelTag::HeavyWalk,
{
}

/// Walking with no key held stops: frame 0 under lock 2, and the character stands still.
pub proof fn law_walk_stops(s: InputState, k: HeldKeys, w: InputWorld, frames: Map<i32, FrameInfo>)
    requires
        s.state == 1,
        !k.att && !k.def && !k.jump && !k.left && !k.right && !k.up && !k.down,
        frames.contains_key(0),
        s.frame.lock <= 2,
    ensures
        input_spec(s, k, w, frames, None).frame == (FrameState { pn: s.frame.n, n: 0, wait_left: frames[0].wait, lock: 2 }),
        input_spec(s, k, w, frames, None).vel == VelTag::Stop,
{
}

/// A double tap of left (a fresh press) starts running left: frame 9 under lock 10.
pub proof fn law_double_tap_runs(s: InputState, k: HeldKeys, w: InputWorld, frames: Map<i32, FrameInfo>)
    requires
        s.state == 0 || s.state == 1,
        k.left && !k.right && !s.last_left && k.double_left,
        !k.att && !k.def && !k.jump,
        !s.holding_heavy,
        frames.contains_key(9),
        s.frame.lock <= 10,
    ensures
        input_spec(s, k, w, frames, None).running,
        input_spec(s, k, w, frames, None).facing == -1,
        input_spec(s, k, w, frames, None).frame == (FrameState { pn: s.frame.n, n: 9, wait_left: frames[9].wait, lock: 10 }),
        input_spec(s, k, w, frames, None).last_left,
{
}

/// A plain punch from standing or walking: frame 60 or 65 by the coin (70 when a super
/// punch is due, which it uses up), under lock 10, ending any run.
pub proof fn law_punch(s: InputState, k: HeldKeys, w: InputWorld, frames: Map<i32, FrameInfo>)
    requires
        s.state == 0 || s.state == 1,
        k.att,
        !s.holding_heavy && !s.holding_light,
        !k.double_left,
        !k.double_right,
        !frames.contains_key(s.frame.n) || frames[s.frame.n].hit_a == 0,
        frames.contains_key(60) && frames.contains_key(65) && frames.contains_key(70),
        s.frame.lock <= 10,
    ensures
        !s.want_super_punch && w.random_half ==> input_spec(s, k, w, frames, None).frame == (FrameState { pn: s.frame.n, n: 60, wait_left: frames[60].wait, lock: 10 }),
        !s.want_super_punch && !w.random_half ==> input_spec(s, k, w, frames, None).frame == (FrameState { pn: s.frame.n, n: 65, wait_left: frames[65].wait, lock: 10 }),
        s.want_super_punch ==> input_spec(s, k, w, frames, None).frame == (FrameState { pn: s.frame.n, n: 70, wait_left: frames[70].wait, lock: 10 }),
        !input_spec(s, k, w, frames, None).want_super_punch,
        !input_spec(s, k, w, frames, None).running,
{
}

/// Attacking with a heavy weapon throws it (frame 50); with a light weapon that is only for
/// throwing, frame 45.
pub proof fn law_weapon_attacks(s: InputState, k: HeldKeys, w: InputWorld, frames: Map<i32, FrameInfo>)
    requires
        s.state == 0 || s.state == 1,
        k.att,
        !k.double_left,
        !k.double_right,
        frames.contains_key(50) && frames.contains_key(45),
        s.frame.lock <= 10,
    ensures
        s.holding_heavy ==> input_spec(s, k, w, frames, None).frame == (FrameState { pn: s.frame.n, n: 50, wait_left: frames[50].wait, lock: 10 }),
        !s.holding_heavy && s.holding_light && w.just_throw ==> input_spec(s, k, w, frames, None).frame == (FrameState { pn: s.frame.n, n: 45, wait_left: frames[45].wait, lock: 10 }),
{
}

/// Standing, defend goes to frame 110 and jump to frame 210 (under lock 10) when the frame
/// has no tag of its own for them.
pub proof fn law_stand_defend_and_jump(s: InputState, k: HeldKeys, w: InputWorld, frames: Map<i32, FrameInfo>)
    requires
        s.state == 0,
        !k.att,
        !s.holding_heavy,
        !k.double_left,
        !k.double_right,
        !frames.contains_key(s.frame.n) || (frames[s.frame.n].hit_d == 0 && frames[s.frame.n].hit_j == 0),
        frames.contains_key(110) && frames.contains_key(210),
        s.frame.lock <= 10,
    ensures
        k.def ==> input_spec(s, k, w, frames, None).frame == (FrameState { pn: s.frame.n, n: 110, wait_left: frames[110].wait, lock: 10 }),
        !k.def && k.jump ==> input_spec(s, k, w, frames, None).frame == (FrameState { pn: s.frame.n, n: 210, wait_left: frames[210].wait, lock: 10 }),
        (k.def || k.jump) ==> !input_spec(s, k, w, frames, None).running,
{
}

/// Running: letting go of both directions stops (frame 218 under lock 5); attack gives the
/// running attack (85, 35 with a light weapon, 50 with a heavy one); otherwise the run
/// goes on at running speed.
pub proof fn law_running_keys(s: InputState, k: HeldKeys, w: InputWorld, frames: Map<i32, FrameInfo>)
    requires
        s.state == 2,
        frames.contains_key(218) && frames.contains_key(85) && frames.contains_key(35) && frames.contains_key(50),
        s.frame.lock <= 5,
    ensures
        !k.left && !k.right ==> input_spec(s, k, w, frames, None).frame == (FrameState { pn: s.frame.n, n: 218, wait_left: frames[218].wait, lock: 5 }),
        !k.left && !k.right ==> !input_spec(s, k, w, frames, None).running,
        (k.left || k.right) && !k.jump && k.att && !s.holding_light && !s.holding_heavy ==> input_spec(s, k, w, frames, None).frame == (FrameState { pn: s.frame.n, n: 85, wait_left: frames[85].wait, lock: 10 }),
        (k.left || k.right) && !k.jump && k.att && s.holding_light ==> input_spec(s, k, w, frames, None).frame == (FrameState { pn: s.frame.n, n: 35, wait_left: frames[35].wait, lock: 10 }),
        (k.left || k.right) && !k.jump && k.att && !s.holding_light && s.holding_heavy ==> input_spec(s, k, w, frames, None).frame == (FrameState { pn: s.frame.n, n: 50, wait_left: frames[50].wait, lock: 10 }),
        (k.left || k.right) && !k.jump && !k.att && !k.def ==> input_spec(s, k, w, frames, None).frame == s.frame
            && input_spec(s, k, w, frames, None).vel == VelTag::Run,
{
}

/// In the air, attack on frame 212 gives the jump attack (80, 30 with a light weapon) once:
/// the attack lock is set to 2.
pub proof fn law_jump_attack(s: InputState, k: HeldKeys, w: InputWorld, frames: Map<i32, FrameInfo>)
    requires
        s.state == 4,
        k.att,
        s.frame.n == 212,
        frames.contains_key(80) && frames.contains_key(30),
        s.frame.lock <= 10,
    ensures
        s.attlock == 0 && !s.holding_light ==> input_spec(s, k, w, frames, None).frame == (FrameState { pn: 212, n: 80, wait_left: frames[80].wait, lock: 10 }),
        s.attlock == 0 && s.holding_light ==> input_spec(s, k, w, frames, None).frame == (FrameState { pn: 212, n: 30, wait_left: frames[30].wait, lock: 10 }),
        s.attlock == 0 ==> input_spec(s, k, w, frames, None).attlock == 2,
        s.attlock != 0 ==> input_spec(s, k, w, frames, None).frame == s.frame,
{
}

/// Dashing, attack gives the dash attack (frame 90); defending stops when defend is let go
/// (frame 0, lock 5); a broken defence recovers and can not turn.
pub proof fn law_dash_defend_broken(s: InputState, k: HeldKeys, w: InputWorld, frames: Map<i32, FrameInfo>)
    requires
        frames.contains_key(90) && frames.contains_key(0),
        s.frame.lock <= 5,
    ensures
        s.state == 5 && k.att ==> input_spec(s, k, w, frames, None).frame == (FrameState { pn: s.frame.n, n: 90, wait_left: frames[90].wait, lock: 10 }),
        s.state == 7 && !k.def ==> input_spec(s, k, w, frames, None).frame == (FrameState { pn: s.frame.n, n: 0, wait_left: frames[0].wait, lock: 5 }),
        s.state == 8 ==> input_spec(s, k, w, frames, None).recover_defend
            && !input_spec(s, k, w, frames, None).allow_switch_dir,
        s.state == 3 ==> input_spec(s, k, w, frames, None).event == Some(IdEvent::State3Frame),
{
}

/// Falling, jump on frame 182 (or 188) recovers with frame 100 (or 108) while the character
/// can still recover.
pub proof fn law_fall_recovery(s: InputState, k: HeldKeys, w: InputWorld, frames: Map<i32, FrameInfo>)
    requires
        s.state == 12,
        k.jump,
        w.can_recover,
        frames.contains_key(100) && frames.contains_key(108),
        s.frame.lock <= 10,
    ensures
        s.frame.n == 182 ==> input_spec(s, k, w, frames, None).frame == (FrameState { pn: 182, n: 100, wait_left: frames[100].wait, lock: 10 }),
        s.frame.n == 188 ==> input_spec(s, k, w, frames, None).frame == (FrameState { pn: 188, n: 108, wait_left: frames[108].wait, lock: 10 }),
        s.frame.n == 182 || s.frame.n == 188 ==> input_spec(s, k, w, frames, None).vel == VelTag::Recover,
{
}

/// Crouching on frame 215, jump with one direction dashes that way (frame 213, facing it);
/// jump without direction or speed waits two TUs more and then jumps (frame 210).
pub proof fn law_crouch_jump(s: InputState, k: HeldKeys, w: InputWorld, frames: Map<i32, FrameInfo>)
    requires
        s.state == 15,
        s.frame.n == 215,
        k.jump,
        !k.def,
        frames.contains_key(213),
        s.frame.lock <= 10,
    ensures
        k.right && !k.left ==> input_spec(s, k, w, frames, None).frame == (FrameState { pn: 215, n: 213, wait_left: frames[213].wait, lock: 10 })
            && input_spec(s, k, w, frames, None).facing == 1,
        k.left && !k.right ==> input_spec(s, k, w, frames, None).facing == -1,
        k.left == k.right && w.vx_sign == 0 ==> input_spec(s, k, w, frames, None).wait == (WaitChange::IncBy { dv: 2, au: 10, out: 99 })
            && input_spec(s, k, w, frames, None).next == Some((210i32, 10i32)),
{
}

/// Combos: `DJA` reverts a Rudolf transform (and ends key handling); Louis's transform combo
/// is blocked; a combo whose tag leads to a free frame fires it under lock 10, clears the
/// history as the combo says and ends a run.
pub proof fn law_combos(s: InputState, k: HeldKeys, w: InputWorld, frames: Map<i32, FrameInfo>, c: ComboHit)
    requires
        !k.double_left,
        !k.double_right,
    ensures
        c.dja && s.is_rudolf_transform ==> input_spec(s, k, w, frames, Some(c)).event == Some(IdEvent::RevertTransform)
            && input_spec(s, k, w, frames, Some(c)).clear_combo && !input_spec(s, k, w, frames, Some(c)).running
            && input_spec(s, k, w, frames, Some(c)).frame == s.frame,
        !(c.dja && s.is_rudolf_transform) && s.id == 6 && c.tag == HitTag::HitJa ==> input_spec(s, k, w, frames, Some(c)).clear_combo
            && input_spec(s, k, w, frames, Some(c)).frame == s.frame,
        !(c.dja && s.is_rudolf_transform) && s.id != 6 && c.tag == HitTag::HitFa && frames.contains_key(s.frame.n)
            && frames[s.frame.n].mp == 0 && 0 < frames[s.frame.n].hit_fa < 999 && frames.contains_key(frames[s.frame.n].hit_fa)
            && s.frame.lock <= 10 ==> input_spec(s, k, w, frames, Some(c)).frame == (FrameState {
                pn: s.frame.n,
                n: frames[s.frame.n].hit_fa,
                wait_left: frames[frames[s.frame.n].hit_fa].wait,
                lock: 10,
            }) && input_spec(s, k, w, frames, Some(c)).clear_combo == c.clear && !input_spec(s, k, w, frames, Some(c)).running,
{
    let a = pre_keys(s, k, frames);
    assert(a.frame == s.frame);
    if !(c.dja && s.is_rudolf_transform) && s.id != 6 && c.tag == HitTag::HitFa && frames.contains_key(s.frame.n)
        && frames[s.frame.n].mp == 0 && 0 < frames[s.frame.n].hit_fa < 999 && frames.contains_key(frames[s.frame.n].hit_fa)
        && s.frame.lock <= 10 {
        let flags = IdFlags {
            holding: false,
            transform_target_id: 0,
            transform_caught_id: 0,
            is_rudolf_transform: s.is_rudolf_transform,
        };
        assert(!id_event_spec(s.id, a.frame.n, a.frame.pn, IdEvent::GenericCombo, Some(c.tag), flags).0);
        assert(hit(a, c.tag, w.mp, frames).0);
        assert(combo_phase(s, a, Some(c), w, frames).0);
    }
}

/// A special move costs the magnitude of its frame's `mp` modulo 1000 and needs that much
/// mana; without it the move does not go off.
#[verifier::rlimit(40)]
pub proof fn law_special_costs_mana(s: InputState, k: HeldKeys, w: InputWorld, frames: Map<i32, FrameInfo>, c: ComboHit)
    requires
        !k.double_left,
        !k.double_right,
        !(c.dja && s.is_rudolf_transform),
        s.id != 6,
        c.tag == HitTag::HitDa,
        frames.contains_key(s.frame.n),
        frames[s.frame.n].mp == 1250,
        frames[s.frame.n].hit_da == 240,
        frames.contains_key(240),
        s.frame.lock <= 10,
    ensures
        w.mp >= 250 ==> input_spec(s, k, w, frames, Some(c)).mp_cost == 250 && input_spec(s, k, w, frames, Some(c)).frame.n == 240,
        w.mp < 250 ==> input_spec(s, k, w, frames, Some(c)).mp_cost == 0,
{
    let a = pre_keys(s, k, frames);
    assert(a.frame == s.frame);
    let flags = IdFlags {
        holding: false,
        transform_target_id: 0,
        transform_caught_id: 0,
        is_rudolf_transform: s.is_rudolf_transform,
    };
    assert(!id_event_spec(s.id, a.frame.n, a.frame.pn, IdEvent::GenericCombo, Some(c.tag), flags).0);
    assert(mp_cost_of(1250) == 250);
    if w.mp >= 250 {
        assert(hit(a, c.tag, w.mp, frames).0);
        assert(combo_phase(s, a, Some(c), w, frames).0);
    } else {
        assert(!hit(a, c.tag, w.mp, frames).0);
        assert(hit(a, c.tag, w.mp, frames).1 == a);
        lemma_no_cost_in_states(s, k, w, frames, a);
    }
}


pub broadcast proof fn lemma_go_keeps_cost(a: InputAction, f: i32, lock: i32, frames: Map<i32, FrameInfo>)
    ensures
        (#[trigger] go(a, f, lock, frames)).1.mp_cost == a.mp_cost,
{
}

pub broadcast proof fn lemma_basic_hit_is_free(a: InputAction, t: HitTag, mp: i32, frames: Map<i32, FrameInfo>)
    requires
        t == HitTag::HitA || t == HitTag::HitD || t == HitTag::HitJ,
    ensures
        (#[trigger] hit(a, t, mp, frames)).1.mp_cost == a.mp_cost,
{
}

proof fn lemma_state01_free(s: InputState, k: HeldKeys, w: InputWorld, frames: Map<i32, FrameInfo>, a: InputAction)
    ensures
        state01(s, k, w, frames, a).mp_cost == a.mp_cost,
{
    broadcast use lemma_go_keeps_cost, lemma_basic_hit_is_free;
}

proof fn lemma_state9_free(k: HeldKeys, w: InputWorld, frames: Map<i32, FrameInfo>, a: InputAction)
    ensures
        state9(k, w, frames, a).mp_cost == a.mp_cost,
{
    broadcast use lemma_go_keeps_cost;
}

/// The per-state keys never spend mana: only a fired special move does.
pub proof fn lemma_no_cost_in_states(s: InputState, k: HeldKeys, w: InputWorld, frames: Map<i32, FrameInfo>, a: InputAction)
    ensures
        state_phase(s, k, w, frames, a).mp_cost == a.mp_cost,
{
    broadcast use lemma_go_keeps_cost;
    lemma_state01_free(s, k, w, frames, a);
    lemma_state9_free(k, w, frames, a);
}

} // verus!
