//! Per-character hooks: the event matrix of `id_update` and the per-TU flags of `id_tu`.
//! Velocity writes are `f64` in the game, so they come out as tags that the caller applies.
use vstd::prelude::*;

verus! {

/// The frame tags (`hit_*`) that a key or combo can trigger.
#[derive(Clone, Copy, Debug, PartialEq, Eq)]
pub enum HitTag {
    HitD,
    HitJ,
    HitA,
    HitFa,
    HitDa,
    HitUa,
    HitFj,
    HitDj,
    HitUj,
    HitJa,
}

/// The events a character's hooks react to.
#[derive(Clone, Copy, Debug, PartialEq, Eq)]
pub enum IdEvent {
    GenericCombo,
    State3Frame,
    State3FlyCrash,
    State3HitStop,
    State3FrameForce,
    State15Crouch,
    State1280Disappear,
    RudolfTransform,
    RevertTransform,
}

/// A change of the vertical velocity.
#[derive(Clone, Copy, Debug, PartialEq, Eq)]
pub enum VyChange {
    Keep,
    /// `vy += 1.0`
    AddOne,
    /// `vy -= 0.5`
    SubHalf,
    /// `vy -= 0.3`
    SubThreeTenths,
    /// `vy = -6.8`
    Rise,
}

/// A request to the frame transistor.
#[derive(Clone, Copy, Debug, PartialEq, Eq)]
pub enum WaitChange {
    Keep,
    /// `set_wait(value, au, out)`
    SetTo { value: i32, au: i32, out: i32 },
    /// `inc_wait(dv, au, out)`
    IncBy { dv: i32, au: i32, out: i32 },
}

/// What a hook reads of the character besides its id and frames.
#[derive(Clone, Copy, Debug, PartialEq, Eq)]
pub struct IdFlags {
    /// whether it holds a caught character
    pub holding: bool,
    pub transform_target_id: i32,
    pub transform_caught_id: i32,
    pub is_rudolf_transform: bool,
}

/// What an `id_update` event changes.
#[derive(Clone, Copy, Debug, PartialEq, Eq)]
pub struct IdEffect {
    pub vy: VyChange,
    pub wait: WaitChange,
    pub stuck: Option<bool>,
    pub timein: Option<i32>,
    pub timeout: Option<i32>,
    /// hide the sprite
    pub hide: bool,
    pub super_armor: bool,
    /// start the disappear counter at 0
    pub start_disappear: bool,
    pub blink: bool,
    /// take the held character as the transform target, with this target id
    pub retarget: Option<i32>,
    pub set_rudolf_transform: Option<bool>,
    pub pending_transform: bool,
    pub pending_revert_transform: bool,
}

/// An effect that changes nothing.
pub open spec fn no_effect() -> IdEffect {
    IdEffect {
        vy: VyChange::Keep,
        wait: WaitChange::Keep,
        stuck: None,
        timein: None,
        timeout: None,
        hide: false,
        super_armor: false,
        start_disappear: false,
        blink: false,
        retarget: None,
        set_rudolf_transform: None,
        pending_transform: false,
        pending_revert_transform: false,
    }
}

fn none_changed() -> (r: IdEffect)
    ensures
        r == no_effect(),
{
    IdEffect {
        vy: VyChange::Keep,
        wait: WaitChange::Keep,
        stuck: None,
        timein: None,
        timeout: None,
        hide: false,
        super_armor: false,
        start_disappear: false,
        blink: false,
        retarget: None,
        set_rudolf_transform: None,
        pending_transform: false,
        pending_revert_transform: false,
    }
}

/// The event matrix: whether the event was handled (the caller then skips its default),
/// and what it changes, for character `id` in frame `n` coming from frame `pn`.
pub open spec fn id_event_spec(id: i32, n: i32, pn: i32, ev: IdEvent, tag: Option<HitTag>, f: IdFlags) -> (bool, IdEffect) {
    let none = no_effect();
    match ev {
        IdEvent::GenericCombo => {
            if id == 6 && tag == Some(HitTag::HitJa) {
                (true, none)
            } else {
                (false, none)
            }
        },
        IdEvent::State3Frame => {
            if id == 1 && n == 267 {
                (true, IdEffect { vy: VyChange::AddOne, ..none })
            } else if id == 5 && 273 <= n <= 276 {
                (true, IdEffect { vy: VyChange::Rise, ..none })
            } else {
                (false, none)
            }
        },
        IdEvent::State3FlyCrash => {
            if id == 10 {
                (true, IdEffect { wait: WaitChange::SetTo { value: 0, au: 10, out: 1 }, ..none })
            } else {
                (false, none)
            }
        },
        IdEvent::State3HitStop => {
            if id == 11 && (n == 271 || n == 276 || n == 280) {
                (
                    true,
                    IdEffect {
                        stuck: Some(false),
                        timein: Some(1),
                        timeout: Some(2),
                        wait: WaitChange::IncBy { dv: 1, au: 10, out: 1 },
                        ..none
                    },
                )
            } else if id == 11 && n == 273 {
                (true, IdEffect { stuck: Some(true), timeout: Some(2), ..none })
            } else {
                (false, none)
            }
        },
        IdEvent::State3FrameForce => { (id == 11 && (n == 275 || n == 278 || n == 279), none) },
        IdEvent::State15Crouch => {
            if id == 1 && 267 <= pn <= 272 {
                (true, IdEffect { wait: WaitChange::IncBy { dv: -1i32, au: 10, out: 1 }, ..none })
            } else {
                (false, none)
            }
        },
        IdEvent::State1280Disappear => {
            if id == 5 && n == 257 {
                (true, IdEffect { hide: true, super_armor: true, start_disappear: true, ..none })
            } else {
                (false, none)
            }
        },
        IdEvent::RudolfTransform => {
            if (id == 5 || id == 0) && f.holding {
                (
                    true,
                    IdEffect {
                        retarget: Some(f.transform_caught_id),
                        set_rudolf_transform: Some(true),
                        blink: true,
                        pending_transform: true,
                        ..none
                    },
                )
            } else if (id == 5 || id == 0) && f.transform_target_id != 0 {
                (true, IdEffect { set_rudolf_transform: Some(true), pending_transform: true, ..none })
            } else {
                (false, none)
            }
        },
        IdEvent::RevertTransform => {
            if f.is_rudolf_transform {
                (
                    true,
                    IdEffect {
                        set_rudolf_transform: Some(false),
                        pending_revert_transform: true,
                        ..none
                    },
                )
            } else {
                (false, none)
            }
        },
    }
}

/// Run one event of a character's hook matrix.
pub fn id_event(id: i32, n: i32, pn: i32, ev: IdEvent, tag: Option<HitTag>, f: IdFlags) -> (r: (bool, IdEffect))
    ensures
        r == id_event_spec(id, n, pn, ev, tag, f),
{
    let none = none_changed();
    match ev {
        IdEvent::GenericCombo => {
            let ja = match tag {
                Some(HitTag::HitJa) => true,
                _ => false,
            };
            (id == 6 && ja, none)
        },
        IdEvent::State3Frame => {
            if id == 1 && n == 267 {
                (true, IdEffect { vy: VyChange::AddOne, ..none })
            } else if id == 5 && 273 <= n && n <= 276 {
                (true, IdEffect { vy: VyChange::Rise, ..none })
            } else {
                (false, none)
            }
        },
        IdEvent::State3FlyCrash => {
            if id == 10 {
                (true, IdEffect { wait: WaitChange::SetTo { value: 0, au: 10, out: 1 }, ..none })
            } else {
                (false, none)
            }
        },
        IdEvent::State3HitStop => {
            if id == 11 && (n == 271 || n == 276 || n == 280) {
                (
                    true,
                    IdEffect {
                        stuck: Some(false),
                        timein: Some(1),
                        timeout: Some(2),
                        wait: WaitChange::IncBy { dv: 1, au: 10, out: 1 },
                        ..none
                    },
                )
            } else if id == 11 && n == 273 {
                (true, IdEffect { stuck: Some(true), timeout: Some(2), ..none })
            } else {
                (false, none)
            }
        },
        IdEvent::State3FrameForce => { (id == 11 && (n == 275 || n == 278 || n == 279), none) },
        IdEvent::State15Crouch => {
            if id == 1 && 267 <= pn && pn <= 272 {
                (true, IdEffect { wait: WaitChange::IncBy { dv: -1, au: 10, out: 1 }, ..none })
            } else {
                (false, none)
            }
        },
        IdEvent::State1280Disappear => {
            if id == 5 && n == 257 {
                (true, IdEffect { hide: true, super_armor: true, start_disappear: true, ..none })
            } else {
                (false, none)
            }
        },
        IdEvent::RudolfTransform => {
            if (id == 5 || id == 0) && f.holding {
                (
                    true,
                    IdEffect {
                        retarget: Some(f.transform_caught_id),
                        set_rudolf_transform: Some(true),
                        blink: true,
                        pending_transform: true,
                        ..none
                    },
                )
            } else if (id == 5 || id == 0) && f.transform_target_id != 0 {
                (true, IdEffect { set_rudolf_transform: Some(true), pending_transform: true, ..none })
            } else {
                (false, none)
            }
        },
        IdEvent::RevertTransform => {
            if f.is_rudolf_transform {
                (
                    true,
                    IdEffect {
                        set_rudolf_transform: Some(false),
                        pending_revert_transform: true,
                        ..none
                    },
                )
            } else {
                (false, none)
            }
        },
    }
}

/// An event that a hook does not handle changes nothing; a reverted transform can not be
/// reverted again, and only Rudolf (or a copy, id 0) transforms.
pub proof fn law_unhandled_changes_nothing(id: i32, n: i32, pn: i32, ev: IdEvent, tag: Option<HitTag>, f: IdFlags)
    ensures
        !id_event_spec(id, n, pn, ev, tag, f).0 ==> id_event_spec(id, n, pn, ev, tag, f).1
            == no_effect(),
        ev == IdEvent::RevertTransform && id_event_spec(id, n, pn, ev, tag, f).0 ==> !id_event_spec(
            id,
            n,
            pn,
            ev,
            tag,
            IdFlags { is_rudolf_transform: false, ..f },
        ).0,
        ev == IdEvent::RudolfTransform && id_event_spec(id, n, pn, ev, tag, f).0 ==> (id == 5 || id
            == 0),
{
}

/// How long a disappearing body stays hidden before it blinks back, in TUs.
pub const DISAPPEAR_SHADOW_BLINK: i32 = 120;
/// When the blinking of a disappeared body ends, in TUs.
pub const DISAPPEAR_BODY_BLINK: i32 = 150;

/// A per-TU velocity change that the caller computes from the character's data.
#[derive(Clone, Copy, Debug, PartialEq, Eq)]
pub enum Motion {
    Still,
    /// `vz = dirv * walking_speedz`
    WalkZ,
    /// Firen burning: `vx += 0.1 * facing`, `vz = dirv * running_speedz`
    FirenBurn,
    /// ice drag: `vx *= 0.85`, `vz *= 0.85`
    IceDrag,
    /// other burning characters: `vx += 0.05 * facing`
    BurnDrift,
}

/// What `id_tu` reads of a character.
#[derive(Clone, Copy, Debug, PartialEq, Eq)]
pub struct IdTuInput {
    pub id: i32,
    pub n: i32,
    pub pn: i32,
    pub state: i32,
    pub counter_disappear: i32,
    /// the frame transistor's wait
    pub wait: i32,
    /// the frame's own wait left
    pub wait_left: i32,
    pub holding: bool,
}

/// What one TU of the per-character hooks changes.
#[derive(Clone, Copy, Debug, PartialEq, Eq)]
pub struct IdStep {
    pub counter_disappear: i32,
    pub visible: Option<bool>,
    pub blink: Option<bool>,
    pub super_armor: Option<bool>,
    pub stuck: Option<bool>,
    pub timeout: Option<i32>,
    pub wait: WaitChange,
    pub vy: VyChange,
    pub motion: Motion,
    /// John's heal aura: hit points grow
    pub heal: bool,
    /// the ice breaks when the frame ends
    pub broken_effect: bool,
}

/// The disappear counter after one TU, with what it shows: (counter, visible, blink, timeout).
pub open spec fn disappear_spec(c: i32) -> (i32, Option<bool>, Option<bool>, Option<i32>) {
    if c < 0 {
        (c, None, None, None)
    } else if c < DISAPPEAR_SHADOW_BLINK {
        ((c + 1) as i32, Some(false), None, None)
    } else if c < DISAPPEAR_BODY_BLINK {
        ((c + 1) as i32, Some((c + 1) % 2 == 0), Some(true), None)
    } else if c == DISAPPEAR_BODY_BLINK {
        ((c + 1) as i32, Some(true), Some(true), Some(30i32))
    } else {
        (-1i32, Some(true), Some(false), None)
    }
}

/// Whether the Firen burn blink shows: the transistor wait modulo 4 (truncated) is below 2.
pub open spec fn burn_blink(wait: i32) -> bool {
    wait < 0 || wait % 4 < 2
}

/// The blink after the per-character rules.
pub open spec fn id_blink(s: IdTuInput, before: Option<bool>) -> Option<bool> {
    if s.id == 7 && (s.state == 18 || s.state == 19) {
        Some(burn_blink(s.wait))
    } else if s.id == 5 && s.n == 240 && s.holding {
        Some(true)
    } else if s.id == 11 && (s.n == 240 || s.n == 245 || s.n == 250 || s.n == 271 || s.n == 276
        || s.n == 280) {
        Some(s.n % 2 == 0)
    } else {
        before
    }
}

/// Super armour from the character's casting frames and the heal state.
pub open spec fn id_super_armor(s: IdTuInput) -> Option<bool> {
    let n = s.n;
    if s.state == 1700 {
        Some(true)
    } else if s.id == 2 && 240 <= n < 280 {
        Some(true)
    } else if s.id == 6 && 240 <= n < 260 {
        Some(true)
    } else if s.id == 7 && 240 <= n < 255 {
        Some(true)
    } else if s.id == 8 && 240 <= n < 260 {
        Some(true)
    } else if s.id == 9 && 240 <= n < 270 {
        Some(n % 3 != 0)
    } else if 50 <= s.id <= 60 && 240 <= n < 300 {
        Some(true)
    } else {
        None
    }
}

pub open spec fn id_wait(s: IdTuInput) -> WaitChange {
    if s.id == 1 && s.state == 15 && 267 <= s.pn <= 272 {
        WaitChange::IncBy { dv: -1i32, au: 10, out: 1 }
    } else if s.id == 10 && s.n == 253 {
        WaitChange::SetTo { value: 0, au: 10, out: 1 }
    } else {
        WaitChange::Keep
    }
}

pub open spec fn id_vy(s: IdTuInput) -> VyChange {
    if s.id == 1 && s.state == 3 && s.n == 267 {
        VyChange::AddOne
    } else if s.id == 1 && s.n == 253 {
        VyChange::SubHalf
    } else if s.id == 5 && s.state == 3 && 273 <= s.n <= 276 {
        VyChange::Rise
    } else if s.id == 10 && s.state == 19 {
        VyChange::SubThreeTenths
    } else {
        VyChange::Keep
    }
}

pub open spec fn id_motion(s: IdTuInput) -> Motion {
    if s.state == 301 {
        Motion::WalkZ
    } else if s.id == 7 && (s.state == 18 || s.state == 19) {
        Motion::FirenBurn
    } else if s.id == 8 && s.state == 13 {
        Motion::IceDrag
    } else if s.state == 18 || s.state == 19 {
        Motion::BurnDrift
    } else {
        Motion::Still
    }
}

/// One TU of the per-character hooks (the events they fire come from `id_step_events`).
pub open spec fn id_step_spec(s: IdTuInput) -> IdStep {
    let d = disappear_spec(s.counter_disappear);
    IdStep {
        counter_disappear: d.0,
        visible: d.1,
        blink: id_blink(s, d.2),
        super_armor: id_super_armor(s),
        stuck: if s.id == 8 && s.state == 13 {
            Some(s.wait > 2)
        } else {
            None
        },
        timeout: d.3,
        wait: id_wait(s),
        vy: id_vy(s),
        motion: id_motion(s),
        heal: s.id == 2 && s.state == 1700,
        broken_effect: s.state == 13 && s.wait == 0 && s.wait_left == 0,
    }
}

/// The events that one TU of the hooks fires, in order, after its own changes.
pub open spec fn id_step_events(s: IdTuInput) -> Seq<IdEvent> {
    let a = if s.id == 5 && s.n == 240 && s.holding {
        seq![IdEvent::RudolfTransform]
    } else {
        Seq::empty()
    };
    let b = if s.id == 5 && s.n == 298 && s.state == 501 {
        seq![IdEvent::RudolfTransform]
    } else {
        Seq::empty()
    };
    let c = if s.id == 5 && s.n == 257 {
        seq![IdEvent::State1280Disappear]
    } else {
        Seq::empty()
    };
    let d = if s.state == 9 && s.n == 240 {
        seq![IdEvent::RudolfTransform]
    } else {
        Seq::empty()
    };
    a + b + c + d
}

fn disappear_step(c: i32) -> (r: (i32, Option<bool>, Option<bool>, Option<i32>))
    ensures
        r == disappear_spec(c),
{
    if c < 0 {
        (c, None, None, None)
    } else if c < DISAPPEAR_SHADOW_BLINK {
        (c + 1, Some(false), None, None)
    } else if c < DISAPPEAR_BODY_BLINK {
        (c + 1, Some((c + 1) % 2 == 0), Some(true), None)
    } else if c == DISAPPEAR_BODY_BLINK {
        (c + 1, Some(true), Some(true), Some(30))
    } else {
        (-1, Some(true), Some(false), None)
    }
}

/// One TU of the per-character hooks: the changes, and the events to run afterwards.
pub fn id_step(s: IdTuInput) -> (r: (IdStep, Vec<IdEvent>))
    ensures
        r.0 == id_step_spec(s),
        r.1@ == id_step_events(s),
{
    let d = disappear_step(s.counter_disappear);
    let n = s.n;
    let id = s.id;
    let st = s.state;
    let blink = if id == 7 && (st == 18 || st == 19) {
        Some(s.wait < 0 || s.wait % 4 < 2)
    } else if id == 5 && n == 240 && s.holding {
        Some(true)
    } else if id == 11 && (n == 240 || n == 245 || n == 250 || n == 271 || n == 276 || n == 280) {
        Some(n % 2 == 0)
    } else {
        d.2
    };
    let super_armor = if st == 1700 {
        Some(true)
    } else if id == 2 && 240 <= n && n < 280 {
        Some(true)
    } else if id == 6 && 240 <= n && n < 260 {
        Some(true)
    } else if id == 7 && 240 <= n && n < 255 {
        Some(true)
    } else if id == 8 && 240 <= n && n < 260 {
        Some(true)
    } else if id == 9 && 240 <= n && n < 270 {
        Some(n % 3 != 0)
    } else if 50 <= id && id <= 60 && 240 <= n && n < 300 {
        Some(true)
    } else {
        None
    };
    let wait = if id == 1 && st == 15 && 267 <= s.pn && s.pn <= 272 {
        WaitChange::IncBy { dv: -1, au: 10, out: 1 }
    } else if id == 10 && n == 253 {
        WaitChange::SetTo { value: 0, au: 10, out: 1 }
    } else {
        WaitChange::Keep
    };
    let vy = if id == 1 && st == 3 && n == 267 {
        VyChange::AddOne
    } else if id == 1 && n == 253 {
        VyChange::SubHalf
    } else if id == 5 && st == 3 && 273 <= n && n <= 276 {
        VyChange::Rise
    } else if id == 10 && st == 19 {
        VyChange::SubThreeTenths
    } else {
        VyChange::Keep
    };
    let motion = if st == 301 {
        Motion::WalkZ
    } else if id == 7 && (st == 18 || st == 19) {
        Motion::FirenBurn
    } else if id == 8 && st == 13 {
        Motion::IceDrag
    } else if st == 18 || st == 19 {
        Motion::BurnDrift
    } else {
        Motion::Still
    };
    let step = IdStep {
        counter_disappear: d.0,
        visible: d.1,
        blink,
        super_armor,
        stuck: if id == 8 && st == 13 {
            Some(s.wait > 2)
        } else {
            None
        },
        timeout: d.3,
        wait,
        vy,
        motion,
        heal: id == 2 && st == 1700,
        broken_effect: st == 13 && s.wait == 0 && s.wait_left == 0,
    };
    let mut events: Vec<IdEvent> = Vec::new();
    if id == 5 && n == 240 && s.holding {
        events.push(IdEvent::RudolfTransform);
    }
    if id == 5 && n == 298 && st == 501 {
        events.push(IdEvent::RudolfTransform);
    }
    if id == 5 && n == 257 {
        events.push(IdEvent::State1280Disappear);
    }
    if st == 9 && n == 240 {
        events.push(IdEvent::RudolfTransform);
    }
    assert(events@ =~= id_step_events(s));
    (step, events)
}

/// The disappear counter runs hidden, then blinks, then shows the body and stops: from any
/// count it only moves forward by one TU, or ends at -1 after the blinking, and once ended it
/// stays ended.
pub proof fn law_disappear_runs_out(c: i32)
    ensures
        c < 0 ==> disappear_spec(c).0 == c,
        0 <= c <= DISAPPEAR_BODY_BLINK ==> disappear_spec(c).0 == c + 1,
        c > DISAPPEAR_BODY_BLINK ==> disappear_spec(c).0 == -1 && disappear_spec(c).1 == Some(true),
        0 <= c < DISAPPEAR_SHADOW_BLINK ==> disappear_spec(c).1 == Some(false),
{
}


/// The hook matrix by character: Louis (6) blocks only the transform combo; Deep (1) rises on
/// frame 267 and Rudolf (5) lifts off on 273 to 276 of an attack; Woody (10) ends a crash wait
/// at once; Davis (11) hit-stops on 271, 276, 280 (delayed 1, for 2) and freezes on 273;
/// Davis's force frames 275, 278, 279 are blocked; Deep's crouch after 267 to 272 waits one
/// less; Rudolf's frame 257 disappears.
pub proof fn law_hook_matrix(id: i32, n: i32, pn: i32, tag: Option<HitTag>, f: IdFlags)
    ensures
        id_event_spec(id, n, pn, IdEvent::GenericCombo, tag, f).0 == (id == 6 && tag == Some(HitTag::HitJa)),
        id == 1 && n == 267 ==> id_event_spec(id, n, pn, IdEvent::State3Frame, tag, f) == (true, IdEffect { vy: VyChange::AddOne, ..no_effect() }),
        id == 5 && 273 <= n <= 276 ==> id_event_spec(id, n, pn, IdEvent::State3Frame, tag, f) == (true, IdEffect { vy: VyChange::Rise, ..no_effect() }),
        !(id == 1 && n == 267) && !(id == 5 && 273 <= n <= 276) ==> !id_event_spec(id, n, pn, IdEvent::State3Frame, tag, f).0,
        id_event_spec(id, n, pn, IdEvent::State3FlyCrash, tag, f).0 == (id == 10),
        id == 10 ==> id_event_spec(id, n, pn, IdEvent::State3FlyCrash, tag, f).1.wait == (WaitChange::SetTo { value: 0, au: 10, out: 1 }),
        id == 11 && (n == 271 || n == 276 || n == 280) ==> id_event_spec(id, n, pn, IdEvent::State3HitStop, tag, f).1.stuck == Some(false)
            && id_event_spec(id, n, pn, IdEvent::State3HitStop, tag, f).1.timein == Some(1i32)
            && id_event_spec(id, n, pn, IdEvent::State3HitStop, tag, f).1.timeout == Some(2i32),
        id == 11 && n == 273 ==> id_event_spec(id, n, pn, IdEvent::State3HitStop, tag, f).1.stuck == Some(true)
            && id_event_spec(id, n, pn, IdEvent::State3HitStop, tag, f).1.timeout == Some(2i32),
        id != 11 ==> !id_event_spec(id, n, pn, IdEvent::State3HitStop, tag, f).0,
        id_event_spec(id, n, pn, IdEvent::State3FrameForce, tag, f).0 == (id == 11 && (n == 275 || n == 278 || n == 279)),
        id_event_spec(id, n, pn, IdEvent::State15Crouch, tag, f).0 == (id == 1 && 267 <= pn <= 272),
        id == 1 && 267 <= pn <= 272 ==> id_event_spec(id, n, pn, IdEvent::State15Crouch, tag, f).1.wait == (WaitChange::IncBy { dv: -1i32, au: 10, out: 1 }),
        id_event_spec(id, n, pn, IdEvent::State1280Disappear, tag, f).0 == (id == 5 && n == 257),
        id == 5 && n == 257 ==> id_event_spec(id, n, pn, IdEvent::State1280Disappear, tag, f).1.hide
            && id_event_spec(id, n, pn, IdEvent::State1280Disappear, tag, f).1.start_disappear
            && id_event_spec(id, n, pn, IdEvent::State1280Disappear, tag, f).1.super_armor,
{
}

/// Rudolf (or a copy, id 0) transforms into the character it holds (taking its caught id)
/// or into the one it last took; a transform is reverted only while transformed.
pub proof fn law_transforms(id: i32, n: i32, pn: i32, tag: Option<HitTag>, f: IdFlags)
    ensures
        (id == 5 || id == 0) && f.holding ==> id_event_spec(id, n, pn, IdEvent::RudolfTransform, tag, f).1.retarget
            == Some(f.transform_caught_id) && id_event_spec(id, n, pn, IdEvent::RudolfTransform, tag, f).1.pending_transform
            && id_event_spec(id, n, pn, IdEvent::RudolfTransform, tag, f).1.set_rudolf_transform == Some(true),
        (id == 5 || id == 0) && !f.holding && f.transform_target_id != 0 ==> id_event_spec(id, n, pn, IdEvent::RudolfTransform, tag, f).1.retarget
            == None::<i32> && id_event_spec(id, n, pn, IdEvent::RudolfTransform, tag, f).1.pending_transform,
        id_event_spec(id, n, pn, IdEvent::RudolfTransform, tag, f).0 == ((id == 5 || id == 0) && (f.holding || f.transform_target_id != 0)),
        id_event_spec(id, n, pn, IdEvent::RevertTransform, tag, f).0 == f.is_rudolf_transform,
        f.is_rudolf_transform ==> id_event_spec(id, n, pn, IdEvent::RevertTransform, tag, f).1.set_rudolf_transform == Some(false)
            && id_event_spec(id, n, pn, IdEvent::RevertTransform, tag, f).1.pending_revert_transform,
{
}

/// The per-TU hooks by character: armour on the casting frames (John 240 to 279, Louis and
/// Freeze 240 to 259, Firen 240 to 254, Dennis every frame of 240 to 269 not a multiple of 3,
/// bosses 50 to 60 on 240 to 299, anyone healing); Freeze's ice holds while the wait is over
/// 2; Deep's and Woody's waits; the velocity tags of Deep, Rudolf and Woody; the motions of
/// walking in state 301, burning and ice; John heals in state 1700.
pub proof fn law_id_step_rules(s: IdTuInput)
    ensures
        s.state == 1700 ==> id_step_spec(s).super_armor == Some(true) && (id_step_spec(s).heal == (s.id == 2)),
        s.state != 1700 && s.id == 2 && 240 <= s.n < 280 ==> id_step_spec(s).super_armor == Some(true),
        s.state != 1700 && (s.id == 6 || s.id == 8) && 240 <= s.n < 260 ==> id_step_spec(s).super_armor == Some(true),
        s.state != 1700 && s.id == 7 && 240 <= s.n < 255 ==> id_step_spec(s).super_armor == Some(true),
        s.state != 1700 && s.id == 9 && 240 <= s.n < 270 ==> id_step_spec(s).super_armor == Some(s.n % 3 != 0),
        s.state != 1700 && 50 <= s.id <= 60 && 240 <= s.n < 300 ==> id_step_spec(s).super_armor == Some(true),
        s.state != 1700 && !(240 <= s.n < 300) ==> id_step_spec(s).super_armor is None,
        s.id == 8 && s.state == 13 ==> id_step_spec(s).stuck == Some(s.wait > 2) && id_step_spec(s).motion == Motion::IceDrag,
        !(s.id == 8 && s.state == 13) ==> id_step_spec(s).stuck is None,
        s.id == 1 && s.state == 15 && 267 <= s.pn <= 272 ==> id_step_spec(s).wait == (WaitChange::IncBy { dv: -1i32, au: 10, out: 1 }),
        s.id == 10 && s.n == 253 ==> id_step_spec(s).wait == (WaitChange::SetTo { value: 0, au: 10, out: 1 }),
        s.id == 1 && s.state == 3 && s.n == 267 ==> id_step_spec(s).vy == VyChange::AddOne,
        s.id == 1 && s.n == 253 ==> id_step_spec(s).vy == VyChange::SubHalf,
        s.id == 5 && s.state == 3 && 273 <= s.n <= 276 ==> id_step_spec(s).vy == VyChange::Rise,
        s.id == 10 && s.state == 19 ==> id_step_spec(s).vy == VyChange::SubThreeTenths,
        s.state == 301 ==> id_step_spec(s).motion == Motion::WalkZ,
        s.id == 7 && (s.state == 18 || s.state == 19) ==> id_step_spec(s).motion == Motion::FirenBurn,
        s.id != 7 && (s.state == 18 || s.state == 19) ==> id_step_spec(s).motion == Motion::BurnDrift,
        id_step_spec(s).broken_effect == (s.state == 13 && s.wait == 0 && s.wait_left == 0),
{
}

/// The per-TU hooks fire Rudolf's transform on frame 240 while holding, on frame 298 of state
/// 501, and for anyone catching on frame 240; Rudolf's frame 257 disappears; nothing else.
pub proof fn law_id_step_events(s: IdTuInput)
    ensures
        s.id != 5 && !(s.state == 9 && s.n == 240) ==> id_step_events(s).len() == 0,
        s.id == 5 && s.n == 257 ==> id_step_events(s) == seq![IdEvent::State1280Disappear],
        s.id != 5 && s.state == 9 && s.n == 240 ==> id_step_events(s) == seq![IdEvent::RudolfTransform],
        s.id == 5 && s.n == 298 && s.state == 501 ==> id_step_events(s) == seq![IdEvent::RudolfTransform],
        s.id == 5 && s.n == 240 && s.holding && s.state == 9 ==> id_step_events(s) == seq![
            IdEvent::RudolfTransform,
            IdEvent::RudolfTransform,
        ],
{
}

/// The disappear counter: hidden for the first 120 TUs, blinking until 150, shown with a 30 TU
/// timeout at 150, then over (-1).
pub proof fn law_disappear_windows(c: i32)
    ensures
        0 <= c < 120 ==> disappear_spec(c) == ((c + 1) as i32, Some(false), None::<bool>, None::<i32>),
        120 <= c < 150 ==> disappear_spec(c).0 == c + 1 && disappear_spec(c).2 == Some(true),
        c == 150 ==> disappear_spec(c) == (151i32, Some(true), Some(true), Some(30i32)),
        c > 150 ==> disappear_spec(c) == (-1i32, Some(true), Some(false), None::<i32>),
        c < 0 ==> disappear_spec(c) == (c, None::<bool>, None::<bool>, None::<i32>),
{
}

} // verus!
