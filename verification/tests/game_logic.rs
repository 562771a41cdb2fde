use flf::character::{
    dead_blink_step, frame_mp_cost, input_decide, input_step, HeldKeys, InputState, InputWorld,
    VelTag, DEAD_BLINK_TUS,
};
use flf::character_ids::{
    id_event, id_step, HitTag, IdEvent, IdFlags, IdTuInput, Motion, VyChange, WaitChange,
    DISAPPEAR_BODY_BLINK, DISAPPEAR_SHADOW_BLINK,
};
use flf::combodec::{ComboDecoder, ComboDef};
use flf::controller_recorder::ControllerRecorder;
use flf::global::{combo_list, COMBO_TIMEOUT};
use flf::livingobject::{object_tu, trans_frame, FrameInfo, FrameState, FrameTable, LandingFacts, ObjectTu};
use flf::manager::{menu_step, next_char_index, parse_rebind_chip, MenuAction, MenuEvent, MenuKey, MenuState, Screen};
use flf::network::lobby_target;
use flf::stage::{phase_cleared, StagePhaseState};
use flf::character_tu::tu_step;
use flf::transistor::FrameTransistor;

fn frame(wait: i32) -> FrameInfo {
    FrameInfo {
        wait,
        pic: 0,
        state: 0,
        next: 0,
        cpoint_cover: None,
        mp: 0,
        hit_a: 0,
        hit_d: 0,
        hit_j: 0,
        hit_fa: 0,
        hit_ua: 0,
        hit_da: 0,
        hit_fj: 0,
        hit_uj: 0,
        hit_dj: 0,
        hit_ja: 0,
    }
}

fn table(frames: &[(i32, FrameInfo)]) -> FrameTable {
    let mut t = FrameTable::new();
    for (n, f) in frames {
        t.insert(*n, *f);
    }
    t
}

#[test]
fn trans_frame_respects_lock_and_missing_frames() {
    let t = table(&[(0, frame(3)), (5, frame(4))]);
    let mut fs = FrameState { pn: 0, n: 0, wait_left: 0, lock: 10 };
    assert!(!trans_frame(&mut fs, 5, 5, &t));
    assert_eq!(fs, FrameState { pn: 0, n: 0, wait_left: 0, lock: 10 });
    assert!(!trans_frame(&mut fs, 7, 20, &t));
    assert!(!trans_frame(&mut fs, -5, 20, &t));
    assert!(trans_frame(&mut fs, 5, 10, &t));
    assert_eq!(fs, FrameState { pn: 0, n: 5, wait_left: 4, lock: 10 });
    assert!(trans_frame(&mut fs, 999, 10, &t));
    assert_eq!(fs, FrameState { pn: 5, n: 0, wait_left: 3, lock: 10 });
}

#[test]
fn id_events_block_and_transform() {
    let f = IdFlags { holding: true, transform_target_id: 0, transform_caught_id: 33, is_rudolf_transform: false };
    let (blocked, _) = id_event(6, 0, 0, IdEvent::GenericCombo, Some(HitTag::HitJa), f);
    assert!(blocked);
    let (blocked, _) = id_event(6, 0, 0, IdEvent::GenericCombo, Some(HitTag::HitFa), f);
    assert!(!blocked);
    let (done, e) = id_event(5, 240, 0, IdEvent::RudolfTransform, None, f);
    assert!(done);
    assert_eq!(e.retarget, Some(33));
    assert_eq!(e.set_rudolf_transform, Some(true));
    assert!(e.pending_transform && e.blink);
    let (done, e) = id_event(11, 271, 0, IdEvent::State3HitStop, None, f);
    assert!(done);
    assert_eq!(e.wait, WaitChange::IncBy { dv: 1, au: 10, out: 1 });
    assert_eq!((e.stuck, e.timein, e.timeout), (Some(false), Some(1), Some(2)));
    let (done, e) = id_event(1, 267, 0, IdEvent::State3Frame, None, f);
    assert!(done);
    assert_eq!(e.vy, VyChange::AddOne);
    let (done, _) = id_event(3, 0, 0, IdEvent::RevertTransform, None, f);
    assert!(!done);
}

fn tu_input(id: i32, n: i32, state: i32, counter: i32) -> IdTuInput {
    IdTuInput { id, n, pn: 0, state, counter_disappear: counter, wait: 1, wait_left: 1, holding: false }
}

#[test]
fn character_tu_disappear_uses_flf_120_150_windows() {
    let (s, _) = id_step(tu_input(1, 0, 0, 0));
    assert_eq!(s.counter_disappear, 1);
    assert_eq!(s.visible, Some(false));
    let (s, _) = id_step(tu_input(1, 0, 0, DISAPPEAR_SHADOW_BLINK - 1));
    assert_eq!(s.counter_disappear, DISAPPEAR_SHADOW_BLINK);
    let (s, _) = id_step(tu_input(1, 0, 0, DISAPPEAR_SHADOW_BLINK));
    assert_eq!(s.counter_disappear, DISAPPEAR_SHADOW_BLINK + 1);
    let (s, _) = id_step(tu_input(1, 0, 0, DISAPPEAR_BODY_BLINK));
    assert_eq!(s.visible, Some(true));
    assert_eq!(s.blink, Some(true));
    assert_eq!(s.timeout, Some(30));
    assert_eq!(s.counter_disappear, DISAPPEAR_BODY_BLINK + 1);
    let (s, _) = id_step(tu_input(1, 0, 0, s.counter_disappear));
    assert_eq!(s.counter_disappear, -1);
    let (s, _) = id_step(tu_input(1, 0, 0, -1));
    assert_eq!(s.counter_disappear, -1);
    assert_eq!(s.visible, None);
}

#[test]
fn id_step_character_rules() {
    let mut i = tu_input(5, 240, 9, -1);
    i.holding = true;
    let (s, ev) = id_step(i);
    assert_eq!(s.blink, Some(true));
    assert_eq!(ev, vec![IdEvent::RudolfTransform, IdEvent::RudolfTransform]);
    let (s, ev) = id_step(tu_input(5, 257, 0, -1));
    assert_eq!(ev, vec![IdEvent::State1280Disappear]);
    assert_eq!(s.vy, VyChange::Keep);
    let (s, _) = id_step(tu_input(9, 243, 0, -1));
    assert_eq!(s.super_armor, Some(false));
    let (s, _) = id_step(tu_input(9, 244, 0, -1));
    assert_eq!(s.super_armor, Some(true));
    let (s, _) = id_step(tu_input(7, 0, 18, -1));
    assert_eq!(s.motion, Motion::FirenBurn);
    assert_eq!(s.blink, Some(true));
    let (s, _) = id_step(tu_input(3, 0, 19, -1));
    assert_eq!(s.motion, Motion::BurnDrift);
    let mut ice = tu_input(8, 0, 13, -1);
    ice.wait = 0;
    ice.wait_left = 0;
    let (s, _) = id_step(ice);
    assert_eq!(s.motion, Motion::IceDrag);
    assert_eq!(s.stuck, Some(false));
    assert!(s.broken_effect);
    let (s, _) = id_step(tu_input(10, 253, 0, -1));
    assert_eq!(s.wait, WaitChange::SetTo { value: 0, au: 10, out: 1 });
}

#[test]
fn character_tu_dead_blink_single_step_removes_near_30_tu() {
    let mut c = 0;
    for i in 1..=DEAD_BLINK_TUS {
        let (n, blink, removed) = dead_blink_step(c);
        assert!(!removed);
        assert!(blink);
        assert_eq!(n, i);
        c = n;
    }
    assert_eq!(c, 30);
    let (n, _, removed) = dead_blink_step(c);
    assert!(removed);
    assert_eq!(n, -1);
    assert_eq!(dead_blink_step(-1), (-1, false, false));
}

fn standing() -> InputState {
    InputState {
        id: 1,
        state: 0,
        frame: FrameState { pn: 0, n: 0, wait_left: 1, lock: 0 },
        facing: 1,
        running: false,
        last_left: false,
        last_right: false,
        allow_switch_dir: true,
        holding_heavy: false,
        holding_light: false,
        is_rudolf_transform: false,
        want_super_punch: false,
        attlock: 0,
        catch_counter: 0,
    }
}

fn world() -> InputWorld {
    InputWorld {
        just_throw: false,
        stand_throw: false,
        attackable: false,
        heavy_weapon_jump: false,
        random_half: true,
        cpoint: None,
        can_recover: true,
        vx_sign: 0,
        mp: 100,
    }
}

fn no_keys() -> HeldKeys {
    HeldKeys {
        left: false,
        right: false,
        up: false,
        down: false,
        att: false,
        jump: false,
        def: false,
        double_left: false,
        double_right: false,
    }
}

fn character_combos() -> ComboDecoder {
    let combos: Vec<ComboDef> = combo_list()
        .into_iter()
        .map(|(name, seq, clear)| ComboDef { name, seq, clear_on_combo: clear })
        .collect();
    ComboDecoder::new(combos, COMBO_TIMEOUT)
}

#[test]
fn walking_turning_and_double_tap() {
    let t = table(&[(0, frame(1)), (5, frame(3)), (9, frame(2))]);
    let s = standing();
    let mut keys = no_keys();
    keys.left = true;
    let a = input_decide(s, keys, world(), &t, None);
    assert_eq!(a.facing, -1);
    assert_eq!(a.frame.n, 5);
    assert_eq!(a.vel, VelTag::Walk);
    assert!(a.last_left);
    keys.double_left = true;
    let a = input_decide(s, keys, world(), &t, None);
    assert!(a.running);
    assert_eq!(a.frame.n, 9);
    assert_eq!(a.frame.pn, 0);
}

#[test]
fn punch_picks_frame_by_coin() {
    let t = table(&[(0, frame(1)), (60, frame(2)), (65, frame(2)), (70, frame(2))]);
    let mut keys = no_keys();
    keys.att = true;
    let a = input_decide(standing(), keys, world(), &t, None);
    assert_eq!(a.frame.n, 60);
    assert!(!a.running);
    let mut w = world();
    w.random_half = false;
    assert_eq!(input_decide(standing(), keys, w, &t, None).frame.n, 65);
    let mut s = standing();
    s.want_super_punch = true;
    let a = input_decide(s, keys, w, &t, None);
    assert_eq!(a.frame.n, 70);
    assert!(!a.want_super_punch);
}

#[test]
fn combo_fires_special_and_pays_mana() {
    let mut stand = frame(1);
    stand.hit_fa = 235;
    stand.mp = 1030;
    let t = table(&[(0, stand), (235, frame(2)), (5, frame(1))]);
    let mut combo = character_combos();
    let s = standing();
    let mut keys = no_keys();
    keys.def = true;
    let (a, hit) = input_step(&s, keys, world(), &t, &mut combo);
    assert!(hit.is_none());
    assert_eq!(a.frame.n, 0);
    let mut keys = no_keys();
    keys.right = true;
    let (a, hit) = input_step(&s, keys, world(), &t, &mut combo);
    assert!(hit.is_none());
    assert_eq!(a.frame.n, 5);
    let mut keys = no_keys();
    keys.att = true;
    let (a, hit) = input_step(&s, keys, world(), &t, &mut combo);
    let h = hit.unwrap();
    assert_eq!(h.tag, HitTag::HitFa);
    assert!(h.faces_right);
    assert_eq!(a.frame.n, 235);
    assert_eq!(a.mp_cost, 30);
    assert!(!a.clear_combo);
    assert_eq!(combo.match_combo(), Some("D>A".to_string()));
}

#[test]
fn combo_without_mana_falls_back_to_punch() {
    let mut stand = frame(1);
    stand.hit_fa = 235;
    stand.mp = 150;
    let t = table(&[(0, stand), (235, frame(2)), (60, frame(1)), (5, frame(1))]);
    let mut w = world();
    w.mp = 100;
    let h = flf::character::ComboHit { tag: HitTag::HitFa, dja: false, faces_right: true, clear: true };
    let mut keys = no_keys();
    keys.att = true;
    let a = input_decide(standing(), keys, w, &t, Some(h));
    assert_eq!(a.frame.n, 60);
    assert_eq!(a.mp_cost, 0);
    assert!(!a.clear_combo);
}

#[test]
fn mana_cost_is_magnitude_mod_1000() {
    assert_eq!(frame_mp_cost(1030), 30);
    assert_eq!(frame_mp_cost(-1250), 250);
    assert_eq!(frame_mp_cost(0), 0);
}

#[test]
fn louis_cannot_fire_transform_combo() {
    let mut stand = frame(1);
    stand.hit_ja = 300;
    let t = table(&[(0, stand), (300, frame(1))]);
    let mut s = standing();
    s.id = 6;
    let h = flf::character::ComboHit { tag: HitTag::HitJa, dja: true, faces_right: false, clear: true };
    let a = input_decide(s, no_keys(), world(), &t, Some(h));
    assert_eq!(a.frame.n, 0);
    assert!(a.clear_combo);
}

#[test]
fn crouch_jump_without_speed_waits_for_jump() {
    let t = table(&[(215, frame(1))]);
    let mut s = standing();
    s.state = 15;
    s.frame = FrameState { pn: 0, n: 215, wait_left: 1, lock: 0 };
    let mut keys = no_keys();
    keys.jump = true;
    let a = input_decide(s, keys, world(), &t, None);
    assert_eq!(a.wait, WaitChange::IncBy { dv: 2, au: 10, out: 99 });
    assert_eq!(a.next, Some((210, 10)));
}

fn menu() -> MenuState {
    MenuState {
        screen: Screen::FrontPage,
        stage_mode: false,
        difficulty: 1,
        computer_cursor: 0,
        num_computers: 0,
        vs_cursor: 0,
        stage_chapter: 0,
        selected_bg: 0,
        rebinding: false,
        has_stage_data: true,
        stage_count: 3,
        any_joined: false,
        slots: 2,
        characters: 4,
        in_match: false,
        paused: false,
    }
}

#[test]
fn menu_screens_and_cursors() {
    let (s, a) = menu_step(menu(), MenuEvent::Key(MenuKey::Enter));
    assert_eq!(s.screen, Screen::CharacterSelect);
    assert_eq!(a, MenuAction::Show);
    let (s, a) = menu_step(s, MenuEvent::Key(MenuKey::Q));
    assert_eq!(a, MenuAction::Nothing);
    let (s, _) = menu_step(s, MenuEvent::Key(MenuKey::S));
    assert!(s.any_joined);
    let (s, _) = menu_step(s, MenuEvent::Key(MenuKey::Enter));
    assert_eq!(s.screen, Screen::ComputerCount);
    let (s, _) = menu_step(s, MenuEvent::Key(MenuKey::A));
    assert_eq!(s.computer_cursor, 7);
    let (s, _) = menu_step(s, MenuEvent::Key(MenuKey::D));
    assert_eq!(s.computer_cursor, 0);
    let (s, _) = menu_step(s, MenuEvent::Key(MenuKey::D));
    let (s, _) = menu_step(s, MenuEvent::Key(MenuKey::Enter));
    assert_eq!(s.num_computers, 1);
    assert_eq!(s.screen, Screen::VsDialog);
    let mut v = s;
    for _ in 0..8 {
        v = menu_step(v, MenuEvent::Key(MenuKey::ArrowDown)).0;
    }
    assert_eq!(v.vs_cursor, 5);
    let (v, a) = menu_step(v, MenuEvent::Key(MenuKey::Enter));
    assert_eq!(a, MenuAction::StartMatch);
    let (v, a) = menu_step(v, MenuEvent::ClickVs(3));
    assert_eq!(a, MenuAction::RenderVs);
    assert_eq!(v.difficulty, 2);
    let (v, _) = menu_step(v, MenuEvent::ClickVs(3));
    assert_eq!(v.difficulty, -1);
}

#[test]
fn stage_dialog_clamps_chapter() {
    let (s, a) = menu_step(menu(), MenuEvent::Click(3));
    assert_eq!(a, MenuAction::Show);
    assert_eq!(s.screen, Screen::StageDialog);
    let mut s = s;
    for _ in 0..5 {
        s = menu_step(s, MenuEvent::Key(MenuKey::X)).0;
    }
    assert_eq!(s.stage_chapter, 2);
    let (s, _) = menu_step(s, MenuEvent::Key(MenuKey::W));
    assert_eq!(s.stage_chapter, 1);
    let mut none = menu();
    none.has_stage_data = false;
    let (_, a) = menu_step(none, MenuEvent::Click(3));
    assert_eq!(a, MenuAction::NoStageData);
}

#[test]
fn f2_pauses_then_steps() {
    let mut s = menu();
    s.screen = Screen::Gameplay;
    s.in_match = true;
    let (s, a) = menu_step(s, MenuEvent::Key(MenuKey::F2));
    assert_eq!(a, MenuAction::Pause);
    assert!(s.paused);
    let (s, a) = menu_step(s, MenuEvent::Key(MenuKey::F2));
    assert_eq!(a, MenuAction::StepOne);
    assert!(s.paused);
    let (s, a) = menu_step(s, MenuEvent::Key(MenuKey::P));
    assert_eq!(a, MenuAction::Unpause);
    assert!(!s.paused);
}

#[test]
fn rebind_takes_next_key() {
    let (s, a) = menu_step(menu(), MenuEvent::Rebind(1));
    assert_eq!(a, MenuAction::AwaitRebind { slot: 1 });
    let (s, a) = menu_step(s, MenuEvent::Key(MenuKey::Enter));
    assert_eq!(a, MenuAction::ApplyRebind);
    assert!(!s.rebinding);
    assert_eq!(s.screen, Screen::FrontPage);
}

#[test]
fn phase_clears_when_field_is_empty() {
    assert!(phase_cleared(0, 0, StagePhaseState::Fighting));
    assert!(!phase_cleared(1, 0, StagePhaseState::Fighting));
    assert!(!phase_cleared(0, 2, StagePhaseState::Fighting));
    assert!(!phase_cleared(0, 0, StagePhaseState::Go));
}

#[test]
fn playback_holds_unreleased_presses() {
    let mut r = ControllerRecorder::default();
    r.start_record();
    r.record(1, "att", true);
    r.record(2, "left", true);
    r.record(3, "att", false);
    r.record(5, "jump", true);
    r.stop_record();
    r.start_playback();
    assert_eq!(r.keys_at(2), vec!["att".to_string(), "left".to_string()]);
    assert_eq!(r.keys_at(4), vec!["left".to_string()]);
    assert_eq!(r.keys_at(9), vec!["left".to_string(), "jump".to_string()]);
}

fn tu_in(state: i32) -> flf::character_tu::TuInput {
    flf::character_tu::TuInput {
        id: 1,
        state,
        start_pn: 0,
        start_frame_tu: false,
        frame_tu: false,
        holding_heavy: false,
        catch_counter: 0,
        catch_attacks: 0,
        next_state: state,
        frame_next: 999,
        airborne: false,
        landed: false,
        rising: true,
        fall_wait180: 3,
        fall_wait181: 2,
        dead: false,
        dead_blink: -1,
    }
}

#[test]
fn catch_counter_runs_out_and_releases() {
    let t = table(&[(0, frame(1)), (121, frame(2))]);
    let mut fs = FrameState { pn: 120, n: 121, wait_left: 1, lock: 0 };
    let mut tr = FrameTransistor::default();
    let mut i = tu_in(9);
    i.start_pn = 9;
    i.catch_counter = 2;
    let (o, ev) = tu_step(i, &mut fs, &mut tr, &t);
    assert_eq!(o.catch_counter, 1);
    assert!(!o.release);
    assert!(ev.is_empty());
    i.catch_counter = 1;
    let (o, _) = tu_step(i, &mut fs, &mut tr, &t);
    assert!(o.release);
    assert_eq!(fs.n, 0);
    assert!(o.frame_tu);
    // entering a catch arms the counter
    let mut fs = FrameState { pn: 0, n: 120, wait_left: 1, lock: 0 };
    let mut j = tu_in(9);
    j.start_pn = 0;
    j.start_frame_tu = true;
    let (o, _) = tu_step(j, &mut fs, &mut tr, &t);
    assert_eq!(o.catch_counter, 42);
}

#[test]
fn fall_frames_chain_and_dead_body_blinks() {
    let t = table(&[(0, frame(1))]);
    let mut fs = FrameState { pn: 0, n: 180, wait_left: 1, lock: 0 };
    let mut tr = FrameTransistor::default();
    tr.wait = 0;
    let (_, _) = tu_step(tu_in(12), &mut fs, &mut tr, &t);
    assert_eq!(tr.next, 181);
    assert_eq!(tr.wait, 3);
    let mut fs = FrameState { pn: 14, n: 230, wait_left: 1, lock: 0 };
    let mut tr = FrameTransistor::default();
    let mut i = tu_in(14);
    i.dead = true;
    let (o, _) = tu_step(i, &mut fs, &mut tr, &t);
    assert_eq!(o.dead_blink, 1);
    assert_eq!(o.blink, Some(true));
    assert!(!o.removed);
}

#[test]
fn input_marks_entered_frames() {
    let t = table(&[(0, frame(1)), (5, frame(3))]);
    let mut keys = no_keys();
    keys.up = true;
    let a = input_decide(standing(), keys, world(), &t, None);
    assert!(a.entered);
    let a = input_decide(standing(), no_keys(), world(), &t, None);
    assert!(!a.entered);
}

#[test]
fn throw_limits_are_checked() {
    let mut s = standing();
    s.state = 9;
    let mut w = world();
    w.cpoint = Some(flf::character::CatchPoint { taction: i32::MIN, aaction: 0, jaction: 0, dircontrol: 0 });
    let mut keys = no_keys();
    assert!(flf::character::input_fits(s, keys, w));
    keys.att = true;
    keys.left = true;
    assert!(!flf::character::input_fits(s, keys, w));
    w.cpoint = Some(flf::character::CatchPoint { taction: -232, aaction: 0, jaction: 0, dircontrol: 0 });
    assert!(flf::character::input_fits(s, keys, w));
    let t = table(&[(0, frame(1)), (232, frame(1))]);
    let a = input_decide(s, keys, w, &t, None);
    assert_eq!(a.frame.n, 232);
    assert_eq!(a.facing, -1);
    assert_eq!(a.catch_counter, 10);
}

fn object(n: i32, wait_left: i32) -> ObjectTu {
    ObjectTu {
        frame: FrameState { pn: 0, n, wait_left, lock: 0 },
        removed: false,
        dead: false,
        stuck: false,
        blink: false,
        timein: 0,
        timeout: 0,
        arest: 0,
        attlock: 0,
        visible: true,
        bounced: false,
        fall_sound: false,
    }
}

fn no_landing() -> LandingFacts {
    LandingFacts { landing: false, was_air: false, fast: false }
}

#[test]
fn weapon_tu_clears_stuck_after_hit_character() {
    let t = table(&[(0, frame(5))]);
    let mut o = object(0, 5);
    o.stuck = true;
    o.timein = 0;
    o.timeout = 2;
    let mut vrest = Vec::new();
    let mut cleared = false;
    for _ in 0..10 {
        o = object_tu(o, &mut vrest, no_landing(), &t);
        if !o.stuck {
            cleared = true;
            break;
        }
    }
    assert!(cleared, "stuck must clear; timeout was {}", o.timeout);
    let before = o.frame.wait_left;
    o = object_tu(o, &mut vrest, no_landing(), &t);
    assert_eq!(o.frame.wait_left, before - 1);
}

#[test]
fn character_tu_effect_stuck_clears_and_resumes_motion() {
    let t = table(&[(0, frame(5))]);
    let mut o = object(0, 5);
    o.stuck = true;
    o.timein = 1;
    o.timeout = 2;
    let mut vrest = Vec::new();
    o = object_tu(o, &mut vrest, no_landing(), &t);
    assert_eq!(o.timein, 0);
    assert_eq!(o.frame.wait_left, 4, "timein=1 must not freeze on first TU");
    let mut cleared = false;
    for _ in 0..12 {
        o = object_tu(o, &mut vrest, no_landing(), &t);
        if !o.stuck {
            cleared = true;
            break;
        }
    }
    assert!(cleared);
    let before = o.frame.wait_left;
    o = object_tu(o, &mut vrest, no_landing(), &t);
    assert_eq!(o.frame.wait_left, before - 1, "motion must resume after stuck clears");
}

#[test]
fn effect_stuck_zero_timein_freezes_after_timein_decrements() {
    let t = table(&[(0, frame(5))]);
    let mut o = object(0, 5);
    o.stuck = true;
    o.timeout = 2;
    let mut vrest = vec![(7u32, 2), (9u32, 1)];
    o = object_tu(o, &mut vrest, no_landing(), &t);
    assert_eq!(o.timein, -1);
    assert_eq!(o.timeout, 2);
    assert!(o.stuck);
    assert_eq!(vrest, vec![(7u32, 1)]);
    // frozen now: the frame does not move and the rest counters wait
    let w = o.frame.wait_left;
    o = object_tu(o, &mut vrest, no_landing(), &t);
    assert_eq!(o.frame.wait_left, w);
    assert_eq!(o.timeout, 1);
    assert_eq!(vrest, vec![(7u32, 1)]);
}

#[test]
fn frame_wait_then_next() {
    let mut f0 = frame(2);
    f0.next = 7;
    let mut f7 = frame(3);
    f7.next = 999;
    let mut f9 = frame(1);
    f9.next = 1000;
    let t = table(&[(0, f0), (7, f7), (9, f9)]);
    let mut vrest = Vec::new();
    let mut o = object(0, 0);
    o.frame.lock = 10;
    o = object_tu(o, &mut vrest, no_landing(), &t);
    assert_eq!(o.frame, FrameState { pn: 0, n: 7, wait_left: 3, lock: 9 });
    o.frame.wait_left = 0;
    o = object_tu(o, &mut vrest, no_landing(), &t);
    assert_eq!(o.frame.n, 7, "lock 9 refuses frame 0 under lock 0");
    assert_eq!(o.frame.lock, 0);
    o.frame.wait_left = 0;
    o = object_tu(o, &mut vrest, no_landing(), &t);
    assert_eq!(o.frame.n, 0);
    let mut gone = object(9, 0);
    gone = object_tu(gone, &mut vrest, no_landing(), &t);
    assert!(gone.removed && gone.dead);
    assert!(!gone.visible);
    let again = object_tu(gone, &mut vrest, no_landing(), &t);
    assert_eq!(again, gone);
}

#[test]
fn landing_frames_and_blink() {
    let mut jump = frame(5);
    jump.state = 4;
    let mut fall = frame(5);
    fall.state = 12;
    let t = table(&[(0, frame(5)), (210, jump), (180, fall), (215, frame(2)), (182, frame(2)), (219, frame(2))]);
    let mut vrest = Vec::new();
    let land = LandingFacts { landing: true, was_air: true, fast: false };
    let o = object_tu(object(210, 5), &mut vrest, land, &t);
    assert_eq!(o.frame.n, 215);
    let o = object_tu(object(180, 5), &mut vrest, land, &t);
    assert_eq!(o.frame.n, 219);
    assert!(o.fall_sound);
    let fast = LandingFacts { landing: true, was_air: true, fast: true };
    let o = object_tu(object(180, 5), &mut vrest, fast, &t);
    assert_eq!(o.frame.n, 182);
    assert!(o.bounced);
    let mut b = object(0, 5);
    b.blink = true;
    b.timein = -1;
    b.timeout = 6;
    let o = object_tu(b, &mut vrest, no_landing(), &t);
    assert_eq!(o.timeout, 5);
    assert!(!o.visible);
    let o = object_tu(o, &mut vrest, no_landing(), &t);
    let o = object_tu(o, &mut vrest, no_landing(), &t);
    assert_eq!(o.timeout, 3);
    assert!(o.visible);
}

#[test]
fn rebind_chips_and_lobby_addresses() {
    assert_eq!(parse_rebind_chip("0:att"), Some((0, "att".to_string())));
    assert_eq!(parse_rebind_chip("+12:jump"), Some((12, "jump".to_string())));
    assert_eq!(parse_rebind_chip("1:a:b"), None);
    assert_eq!(parse_rebind_chip("x:att"), None);
    assert_eq!(parse_rebind_chip(":att"), None);
    assert_eq!(parse_rebind_chip("99999999999999999999:att"), None);
    assert_eq!(lobby_target(""), ("http://lobby.projectf.hk".to_string(), false));
    assert_eq!(lobby_target("ws://a:passive"), ("ws://a".to_string(), true));
    assert_eq!(lobby_target("http://b/p"), ("http://b".to_string(), true));
    assert_eq!(lobby_target("http://b/pq"), ("http://bq".to_string(), false));
}

#[test]
fn cycling_characters_joins_and_wraps() {
    assert_eq!(next_char_index(0, -1, 4), -1);
    assert_eq!(next_char_index(-1, -1, 4), 3);
    assert_eq!(next_char_index(3, 1, 4), -1);
    assert_eq!(next_char_index(1, 1, 4), 2);
    let mut s = menu();
    s.screen = Screen::CharacterSelect;
    let (s1, _) = menu_step(s, MenuEvent::Key(MenuKey::J));
    assert!(s1.any_joined);
    let (s2, _) = menu_step(s1, MenuEvent::Key(MenuKey::Enter));
    assert_eq!(s2.screen, Screen::ComputerCount);
    let (s1, a) = menu_step(s, MenuEvent::Key(MenuKey::A));
    assert_eq!(a, MenuAction::CycleCharacter { slot: 0, dir: -1 });
    assert!(s1.any_joined);
    let mut none = s;
    none.characters = 0;
    assert!(!menu_step(none, MenuEvent::Key(MenuKey::K)).0.any_joined);
}
