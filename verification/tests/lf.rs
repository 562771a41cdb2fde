use flf::ai::AiBrain;
use flf::effect::effect_id_from_num;
use flf::global::{combo_list, combo_tag, COMBO_TIMEOUT, UNSPECIFIED};
use flf::livingobject::FrameState;
use flf::match_game::{gameover_fires_at, PlayerSetup};
use flf::network::NetworkSession;
use flf::scene::QueryOpts;
use flf::soundpack::Soundpack;
use flf::stage::{count_chapters, difficulty_index, plan_advance, resolve_random_id, spawn_offset, SpawnKind, StageAdvance, StagePhaseState, StagePlan};
use flf::util_lf::normalize_path;

#[test]
fn effect_ids() {
    assert_eq!(effect_id_from_num(0), 300);
    assert_eq!(effect_id_from_num(-3), 301);
    assert_eq!(effect_id_from_num(1), 301);
    assert_eq!(effect_id_from_num(2), 302);
}

#[test]
fn combo_table_and_tags() {
    let l = combo_list();
    assert_eq!(l.len(), 11);
    assert_eq!(l[0].0, "D<A");
    assert_eq!(l[0].1, vec!["def".to_string(), "left".to_string(), "att".to_string()]);
    assert!(!l[1].2);
    assert!(l[2].2);
    assert_eq!(l[8].1.len(), 4);
    for (name, _, _) in &l {
        assert!(combo_tag(name).is_some());
    }
    assert_eq!(combo_tag("def"), Some("hit_d"));
    assert_eq!(combo_tag("jump"), Some("hit_j"));
    assert_eq!(combo_tag("att"), Some("hit_a"));
    assert_eq!(combo_tag("D>A"), Some("hit_Fa"));
    assert_eq!(combo_tag("DvA"), Some("hit_Da"));
    assert_eq!(combo_tag("D^A"), Some("hit_Ua"));
    assert_eq!(combo_tag("D>AJ"), Some("hit_Fj"));
    assert_eq!(combo_tag("DvJ"), Some("hit_Dj"));
    assert_eq!(combo_tag("D^J"), Some("hit_Uj"));
    assert_eq!(combo_tag("DJA"), Some("hit_ja"));
    assert_eq!(combo_tag("left"), None);
    assert_eq!(COMBO_TIMEOUT, 10);
    assert_eq!(UNSPECIFIED, 0xCDCDCDCDu32 as i32);
}

#[test]
fn difficulty_maps_to_scale_slot() {
    assert_eq!(difficulty_index(2), 0);
    assert_eq!(difficulty_index(5), 0);
    assert_eq!(difficulty_index(1), 1);
    assert_eq!(difficulty_index(0), 2);
    assert_eq!(difficulty_index(-1), 3);
    assert_eq!(difficulty_index(-100), 3);
    assert_eq!(SpawnKind::Enemy, SpawnKind::Enemy);
    assert_ne!(StagePhaseState::Go, StagePhaseState::Fighting);
    assert!(matches!(StageAdvance::CampaignComplete, StageAdvance::CampaignComplete));
}

#[test]
fn network_session_log() {
    let mut n = NetworkSession::new();
    assert!(!n.active);
    assert_eq!(n.log, vec!["Network: connect via lobby (optional).".to_string()]);
    n.append_log("joined");
    assert_eq!(n.log.len(), 2);
    assert_eq!(n.log[1], "joined");
}

#[test]
fn soundpack_dedupes_within_five_tu() {
    let mut sp = Soundpack::new();
    sp.set_root("assets//");
    let urls = sp.play("1/001");
    assert_eq!(
        urls,
        vec![
            "assets/1/001.wav", "assets/1/001.ogg", "assets/1/001.mp3",
            "assets/sound/1/001.wav", "assets/sound/1/001.ogg", "assets/sound/1/001.mp3",
            "assets/1/001.wav", "assets/1/001.ogg", "assets/1/001.mp3",
        ]
    );
    assert!(sp.play("1/001").is_empty());
    assert!(sp.play("").is_empty());
    for _ in 0..4 {
        sp.tu();
        assert!(sp.play("1/001").is_empty());
    }
    sp.tu();
    assert_eq!(sp.play("1/001").len(), 9);
    sp.set_enabled(false);
    assert!(sp.play("2/002").is_empty());
}

#[test]
fn soundpack_dotted_paths_are_tried_as_is() {
    let mut sp = Soundpack::new();
    sp.set_root("r");
    let urls = sp.play("/a.wav");
    assert_eq!(urls.len(), 12);
    assert_eq!(urls[0], "r//a.wav");
    assert_eq!(urls[3], "r//a.wav");
    assert_eq!(urls[4], "r/sound//a.wav");
    assert_eq!(urls[8], "r/a.wav");
}

#[test]
fn plain_records() {
    let f = FrameState::default();
    assert_eq!((f.pn, f.n, f.wait_left, f.lock), (0, 0, 0, 0));
    let b = AiBrain::default();
    assert_eq!(b.cc, 0);
    assert!(b.target_uid.is_none());
    let p = PlayerSetup { id: 1, team: 2, controller_index: Some(0), is_ai: false };
    assert_eq!(p.team, 2);
    let q = QueryOpts { team: None, not_team: Some(1), sort_distance: true, reverse: false };
    let q2 = q;
    assert_eq!(q2.not_team, Some(1));
    assert_eq!(normalize_path("x\\y"), "x/y/");
}

#[test]
fn stage_plan_follows_phases_then_chapters() {
    assert_eq!(plan_advance(0, 0, None, None, 3), StagePlan::Missing);
    assert_eq!(plan_advance(0, 4, Some(4), None, 3), StagePlan::Missing);
    assert_eq!(plan_advance(0, 0, Some(3), None, 3), StagePlan::Phase { phase: 1 });
    assert_eq!(plan_advance(0, 2, Some(3), None, 3), StagePlan::Chapter { chapter: 1 });
    assert_eq!(plan_advance(2, 2, Some(3), None, 3), StagePlan::Finished);
    assert_eq!(plan_advance(5, 0, Some(2), Some(1), 3), StagePlan::Wave { phase: 1 });
    assert_eq!(plan_advance(5, 0, Some(2), Some(9), 3), StagePlan::Wave { phase: 1 });
}

#[test]
fn stage_ids_and_spawn_spread() {
    assert_eq!(count_chapters(&[0, 1, 2, 50, 51, 3]), 4);
    assert_eq!(count_chapters(&[]), 0);
    assert_eq!(resolve_random_id(3000, 7), 30);
    assert_eq!(resolve_random_id(1000, 0), 1);
    assert_eq!(resolve_random_id(1000, 13), 5);
    assert_eq!(resolve_random_id(42, 3), 42);
    assert_eq!(spawn_offset(1, 2, true), 123);
    assert_eq!(spawn_offset(4, 0, true), 88);
    assert_eq!(spawn_offset(1, 2, false), 59);
    assert_eq!(spawn_offset(3, 9, false), (3 * 37 + 9 * 11) % 120);
}

#[test]
fn effect_pool_slots_and_life() {
    assert_eq!(flf::effect::first_free(&vec![true, false, false]), Some(1));
    assert_eq!(flf::effect::first_free(&vec![true, true]), None);
    assert_eq!(flf::effect::effect_tick(2, 0), (1, 1, true));
    assert_eq!(flf::effect::effect_tick(1, 5), (0, 6, false));
}

#[test]
fn gameover_fires_at_plus_30_tu() {
    assert!(!gameover_fires_at(100, None));
    assert!(!gameover_fires_at(100, Some(100)));
    assert!(!gameover_fires_at(129, Some(100)));
    assert!(gameover_fires_at(130, Some(100)));
    assert!(!gameover_fires_at(131, Some(100)));
}
