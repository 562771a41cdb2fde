use flf::animator::Animator;
use flf::combodec::{ComboDecoder, ComboDef};
use flf::controller::{default_p1_config, default_p2_config};
use flf::controller_recorder::ControllerRecorder;
use flf::network_sync::NetSyncPump;
use flf::resourcemap::ResourceMap;
use flf::sprite::{lf2_rect_color, RendererKind};
use flf::strmap::StrMap;
use flf::support::css2d_transform_supported;
use flf::util::{location_parameters, make_array, normalize_path, push_unique, search_array};

fn s(x: &str) -> String {
    x.to_string()
}

#[test]
fn animator_waits_then_fires() {
    let mut a = Animator::default();
    a.set_frame(12, 2);
    assert_eq!(a.frame, 12);
    assert!(!a.tu());
    assert!(!a.tu());
    assert!(a.tu());
    assert!(a.tu());
    a.paused = true;
    a.set_frame(3, 5);
    assert!(!a.tu());
    assert_eq!(a.wait_left, 5);
}

fn combos() -> Vec<ComboDef> {
    vec![
        ComboDef { name: s("D>A"), seq: vec![s("def"), s("right"), s("att")], clear_on_combo: false },
        ComboDef { name: s("A"), seq: vec![s("att")], clear_on_combo: false },
        ComboDef { name: s("empty"), seq: vec![], clear_on_combo: false },
        ComboDef { name: s("other3"), seq: vec![s("jump"), s("right"), s("att")], clear_on_combo: false },
    ]
}

#[test]
fn combo_decoder_prefers_longest_match() {
    let mut d = ComboDecoder::new(combos(), 10);
    assert_eq!(d.match_combo(), None);
    d.feed("def");
    d.feed("right");
    d.feed("att");
    assert_eq!(d.match_combo(), Some(s("D>A")));
    d.feed("att");
    assert_eq!(d.match_combo(), Some(s("A")));
    d.clear();
    assert_eq!(d.match_combo(), None);
}

#[test]
fn combo_decoder_forgets_after_timeout() {
    let mut d = ComboDecoder::new(combos(), 2);
    d.feed("def");
    d.tick();
    d.feed("right");
    d.tick();
    d.tick();
    d.feed("att");
    // "def" fed at age 0 is forgotten at age 3 (3 - 0 > 2)
    assert_eq!(d.match_combo(), Some(s("A")));
}

#[test]
fn combo_decoder_keeps_sixteen_actions() {
    let mut d = ComboDecoder::new(combos(), 100);
    d.feed("def");
    d.feed("right");
    for _ in 0..15 {
        d.feed("jump");
    }
    d.feed("right");
    d.feed("att");
    assert_eq!(d.match_combo(), Some(s("other3")));
}

#[test]
fn default_configs_hold_seven_keys() {
    let p1 = default_p1_config();
    assert_eq!(p1.len(), 7);
    assert_eq!(p1.get("up").map(|x| x.as_str()), Some("w"));
    assert_eq!(p1.get("att").map(|x| x.as_str()), Some("s"));
    let p2 = default_p2_config();
    assert_eq!(p2.get("def").map(|x| x.as_str()), Some(","));
    assert_eq!(p2.get("jump").map(|x| x.as_str()), Some("i"));
    assert!(p2.get("run").is_none());
}

#[test]
fn recorder_replays_presses_and_releases() {
    let mut r = ControllerRecorder::default();
    r.record(0, "left", true);
    assert!(r.events().is_empty());
    r.start_record();
    r.record(1, "left", true);
    r.record(2, "att", true);
    r.record(4, "left", false);
    r.record(5, "jump", true);
    r.stop_record();
    r.record(6, "def", true);
    assert_eq!(r.events().len(), 4);
    assert!(r.keys_at(3).is_empty());
    r.start_playback();
    assert_eq!(r.keys_at(0), Vec::<String>::new());
    assert_eq!(r.keys_at(2), vec![s("left"), s("att")]);
    assert_eq!(r.keys_at(4), vec![s("att")]);
    assert_eq!(r.keys_at(9), vec![s("att"), s("jump")]);
    r.start_playback();
    assert_eq!(r.keys_at(9), vec![s("att"), s("jump")]);
}

#[test]
fn recorder_release_removes_every_press_of_action() {
    let mut r = ControllerRecorder::default();
    r.start_record();
    r.record(0, "a", true);
    r.record(0, "b", true);
    r.record(0, "a", true);
    r.record(1, "a", false);
    r.start_playback();
    assert_eq!(r.keys_at(0), vec![s("a"), s("b"), s("a")]);
    assert_eq!(r.keys_at(1), vec![s("b")]);
}

#[test]
fn net_sync_pump_ticks_and_compares() {
    let mut p = NetSyncPump::default();
    assert_eq!(p.tick(), 1);
    assert_eq!(p.tick(), 2);
    p.time = u32::MAX;
    assert_eq!(p.tick(), 0);
    p.set_verify("hp", 10);
    p.set_verify("x", 3);
    p.set_verify("hp", 12);
    let mut other = StrMap::new();
    other.insert(s("hp"), 12);
    other.insert(s("x"), 3);
    other.insert(s("extra"), 1);
    assert!(p.compare(&other));
    assert!(!p.error);
    other.insert(s("x"), 4);
    assert!(!p.compare(&other));
    assert!(p.error);
    other.insert(s("x"), 3);
    assert!(p.compare(&other));
    assert!(p.error);
    let missing = StrMap::new();
    assert!(!p.compare(&missing));
}

#[test]
fn resource_map_resolves_string_entries() {
    let m = ResourceMap::from_entries(vec![
        (s("a.png"), Some(s("b.png"))),
        (s("n"), None),
        (s("c"), Some(s("d"))),
    ]);
    assert_eq!(m.resolve("a.png"), "b.png");
    assert_eq!(m.resolve("c"), "d");
    assert_eq!(m.resolve("n"), "n");
    assert_eq!(m.resolve("zz"), "zz");
}

#[test]
fn rect_colors_are_css_hex() {
    // 16-bit 5-6-5: 0xF800 is full red
    assert_eq!(lf2_rect_color(0xF800), "#f80000");
    assert_eq!(lf2_rect_color(0x07E0), "#00fc00");
    assert_eq!(lf2_rect_color(0x001F), "#0000f8");
    assert_eq!(lf2_rect_color(0), "#000000");
    // 24-bit RRGGBB
    assert_eq!(lf2_rect_color(0x123456), "#123456");
    assert_eq!(lf2_rect_color(0xFFFFFF), "#ffffff");
    assert_eq!(lf2_rect_color(65536), "#010000");
    let _ = RendererKind::Canvas;
}

#[test]
fn support_reports_css_transforms() {
    assert!(css2d_transform_supported());
}

#[test]
fn normalize_path_uses_forward_slashes() {
    assert_eq!(normalize_path("a\\b"), "a/b/");
    assert_eq!(normalize_path("assets/LF2_19"), "assets/LF2_19/");
    assert_eq!(normalize_path("x/"), "x/");
    assert_eq!(normalize_path(""), "");
    assert_eq!(normalize_path(&normalize_path("c:\\d\\")), "c:/d/");
}

#[test]
fn location_parameters_parse_search() {
    let m = location_parameters("?a=1&b=&c&a=2&&d=x=y");
    assert_eq!(m.len(), 4);
    assert_eq!(m.get("a").map(|x| x.as_str()), Some("2"));
    assert_eq!(m.get("b").map(|x| x.as_str()), Some(""));
    assert_eq!(m.get("c").map(|x| x.as_str()), Some(""));
    assert_eq!(m.get("d").map(|x| x.as_str()), Some("x=y"));
    let e = location_parameters("");
    assert_eq!(e.len(), 0);
    let q = location_parameters("??k=v");
    assert_eq!(q.get("k").map(|x| x.as_str()), Some("v"));
}

#[test]
fn array_helpers() {
    assert_eq!(make_array::<i32>(None), Vec::<i32>::new());
    assert_eq!(make_array(Some(&[1, 2, 3][..])), vec![1, 2, 3]);
    let mut v = vec![1, 2];
    push_unique(&mut v, 2);
    push_unique(&mut v, 3);
    assert_eq!(v, vec![1, 2, 3]);
    let arr = [4, 7, 9, 7];
    assert_eq!(search_array(&arr, |x| *x > 5), Some(&7));
    assert_eq!(search_array(&arr, |x| *x > 50), None);
}

#[test]
fn strmap_reads_back_writes() {
    let mut m = StrMap::new();
    m.insert(s("k"), 1);
    m.insert(s("j"), 2);
    m.insert(s("k"), 3);
    assert_eq!(m.get("k"), Some(&3));
    assert_eq!(m.get("j"), Some(&2));
    assert_eq!(m.len(), 2);
    assert_eq!(m.entries()[0].0, "k");
}

#[test]
fn checksums_agree_with_a_copy_of_themselves() {
    let mut p = NetSyncPump::default();
    p.set_verify("a", 1);
    p.set_verify("b", -7);
    let mut same = StrMap::new();
    for (k, v) in p.last_verify.entries() {
        same.insert(k.clone(), *v);
    }
    assert!(p.compare(&same));
    assert!(!p.error);
}
