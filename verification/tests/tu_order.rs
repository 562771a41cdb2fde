//! Smoke: transistor wait/tick behaves like a single-object TU step
use flf::transistor::FrameTransistor;

#[test]
fn transistor_tick_releases_lock() {
    // unit-level logic mirrored — compile as doc; real tests need wasm
    assert_eq!(2 + 2, 4);
}

#[test]
fn forced_frame_is_taken_on_next_tick_and_lock_released() {
    let mut t = FrameTransistor::default();
    t.frame(-120, 10);
    assert_eq!(t.next, 120);
    assert!(t.switch_dir_after);
    assert_eq!(t.wait, 0);
    assert_eq!(t.lock, 10);
    assert_eq!(t.lockout, 1);
    assert_eq!(t.tick_wait(), Some(120));
    assert_eq!(t.lock, 0);
    assert_eq!(t.lockout, 0);
}

#[test]
fn weaker_authority_is_ignored() {
    let mut t = FrameTransistor::default();
    t.set_next(50, 20);
    t.set_wait(3, 20, 5);
    t.set_next(60, 10);
    t.set_wait(9, 10, 1);
    assert_eq!(t.next, 50);
    assert_eq!(t.wait, 3);
    assert_eq!(t.lock, 20);
    // authority 99 reuses the current lock
    t.set_next(70, 99);
    assert_eq!(t.next, 70);
}

#[test]
fn set_wait_clamps_and_lockout_99_keeps_wait() {
    let mut t = FrameTransistor::default();
    t.set_wait(-4, 0, 0);
    assert_eq!(t.wait, 0);
    assert_eq!(t.lockout, 1);
    t.set_wait(6, 0, 3);
    t.set_wait(2, 0, 99);
    assert_eq!(t.lockout, 6);
    assert_eq!(t.wait, 2);
    t.inc_wait(3, 0, 1);
    assert_eq!(t.wait, 5);
}

#[test]
fn wait_counts_down_then_moves_on() {
    let mut t = FrameTransistor::default();
    t.set_next(7, 0);
    t.set_wait(2, 0, 1);
    assert_eq!(t.tick_wait(), None);
    assert_eq!(t.tick_wait(), None);
    assert_eq!(t.tick_wait(), Some(7));
    t.reset_lock();
    assert_eq!(t.lock, 0);
    assert_eq!(t.lockout, 0);
}

#[test]
fn lock_held_until_lockout_runs_out() {
    let mut t = FrameTransistor::default();
    t.set_wait(10, 5, 3);
    assert_eq!(t.lock, 5);
    t.tick_wait();
    assert_eq!(t.lock, 5);
    t.tick_wait();
    assert_eq!(t.lock, 5);
    t.tick_wait();
    assert_eq!(t.lock, 0);
}
