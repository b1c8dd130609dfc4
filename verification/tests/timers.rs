use solid_knight::timer::{Timer, TimerMode};

#[test]
fn once_timer_finishes_and_stays_finished() {
    let mut t = Timer::new(500, TimerMode::Once);
    assert!(!t.finished());
    t.tick(499);
    assert!(!t.finished());
    assert!(!t.just_finished());
    t.tick(1);
    assert!(t.finished());
    assert!(t.just_finished());
    t.tick(100);
    assert!(t.finished());
    assert!(!t.just_finished());
}

#[test]
fn once_timer_clamps_elapsed() {
    let mut t = Timer::new(100, TimerMode::Once);
    t.tick(1_000_000);
    assert_eq!(t.elapsed_ms, 100);
    assert!(t.finished());
}

#[test]
fn repeating_timer_wraps_modulo() {
    let mut t = Timer::new(71, TimerMode::Repeating);
    t.tick(100);
    assert!(t.just_finished());
    assert_eq!(t.elapsed_ms, 29);
    t.tick(50);
    assert!(t.just_finished());
    assert_eq!(t.elapsed_ms, 8);
    t.tick(10);
    assert!(!t.just_finished());
    assert_eq!(t.elapsed_ms, 18);
}

#[test]
fn repeating_timer_finished_means_this_tick() {
    let mut t = Timer::new(50, TimerMode::Repeating);
    t.tick(50);
    assert!(t.finished());
    t.tick(10);
    assert!(!t.finished());
}

#[test]
fn reset_rewinds() {
    let mut t = Timer::new(100, TimerMode::Once);
    t.tick(100);
    assert!(t.finished());
    t.reset();
    assert!(!t.finished());
    assert_eq!(t.elapsed_ms, 0);
    assert!(!t.just_finished());
}
