use tt_umpire::{format_clock, Timer};

#[test]
fn stopwatch_elapsed_follows_clock() {
    let t = Timer::new_stopwatch(true, 1_000);
    assert_eq!(t.elapsed(1_000), 0);
    let e1 = t.elapsed(2_000);
    let e2 = t.elapsed(5_000);
    assert_eq!(e2 - e1, 3_000);
    assert!(!t.expired(1_000_000));
}

#[test]
fn paused_stopwatch_does_not_advance() {
    let t = Timer::new_stopwatch(false, 1_000);
    assert!(!t.is_running_now());
    assert_eq!(t.elapsed(9_000), 0);
}

#[test]
fn pause_twice_changes_nothing() {
    let mut t = Timer::new_stopwatch(true, 0);
    t.pause(4_000);
    let once = t;
    t.pause(7_000);
    assert_eq!(t, once);
    assert_eq!(t.elapsed(7_000), 4_000);
}

#[test]
fn resume_twice_changes_nothing() {
    let mut t = Timer::new_stopwatch(false, 0);
    t.resume(2_000);
    let once = t;
    t.resume(3_000);
    assert_eq!(t, once);
    assert_eq!(t.running_since, Some(2_000));
}

#[test]
fn toggle_twice_at_same_reading_restores_timer() {
    let paused = Timer { accumulated: 5_000, running_since: None, target_duration: Some(60_000) };
    let mut u = paused;
    u.toggle(8_000);
    u.toggle(8_000);
    assert_eq!(u, paused);
    let fresh = Timer::new_stopwatch(true, 8_000);
    let mut v = fresh;
    v.toggle(8_000);
    v.toggle(8_000);
    assert_eq!(v, fresh);
    let older = Timer::new_stopwatch(true, 0);
    let mut w = older;
    w.toggle(8_000);
    w.toggle(8_000);
    assert_ne!(w, older);
    assert_eq!(w.elapsed(8_000), older.elapsed(8_000));
}

#[test]
fn toggle_accumulates_runs() {
    let mut t = Timer::new_stopwatch(true, 1_000);
    t.toggle(3_000);
    assert_eq!(t.accumulated, 2_000);
    assert_eq!(t.running_since, None);
    t.toggle(10_000);
    assert_eq!(t.elapsed(11_500), 3_500);
}

#[test]
fn countdown_overtime_counts_up_again() {
    let t = Timer::new_countdown(60_000, true, 0);
    assert_eq!(t.elapsed(75_000), 75_000);
    assert!(t.expired(75_000));
    assert_eq!(t.remaining_or_elapsed(75_000), -15_000);
    assert_eq!(t.display(75_000), "0:15");
}

#[test]
fn countdown_at_its_duration_is_not_expired() {
    let t = Timer::new_countdown(60_000, true, 0);
    assert!(!t.expired(60_000));
    assert!(t.expired(60_001));
    assert_eq!(t.display(60_000), "0:00");
}

#[test]
fn display_rounds_to_nearest_second() {
    let t = Timer::new_countdown(120_000, true, 0);
    assert_eq!(t.display(10_000), "1:50");
    assert_eq!(t.display(10_400), "1:50");
    assert_eq!(t.display(10_600), "1:49");
    assert_eq!(t.display(119_500), "0:01");
    assert_eq!(t.display(120_499), "0:00");
    assert_eq!(t.display(120_500), "0:01");
}

#[test]
fn display_of_long_stopwatch() {
    let t = Timer::new_stopwatch(true, 0);
    assert_eq!(t.display(3_725_000), "62:05");
    assert_eq!(t.remaining_or_elapsed(3_725_000), 3_725_000);
}

#[test]
fn consistency_with_clock() {
    let t = Timer::new_stopwatch(true, 5_000);
    assert!(t.is_consistent_at(5_000));
    assert!(!t.is_consistent_at(4_999));
    let odd = Timer { accumulated: 9_000, running_since: None, target_duration: None };
    assert!(!odd.is_consistent_at(8_000));
}

#[test]
fn clock_text_formats() {
    assert_eq!(format_clock(0), "0:00");
    assert_eq!(format_clock(75), "1:15");
    assert_eq!(format_clock(600), "10:00");
    assert_eq!(format_clock(59), "0:59");
}
