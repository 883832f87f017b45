use tt_umpire::{Action, Durations, MatchState, TTUmpire, TimeOutKind, Timer};

fn playing_with_elapsed(elapsed: u64, now: u64) -> MatchState {
    MatchState::Playing(Timer { accumulated: elapsed, running_since: Some(now), target_duration: None })
}

#[test]
fn warm_up_to_play() {
    let d = Durations::standard();
    let s = MatchState::new();
    assert_eq!(s, MatchState::AwaitingPlayers);
    let s = s.transition(Action::StartWarmUp, 0, &d);
    match s {
        MatchState::WarmUp(t) => {
            assert_eq!(t.target_duration, Some(120_000));
            assert!(t.is_running_now());
        }
        _ => panic!("expected warm-up"),
    }
    assert_eq!(s.clock(10_000), Some("1:50".to_string()));
    let s = s.transition(Action::StartMatch, 120_000, &d);
    match s {
        MatchState::Playing(t) => {
            assert_eq!(t.target_duration, None);
            assert_eq!(t.elapsed(120_000), 0);
        }
        _ => panic!("expected playing"),
    }
}

#[test]
fn time_out_round_trip() {
    let d = Durations::standard();
    let s = playing_with_elapsed(37_000, 100_000);
    match s {
        MatchState::Playing(t) => assert_eq!(t.elapsed(100_000), 37_000),
        _ => unreachable!(),
    }
    let s = s.transition(Action::TimeOut, 100_000, &d);
    match s {
        MatchState::TimeOut { timer, set_duration, kind } => {
            assert_eq!(kind, TimeOutKind::Tactical);
            assert!(!set_duration.is_running_now());
            assert_eq!(set_duration.elapsed(100_000), 37_000);
            assert!(timer.is_running_now());
            assert_eq!(timer.target_duration, Some(60_000));
            assert!(!timer.expired(160_000));
            assert!(timer.expired(160_001));
        }
        _ => panic!("expected time-out"),
    }
    assert!(s.overtime(160_001));
    let s = s.transition(Action::Play, 160_000, &d);
    match s {
        MatchState::Playing(t) => {
            assert!(t.is_running_now());
            assert_eq!(t.elapsed(160_000), 37_000);
            assert_eq!(t.elapsed(161_000), 38_000);
        }
        _ => panic!("expected playing"),
    }
}

#[test]
fn set_finished_discards_set_clock() {
    let d = Durations::standard();
    let s = playing_with_elapsed(600_000, 700_000);
    let s = s.transition(Action::SetFinished, 700_000, &d);
    match s {
        MatchState::BetweenSets(t) => {
            assert_eq!(t, Timer::new_countdown(60_000, true, 700_000));
            assert_eq!(t.elapsed(700_000), 0);
        }
        _ => panic!("expected between sets"),
    }
    let s = s.transition(Action::Play, 720_000, &d);
    match s {
        MatchState::Playing(t) => assert_eq!(t.elapsed(720_000), 0),
        _ => panic!("expected playing"),
    }
}

#[test]
fn full_idle_cycle() {
    let d = Durations::standard();
    let s = MatchState::BetweenSets(Timer::new_countdown(60_000, true, 0));
    let s = s.transition(Action::MatchFinished, 30_000, &d);
    assert_eq!(s, MatchState::AwaitingPlayers);
    let again = s.transition(Action::MatchFinished, 40_000, &d);
    assert_eq!(again, MatchState::AwaitingPlayers);
    assert!(!again.needs_periodic_redraw());
    assert_eq!(again.clock(40_000), None);
}

#[test]
fn actions_a_phase_does_not_offer_change_nothing() {
    let d = Durations::standard();
    let s = playing_with_elapsed(5_000, 10_000);
    assert_eq!(s.transition(Action::StartWarmUp, 11_000, &d), s);
    assert_eq!(s.transition(Action::Play, 11_000, &d), s);
    assert_eq!(s.transition(Action::MatchFinished, 11_000, &d), s);
    let w = MatchState::WarmUp(Timer::new_countdown(120_000, true, 0));
    assert_eq!(w.transition(Action::Pause, 1_000, &d), w);
}

#[test]
fn pause_then_play_keeps_set_clock() {
    let d = Durations::standard();
    let s = MatchState::Playing(Timer::new_stopwatch(true, 0));
    let s = s.transition(Action::Pause, 20_000, &d);
    assert_eq!(s, MatchState::Paused(Timer { accumulated: 20_000, running_since: None, target_duration: None }));
    assert_eq!(s.clock(50_000), Some("0:20".to_string()));
    let s = s.transition(Action::Play, 50_000, &d);
    match s {
        MatchState::Playing(t) => assert_eq!(t.elapsed(55_000), 25_000),
        _ => panic!("expected playing"),
    }
}

#[test]
fn medical_time_out_from_paused() {
    let d = Durations::standard();
    let set = Timer { accumulated: 90_000, running_since: None, target_duration: None };
    let s = MatchState::Paused(set).transition(Action::MedicalTimeOut, 200_000, &d);
    assert_eq!(
        s,
        MatchState::TimeOut {
            timer: Timer::new_countdown(600_000, true, 200_000),
            set_duration: set,
            kind: TimeOutKind::Medical,
        }
    );
    assert_eq!(s.title(), "Medical Time-out");
    assert_eq!(s.clock(230_000), Some("9:30".to_string()));
}

#[test]
fn custom_durations_are_used() {
    let d = Durations { warm_up: 5_000, tactical_time_out: 1_000, medical_time_out: 2_000, between_sets: 3_000 };
    let s = MatchState::AwaitingPlayers.transition(Action::StartWarmUp, 0, &d);
    assert_eq!(s, MatchState::WarmUp(Timer::new_countdown(5_000, true, 0)));
    assert!(s.overtime(5_001));
}

#[test]
fn titles_of_phases() {
    let t = Timer::new_countdown(60_000, true, 0);
    assert_eq!(MatchState::AwaitingPlayers.title(), "Awaiting players");
    assert_eq!(MatchState::WarmUp(t).title(), "Warm-up");
    assert_eq!(MatchState::BetweenSets(t).title(), "Pause between sets");
    let sw = Timer::new_stopwatch(false, 0);
    assert_eq!(MatchState::Paused(sw).title(), "Paused");
    assert_eq!(MatchState::TimeOut { timer: t, set_duration: sw, kind: TimeOutKind::Tactical }.title(), "Time-out");
}

#[test]
fn priority_when_several_actions_are_asked() {
    let sw = Timer::new_stopwatch(false, 0);
    let paused = MatchState::Paused(sw);
    let all = vec![Action::TimeOut, Action::MedicalTimeOut, Action::Play];
    assert_eq!(paused.choose_action(&all), Some(Action::Play));
    assert_eq!(paused.choose_action(&vec![Action::TimeOut, Action::MedicalTimeOut]), Some(Action::MedicalTimeOut));
    assert_eq!(paused.choose_action(&vec![Action::SetFinished]), None);
    let playing = MatchState::Playing(Timer::new_stopwatch(true, 0));
    assert_eq!(playing.choose_action(&vec![Action::SetFinished, Action::Pause]), Some(Action::Pause));
    assert_eq!(playing.offered_actions(), vec![Action::Pause, Action::TimeOut, Action::MedicalTimeOut, Action::SetFinished]);
}

#[test]
fn umpire_session_updates_and_redraws() {
    let mut u = TTUmpire::new(None);
    assert_eq!(u.label, "Hello World!");
    assert_eq!(u.repaint_after(), None);
    u.update(&vec![], 0);
    assert_eq!(u.state, MatchState::AwaitingPlayers);
    u.update(&vec![Action::StartWarmUp], 1_000);
    assert_eq!(u.state, MatchState::WarmUp(Timer::new_countdown(120_000, true, 1_000)));
    assert_eq!(u.repaint_after(), Some(1000));
    u.update(&vec![Action::Pause, Action::StartMatch], 2_000);
    assert_eq!(u.state, MatchState::Playing(Timer::new_stopwatch(true, 2_000)));
}

#[test]
fn umpire_keeps_restored_label() {
    let u = TTUmpire::new(Some("Court 3".to_string()));
    assert_eq!(u.label, "Court 3");
    assert_eq!(u.state, MatchState::AwaitingPlayers);
    assert_eq!(u.durations, Durations::standard());
    let v = TTUmpire::default();
    assert_eq!(v.redraw_interval_ms, 1000);
}
