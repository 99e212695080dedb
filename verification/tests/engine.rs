use pomosh::config::DurationType;
use pomosh::config::SessionConfig;
use pomosh::engine::EngineState;
use pomosh::engine::TickOutcome;
use pomosh::engine::Timer;
use pomosh::engine::SESSIONS_PER_ROUND;
use pomosh::engine::TICK_SECONDS;
use pomosh::schedule::Phase;

fn config_with(focus: i64, short: i64, long: i64, mute: bool) -> SessionConfig {
    let mut config = SessionConfig::new();
    assert_eq!(config.set_duration(DurationType::Focus, focus), Ok(()));
    assert_eq!(config.set_duration(DurationType::Break, short), Ok(()));
    assert_eq!(config.set_duration(DurationType::LongBreak, long), Ok(()));
    config.set_mute(mute);
    config
}

/// Runs the countdown of the interval under way to its end and returns the
/// minutes that each frame showed, with the outcome of the last tick.
fn run_interval(timer: &mut Timer) -> (Vec<i64>, TickOutcome) {
    let mut shown = Vec::new();
    loop {
        shown.push(timer.remaining_minutes());
        assert!(timer.has_room());
        let outcome = timer.tick();
        if outcome != TickOutcome::Running {
            return (shown, outcome);
        }
    }
}

#[test]
fn a_run_begins_in_round_one_session_zero_in_focus() {
    let state = EngineState::new();
    assert_eq!(state.round_number(), 1);
    assert_eq!(state.session_index(), 0);
    assert_eq!(state.current_phase(), Phase::Focus);
    assert_eq!(state.interval_kind(), DurationType::Focus);
    assert!(!state.is_long_break());
}

#[test]
fn a_tick_is_a_minute_and_a_round_four_sessions() {
    assert_eq!(TICK_SECONDS, 60);
    assert_eq!(SESSIONS_PER_ROUND, 4);
}

#[test]
fn default_focus_counts_down_from_twenty_four() {
    let mut timer = Timer::new(SessionConfig::new());
    assert_eq!(timer.remaining_minutes(), 24);
    assert_eq!(timer.tick(), TickOutcome::Running);
    assert_eq!(timer.remaining_minutes(), 23);
    assert_eq!(timer.state().current_phase(), Phase::Focus);
}

#[test]
fn every_duration_counts_down_through_each_minute_once() {
    for duration in 1..=100i64 {
        let mut timer = Timer::new(config_with(duration, 2, 3, false));
        let (shown, outcome) = run_interval(&mut timer);
        let expected: Vec<i64> = (0..duration).rev().collect();
        assert_eq!(shown, expected);
        assert_eq!(shown.len() as i64, duration);
        assert_eq!(
            outcome,
            TickOutcome::Completed { finished: DurationType::Focus, chime: true }
        );
        assert_eq!(timer.state().current_phase(), Phase::Break);
        assert_eq!(timer.remaining_minutes(), 1);
    }
}

#[test]
fn a_break_counts_down_like_a_focus_interval() {
    let mut timer = Timer::new(config_with(1, 7, 9, false));
    run_interval(&mut timer);
    let (shown, outcome) = run_interval(&mut timer);
    assert_eq!(shown, vec![6, 5, 4, 3, 2, 1, 0]);
    assert_eq!(
        outcome,
        TickOutcome::Completed { finished: DurationType::Break, chime: true }
    );
}

#[test]
fn session_index_cycles_and_round_counts_the_wraps() {
    let mut timer = Timer::new(config_with(1, 1, 1, true));
    for session in 0..9u64 {
        let state = timer.state();
        assert_eq!(state.session_index() as u64, session % 4);
        assert_eq!(state.round_number(), 1 + session / 4);
        assert_eq!(state.current_phase(), Phase::Focus);
        run_interval(&mut timer);
        let state = timer.state();
        assert_eq!(state.session_index() as u64, session % 4);
        assert_eq!(state.round_number(), 1 + session / 4);
        assert_eq!(state.current_phase(), Phase::Break);
        run_interval(&mut timer);
    }
    assert_eq!(timer.state().session_index(), 1);
    assert_eq!(timer.state().round_number(), 3);
}

#[test]
fn advance_steps_through_the_schedule() {
    let mut state = EngineState::new();
    let mut seen = Vec::new();
    for _ in 0..9 {
        seen.push((state.round_number(), state.session_index(), state.current_phase()));
        assert!(state.has_room());
        state.advance();
    }
    assert_eq!(
        seen,
        vec![
            (1, 0, Phase::Focus),
            (1, 0, Phase::Break),
            (1, 1, Phase::Focus),
            (1, 1, Phase::Break),
            (1, 2, Phase::Focus),
            (1, 2, Phase::Break),
            (1, 3, Phase::Focus),
            (1, 3, Phase::Break),
            (2, 0, Phase::Focus),
        ]
    );
}

#[test]
fn the_long_break_belongs_to_the_fourth_session_only() {
    for round in [1u64, 2, 77] {
        for session in 0..4u8 {
            let state = EngineState::at(round, session, Phase::Break).unwrap();
            assert_eq!(state.is_long_break(), session == 3);
            let expected = if session == 3 { DurationType::LongBreak } else { DurationType::Break };
            assert_eq!(state.interval_kind(), expected);
            let focus = EngineState::at(round, session, Phase::Focus).unwrap();
            assert_eq!(focus.interval_kind(), DurationType::Focus);
            assert_eq!(focus.is_long_break(), session == 3);
        }
    }
}

#[test]
fn the_break_runs_for_the_minutes_of_its_kind() {
    let config = config_with(5, 2, 10, false);
    for session in 0..4u8 {
        let state = EngineState::at(1, session, Phase::Break).unwrap();
        let kind = state.interval_kind();
        let timer = Timer::resume(config, state, config.duration(kind) - 1).unwrap();
        let expected = if session == 3 { 9 } else { 1 };
        assert_eq!(timer.remaining_minutes(), expected);
    }
}

#[test]
fn four_sessions_of_five_two_and_ten_minutes() {
    let mut timer = Timer::new(config_with(5, 2, 10, false));
    let mut break_lengths = Vec::new();
    for session in 0..4u8 {
        assert_eq!(timer.state().round_number(), 1);
        assert_eq!(timer.state().session_index(), session);
        let (focus, outcome) = run_interval(&mut timer);
        assert_eq!(focus, vec![4, 3, 2, 1, 0]);
        assert_eq!(
            outcome,
            TickOutcome::Completed { finished: DurationType::Focus, chime: true }
        );
        assert_eq!(timer.state().round_number(), 1);
        let (rest, outcome) = run_interval(&mut timer);
        break_lengths.push(rest.len());
        let finished = if session == 3 { DurationType::LongBreak } else { DurationType::Break };
        assert_eq!(outcome, TickOutcome::Completed { finished, chime: true });
    }
    assert_eq!(break_lengths, vec![2, 2, 2, 10]);
    assert_eq!(timer.state().round_number(), 2);
    assert_eq!(timer.state().session_index(), 0);
    assert_eq!(timer.state().current_phase(), Phase::Focus);
    assert_eq!(timer.remaining_minutes(), 4);
}

#[test]
fn four_rounds_in_a_row_count_up_to_round_five() {
    let mut timer = Timer::new(config_with(5, 2, 10, true));
    for round in 1..=4u64 {
        for session in 0..4u8 {
            assert_eq!(timer.state().round_number(), round);
            assert_eq!(timer.state().session_index(), session);
            run_interval(&mut timer);
            let (rest, _) = run_interval(&mut timer);
            assert_eq!(rest.len(), if session == 3 { 10 } else { 2 });
        }
    }
    assert_eq!(timer.state().round_number(), 5);
}

#[test]
fn a_focus_of_one_minute_shows_one_frame_then_the_break() {
    let mut timer = Timer::new(config_with(1, 5, 10, false));
    assert_eq!(timer.remaining_minutes(), 0);
    assert_eq!(timer.state().current_phase(), Phase::Focus);
    let outcome = timer.tick();
    assert_eq!(
        outcome,
        TickOutcome::Completed { finished: DurationType::Focus, chime: true }
    );
    assert_eq!(timer.state().current_phase(), Phase::Break);
    assert_eq!(timer.state().session_index(), 0);
    assert_eq!(timer.remaining_minutes(), 4);
}

#[test]
fn breaks_of_one_minute_show_one_frame_each() {
    let mut timer = Timer::new(config_with(3, 1, 1, false));
    for _ in 0..4 {
        run_interval(&mut timer);
        let (rest, _) = run_interval(&mut timer);
        assert_eq!(rest, vec![0]);
    }
}

#[test]
fn a_muted_run_never_chimes() {
    let mut timer = Timer::new(config_with(2, 1, 3, true));
    let mut completed = 0;
    for _ in 0..200 {
        match timer.tick() {
            TickOutcome::Running => {}
            TickOutcome::Completed { chime, .. } => {
                completed += 1;
                assert!(!chime);
            }
        }
    }
    assert!(completed > 50);
}

#[test]
fn an_unmuted_run_chimes_once_for_each_completed_interval() {
    let mut timer = Timer::new(config_with(2, 1, 3, false));
    let mut completed = 0;
    let mut chimes = 0;
    let mut last_was_zero;
    for _ in 0..200 {
        last_was_zero = timer.remaining_minutes() == 0;
        match timer.tick() {
            TickOutcome::Running => assert!(!last_was_zero),
            TickOutcome::Completed { chime, .. } => {
                assert!(last_was_zero);
                completed += 1;
                if chime {
                    chimes += 1;
                }
            }
        }
    }
    assert_eq!(chimes, completed);
    // Four sessions take 2+1, 2+1, 2+1 and 2+3 ticks: 14 ticks and 8
    // intervals a round.
    assert_eq!(completed, 8 * (200 / 14) + 2);
}

#[test]
fn there_is_no_state_outside_the_schedule() {
    assert!(EngineState::at(0, 0, Phase::Focus).is_none());
    assert!(EngineState::at(1, 4, Phase::Focus).is_none());
    assert!(EngineState::at(1, 255, Phase::Break).is_none());
    assert!(EngineState::at(1, 3, Phase::Break).is_some());
    assert!(EngineState::at(u64::MAX, 0, Phase::Focus).is_some());
}

#[test]
fn the_last_round_has_room_until_its_long_break() {
    let config = config_with(1, 1, 1, true);
    let focus = EngineState::at(u64::MAX, 3, Phase::Focus).unwrap();
    assert!(focus.has_room());
    let mut timer = Timer::resume(config, focus, 0).unwrap();
    assert!(timer.has_room());
    timer.tick();
    assert_eq!(timer.state().current_phase(), Phase::Break);
    assert_eq!(timer.state().round_number(), u64::MAX);
    assert!(!timer.state().has_room());
    assert!(!timer.has_room());
    let short = EngineState::at(u64::MAX, 2, Phase::Break).unwrap();
    assert!(short.has_room());
}

#[test]
fn a_timer_with_minutes_left_has_room_even_in_the_last_long_break() {
    let config = config_with(1, 1, 5, true);
    let state = EngineState::at(u64::MAX, 3, Phase::Break).unwrap();
    let mut timer = Timer::resume(config, state, 4).unwrap();
    for left in (0..4).rev() {
        assert!(timer.has_room());
        assert_eq!(timer.tick(), TickOutcome::Running);
        assert_eq!(timer.remaining_minutes(), left);
    }
    assert!(!timer.has_room());
}

#[test]
fn resume_takes_only_minutes_that_the_countdown_can_show() {
    let config = config_with(5, 2, 10, false);
    let focus = EngineState::at(3, 1, Phase::Focus).unwrap();
    assert!(Timer::resume(config, focus, 5).is_none());
    assert!(Timer::resume(config, focus, -1).is_none());
    let timer = Timer::resume(config, focus, 4).unwrap();
    assert_eq!(timer.remaining_minutes(), 4);
    assert_eq!(timer.state().round_number(), 3);
    assert_eq!(timer.state().session_index(), 1);
    assert_eq!(timer.config().duration(DurationType::Focus), 5);
    let short = EngineState::at(3, 1, Phase::Break).unwrap();
    assert!(Timer::resume(config, short, 2).is_none());
    assert!(Timer::resume(config, short, 1).is_some());
    let long = EngineState::at(3, 3, Phase::Break).unwrap();
    assert!(Timer::resume(config, long, 9).is_some());
    assert!(Timer::resume(config, long, 10).is_none());
}

#[test]
fn the_timer_tells_what_its_next_tick_will_do() {
    for mute in [false, true] {
        let mut timer = Timer::new(config_with(2, 1, 3, mute));
        for _ in 0..40 {
            let told = timer.next_outcome();
            assert_eq!(timer.tick(), told);
            if let TickOutcome::Completed { chime, .. } = told {
                assert_eq!(chime, !mute);
            }
        }
    }
}
