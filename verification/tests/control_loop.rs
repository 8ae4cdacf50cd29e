use button_log::blinker::{Blinker, BLINK_INTERVAL_MS};
use button_log::buffer::{BackingRegion, EventBuffer};
use button_log::dispatcher::{DispatchOutcome, Dispatcher, Phase, DEBOUNCE_MS};
use button_log::trigger::{resolve_trigger, winner_color, Color, LineLevels, MuxWinner};

fn levels(green: bool, blue: bool, white: bool) -> LineLevels {
    LineLevels { green, blue, white }
}

#[test]
fn mux_reports_the_single_high_line() {
    assert_eq!(resolve_trigger(levels(true, false, false)), Some(Color::Green));
    assert_eq!(resolve_trigger(levels(false, true, false)), Some(Color::Blue));
    assert_eq!(resolve_trigger(levels(false, false, true)), Some(Color::White));
}

#[test]
fn mux_does_not_resolve_without_a_high_line() {
    assert_eq!(resolve_trigger(levels(false, false, false)), None);
}

#[test]
fn mux_breaks_ties_in_declaration_order() {
    assert_eq!(resolve_trigger(levels(true, true, false)), Some(Color::Green));
    assert_eq!(resolve_trigger(levels(true, false, true)), Some(Color::Green));
    assert_eq!(resolve_trigger(levels(false, true, true)), Some(Color::Blue));
    assert_eq!(resolve_trigger(levels(true, true, true)), Some(Color::Green));
}

#[test]
fn each_winner_classifies_to_its_own_color() {
    assert_eq!(winner_color(MuxWinner::First), Color::Green);
    assert_eq!(winner_color(MuxWinner::Second), Color::Blue);
    assert_eq!(winner_color(MuxWinner::Third), Color::White);
}

#[test]
fn trigger_arms_the_full_debounce_delay_for_every_line() {
    for color in [Color::Green, Color::Blue, Color::White] {
        let mut dispatcher = Dispatcher::new(BackingRegion::new(8));
        assert_eq!(dispatcher.current_phase(), Phase::Idle);
        let delay = dispatcher.on_trigger(color);
        assert_eq!(delay, DEBOUNCE_MS);
        assert_eq!(delay, 300);
        assert_eq!(dispatcher.current_phase(), Phase::Debouncing(color));
    }
}

#[test]
fn dispatch_returns_to_idle_after_one_handler() {
    let mut dispatcher = Dispatcher::new(BackingRegion::new(8));
    dispatcher.on_trigger(Color::Blue);
    let outcome = dispatcher.on_debounce_elapsed();
    assert!(matches!(outcome, DispatchOutcome::Recorded(true)));
    assert_eq!(dispatcher.current_phase(), Phase::Idle);
}

#[test]
fn blue_white_green_round_trip() {
    // End-to-end scenario: inputs fire in order Blue, White, Green.
    let mut dispatcher = Dispatcher::new(BackingRegion::new(8));

    dispatcher.on_trigger(Color::Blue);
    let first = dispatcher.on_debounce_elapsed();
    assert!(matches!(first, DispatchOutcome::Recorded(true)));
    assert_eq!(dispatcher.buffer_len(), 1);

    dispatcher.on_trigger(Color::White);
    let second = dispatcher.on_debounce_elapsed();
    assert!(matches!(second, DispatchOutcome::Recorded(false)));
    assert_eq!(dispatcher.buffer_len(), 2);

    dispatcher.on_trigger(Color::Green);
    let third = dispatcher.on_debounce_elapsed();
    match third {
        DispatchOutcome::Reported(report) => assert_eq!(report, vec![true, false]),
        _ => panic!("the green trigger must run the report handler"),
    }
    assert_eq!(dispatcher.buffer_len(), 0);
}

#[test]
fn report_keeps_record_order() {
    let mut dispatcher = Dispatcher::new(BackingRegion::new(16));
    let pattern = [true, false, false, true, false];
    for value in pattern {
        let color = if value { Color::Blue } else { Color::White };
        dispatcher.on_trigger(color);
        let outcome = dispatcher.on_debounce_elapsed();
        assert!(matches!(outcome, DispatchOutcome::Recorded(v) if v == value));
    }
    dispatcher.on_trigger(Color::Green);
    match dispatcher.on_debounce_elapsed() {
        DispatchOutcome::Reported(report) => assert_eq!(report, pattern.to_vec()),
        _ => panic!("the green trigger must run the report handler"),
    }
}

#[test]
fn clearing_twice_reports_empty_both_times() {
    let mut dispatcher = Dispatcher::new(BackingRegion::new(8));
    for _ in 0..2 {
        dispatcher.on_trigger(Color::Green);
        match dispatcher.on_debounce_elapsed() {
            DispatchOutcome::Reported(report) => assert_eq!(report, Vec::<bool>::new()),
            _ => panic!("the green trigger must run the report handler"),
        }
        assert_eq!(dispatcher.buffer_len(), 0);
    }
}

#[test]
fn second_clear_after_records_reports_empty() {
    let mut dispatcher = Dispatcher::new(BackingRegion::new(8));
    dispatcher.on_trigger(Color::Blue);
    dispatcher.on_debounce_elapsed();

    dispatcher.on_trigger(Color::Green);
    match dispatcher.on_debounce_elapsed() {
        DispatchOutcome::Reported(report) => assert_eq!(report, vec![true]),
        _ => panic!("the green trigger must run the report handler"),
    }

    dispatcher.on_trigger(Color::Green);
    match dispatcher.on_debounce_elapsed() {
        DispatchOutcome::Reported(report) => assert_eq!(report, Vec::<bool>::new()),
        _ => panic!("the green trigger must run the report handler"),
    }
    assert_eq!(dispatcher.buffer_len(), 0);
}

#[test]
fn growth_beyond_the_region_faults() {
    let mut dispatcher = Dispatcher::new(BackingRegion::new(2));
    for _ in 0..2 {
        dispatcher.on_trigger(Color::Blue);
        assert!(matches!(dispatcher.on_debounce_elapsed(), DispatchOutcome::Recorded(true)));
    }
    dispatcher.on_trigger(Color::Blue);
    let outcome = dispatcher.on_debounce_elapsed();
    assert!(matches!(outcome, DispatchOutcome::Fault(_)));
    // Nothing was dropped or truncated: the two recorded entries survive.
    assert_eq!(dispatcher.buffer_len(), 2);
    dispatcher.on_trigger(Color::Green);
    match dispatcher.on_debounce_elapsed() {
        DispatchOutcome::Reported(report) => assert_eq!(report, vec![true, true]),
        _ => panic!("the green trigger must run the report handler"),
    }
}

#[test]
fn an_empty_region_faults_on_the_first_record() {
    let mut buffer = EventBuffer::new(BackingRegion::new(0));
    assert!(buffer.record(true).is_err());
    assert_eq!(buffer.len(), 0);
}

#[test]
fn buffer_records_and_reports_directly() {
    let mut buffer = EventBuffer::new(BackingRegion::new(4));
    assert_eq!(buffer.len(), 0);
    assert!(buffer.record(true).is_ok());
    assert!(buffer.record(false).is_ok());
    assert!(buffer.record(true).is_ok());
    assert_eq!(buffer.len(), 3);
    assert_eq!(buffer.report_and_clear(), vec![true, false, true]);
    assert_eq!(buffer.len(), 0);
    // The region is kept: the buffer accepts new records after a clear.
    assert!(buffer.record(false).is_ok());
    assert_eq!(buffer.report_and_clear(), vec![false]);
}

#[test]
fn blinker_alternates_every_interval() {
    let mut blinker = Blinker::new();
    assert!(!blinker.current_level());
    let interval = blinker.step();
    assert_eq!(interval, BLINK_INTERVAL_MS);
    assert_eq!(interval, 100);
    assert!(blinker.current_level());
    blinker.step();
    assert!(!blinker.current_level());
    for tick in 1..=20u32 {
        blinker.step();
        assert_eq!(blinker.current_level(), tick % 2 == 1);
    }
}
