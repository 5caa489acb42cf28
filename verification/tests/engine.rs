use on_mouse::activity::{Activity, Event};
use on_mouse::engine::DebounceEngine;
use on_mouse::timeline::TimedEvent;

fn at(event: Event, now: u128) -> TimedEvent {
    TimedEvent { event, now }
}

#[test]
fn new_engine_is_inactive_and_remembers_the_first_reading() {
    let engine = DebounceEngine::new(4, 17);
    assert_eq!(engine.activity(), Activity::Inactive);
    assert!(!engine.last_is_active());
    assert_eq!(engine.last_move_time(), 17);
    assert_eq!(engine.min_movement_gap(), 4);
}

#[test]
fn first_motion_notifies_active_and_stamps_the_time() {
    let mut engine = DebounceEngine::new(4, 1);
    assert_eq!(engine.advance(Event::Mousemove, 9), Some(Activity::Active));
    assert!(engine.last_is_active());
    assert_eq!(engine.last_move_time(), 9);
}

#[test]
fn motion_while_active_only_resets_the_time() {
    let mut engine = DebounceEngine::new(4, 1);
    engine.advance(Event::Mousemove, 2);
    assert_eq!(engine.advance(Event::Mousemove, 3), None);
    assert_eq!(engine.advance(Event::Mousemove, 30), None);
    assert_eq!(engine.last_move_time(), 30);
    assert_eq!(engine.activity(), Activity::Active);
}

#[test]
fn tick_one_short_of_the_gap_is_premature() {
    let mut engine = DebounceEngine::new(4, 0);
    engine.advance(Event::Mousemove, 10);
    assert_eq!(engine.advance(Event::TimePassed, 13), None);
    assert!(engine.last_is_active());
    assert_eq!(engine.last_move_time(), 10);
}

#[test]
fn tick_exactly_at_the_gap_notifies_inactive() {
    let mut engine = DebounceEngine::new(4, 0);
    engine.advance(Event::Mousemove, 10);
    assert_eq!(engine.advance(Event::TimePassed, 14), Some(Activity::Inactive));
    assert!(!engine.last_is_active());
    assert_eq!(engine.last_move_time(), 10);
}

#[test]
fn tick_while_inactive_needs_no_clock_and_changes_nothing() {
    let mut engine = DebounceEngine::new(4, 5);
    assert!(!engine.reads_clock(Event::TimePassed));
    assert!(engine.reads_clock(Event::Mousemove));
    assert_eq!(engine.advance(Event::TimePassed, 1_000_000), None);
    assert_eq!(engine.activity(), Activity::Inactive);
    assert_eq!(engine.last_move_time(), 5);
    engine.advance(Event::Mousemove, 6);
    assert!(engine.reads_clock(Event::TimePassed));
}

#[test]
fn clock_running_backwards_counts_as_no_time_elapsed() {
    let mut engine = DebounceEngine::new(4, 0);
    engine.advance(Event::Mousemove, 100);
    assert_eq!(engine.advance(Event::TimePassed, 3), None);
    assert!(engine.last_is_active());
}

#[test]
fn zero_gap_goes_inactive_at_the_first_tick() {
    let mut engine = DebounceEngine::new(0, 0);
    assert_eq!(engine.advance(Event::Mousemove, 7), Some(Activity::Active));
    assert_eq!(engine.advance(Event::TimePassed, 7), Some(Activity::Inactive));
}

#[test]
fn readings_at_the_top_of_the_range_do_not_overflow() {
    let mut engine = DebounceEngine::new(u128::MAX, 0);
    assert_eq!(engine.advance(Event::Mousemove, 0), Some(Activity::Active));
    assert_eq!(engine.advance(Event::TimePassed, u128::MAX - 1), None);
    assert_eq!(engine.advance(Event::TimePassed, u128::MAX), Some(Activity::Inactive));
}

#[test]
fn a_burst_of_motion_is_reported_once() {
    let mut engine = DebounceEngine::new(4, 0);
    let mut recorded = vec![];
    for now in 1..=50u128 {
        recorded.push(at(Event::Mousemove, now));
    }
    assert_eq!(engine.replay(&recorded), vec![Activity::Active]);
    assert!(engine.last_is_active());
}

#[test]
fn a_burst_with_early_ticks_in_between_is_reported_once() {
    let mut engine = DebounceEngine::new(4, 0);
    let recorded = vec![
        at(Event::TimePassed, 900),
        at(Event::Mousemove, 1000),
        at(Event::TimePassed, 1003),
        at(Event::Mousemove, 1004),
        at(Event::TimePassed, 1007),
        at(Event::Mousemove, 1007),
        at(Event::TimePassed, 1010),
    ];
    assert_eq!(engine.replay(&recorded), vec![Activity::Active]);
}

#[test]
fn early_ticks_are_silent_until_the_gap_is_reached() {
    let mut engine = DebounceEngine::new(10, 0);
    engine.advance(Event::Mousemove, 100);
    let early: Vec<TimedEvent> = (101..110u128).map(|now| at(Event::TimePassed, now)).collect();
    assert_eq!(engine.replay(&early), vec![]);
    assert!(engine.last_is_active());
    assert_eq!(engine.replay(&vec![at(Event::TimePassed, 110)]), vec![Activity::Inactive]);
    assert!(!engine.last_is_active());
}

#[test]
fn ticks_after_going_inactive_are_idle() {
    let mut engine = DebounceEngine::new(4, 0);
    engine.advance(Event::Mousemove, 1);
    assert_eq!(engine.advance(Event::TimePassed, 5), Some(Activity::Inactive));
    let before = (engine.last_move_time(), engine.last_is_active());
    let ticks: Vec<TimedEvent> = (6..1000u128).map(|now| at(Event::TimePassed, now)).collect();
    assert_eq!(engine.replay(&ticks), vec![]);
    assert_eq!((engine.last_move_time(), engine.last_is_active()), before);
}

#[test]
fn notifications_never_repeat_and_start_with_active() {
    let mut engine = DebounceEngine::new(3, 0);
    let mut recorded = vec![];
    let mut now: u128 = 0;
    let mut seed: u32 = 12345;
    for _ in 0..2000 {
        seed = seed.wrapping_mul(1664525).wrapping_add(1013904223);
        now += u128::from((seed >> 16) % 5);
        let event = if (seed >> 8) % 3 == 0 { Event::Mousemove } else { Event::TimePassed };
        recorded.push(at(event, now));
    }
    let sent = engine.replay(&recorded);
    assert!(sent.len() > 2);
    assert_eq!(sent[0], Activity::Active);
    for pair in sent.windows(2) {
        assert_ne!(pair[0], pair[1]);
    }
    assert_eq!(engine.activity(), *sent.last().unwrap());
}

#[test]
fn replay_of_the_four_unit_gap_scenario() {
    let mut engine = DebounceEngine::new(4, 1);
    let mut recorded = vec![];
    let mut now: u128 = 1;
    let mut push = |event: Event, recorded: &mut Vec<TimedEvent>| {
        now += 1;
        recorded.push(at(event, now));
    };
    push(Event::Mousemove, &mut recorded);
    for _ in 0..3 {
        push(Event::TimePassed, &mut recorded);
    }
    assert_eq!(engine.clone().replay(&recorded), vec![Activity::Active]);
    for _ in 0..5 {
        push(Event::Mousemove, &mut recorded);
        for _ in 0..3 {
            push(Event::TimePassed, &mut recorded);
        }
    }
    assert_eq!(engine.clone().replay(&recorded), vec![Activity::Active]);
    for _ in 0..5 {
        push(Event::TimePassed, &mut recorded);
    }
    assert_eq!(engine.replay(&recorded), vec![Activity::Active, Activity::Inactive]);
}

#[test]
fn activity_and_flag_agree() {
    assert!(Activity::Active.is_active());
    assert!(!Activity::Inactive.is_active());
    assert_eq!(Activity::from_moving(true), Activity::Active);
    assert_eq!(Activity::from_moving(false), Activity::Inactive);
}

#[test]
fn inactivity_is_reported_within_one_poll_interval() {
    let gap: u128 = 1000;
    let poll: u128 = on_mouse::config::poll_interval(gap);
    assert_eq!(poll, 250);
    let last_move: u128 = 37;
    for first_wait in [1u128, 100, 249, 250] {
        let mut engine = DebounceEngine::new(gap, 0);
        engine.advance(Event::Mousemove, last_move);
        let mut now = last_move + first_wait;
        let mut reported_at = None;
        for _ in 0..10 {
            if engine.advance(Event::TimePassed, now) == Some(Activity::Inactive) {
                reported_at = Some(now);
                break;
            }
            now += poll;
        }
        let reported_at = reported_at.unwrap();
        assert!(reported_at >= last_move + gap);
        assert!(reported_at <= last_move + gap + poll);
        let polls_needed = (gap - first_wait + poll - 1) / poll;
        assert_eq!(reported_at, last_move + first_wait + poll * polls_needed);
    }
}

#[test]
fn advance_under_reads_the_clock_only_where_the_event_needs_it() {
    let mut reads = 0u32;
    let mut get_now = || {
        reads += 1;
        u128::from(reads) * 10
    };
    let mut engine = DebounceEngine::new(15, 0);
    assert_eq!(engine.advance_under(Event::TimePassed, &mut get_now), None);
    assert_eq!(engine.advance_under(Event::Mousemove, &mut get_now), Some(Activity::Active));
    assert_eq!(engine.last_move_time(), 10);
    assert_eq!(engine.advance_under(Event::TimePassed, &mut get_now), None);
    assert_eq!(engine.advance_under(Event::TimePassed, &mut get_now), Some(Activity::Inactive));
    assert_eq!(engine.advance_under(Event::TimePassed, &mut get_now), None);
    assert_eq!(reads, 3);
}
