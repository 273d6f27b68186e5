use chronobolt::{App, Slot};

fn slot(name: &str, minutes: u64) -> Slot {
    Slot { name: name.to_string(), duration_minutes: minutes }
}

fn two_slots() -> Vec<Slot> {
    vec![slot("A", 1), slot("B", 2)]
}

#[test]
fn index_stays_in_range_over_command_sequences() {
    let mut app = App::new(vec![slot("A", 1), slot("B", 2), slot("C", 3)], 0);
    let len = app.slots.len();
    let mut t: u64 = 0;
    for step in 0..50u64 {
        t += 1000;
        match step % 5 {
            0 => app.next_slot(t),
            1 => app.previous_slot(t),
            2 => app.toggle_pause(t),
            3 => app.update(t),
            _ => app.previous_slot(t),
        }
        assert!(app.current_slot_index < len);
    }
}

#[test]
fn previous_at_first_slot_is_a_noop() {
    let mut app = App::new(two_slots(), 5_000);
    app.toggle_pause(7_000);
    let (idx, start, paused, frozen) = (
        app.current_slot_index,
        app.slot_start_time,
        app.paused,
        app.time_elapsed_when_paused,
    );
    app.previous_slot(9_000);
    assert_eq!(app.current_slot_index, idx);
    assert_eq!(app.slot_start_time, start);
    assert_eq!(app.paused, paused);
    assert_eq!(app.time_elapsed_when_paused, frozen);
}

#[test]
fn next_at_last_slot_finishes_and_is_idempotent() {
    let mut app = App::new(two_slots(), 0);
    app.next_slot(1_000);
    assert_eq!(app.current_slot_index, 1);
    assert!(!app.is_finished());
    app.next_slot(2_000);
    assert!(app.is_finished());
    let (idx, start, paused, frozen) = (
        app.current_slot_index,
        app.slot_start_time,
        app.paused,
        app.time_elapsed_when_paused,
    );
    app.next_slot(3_000);
    assert!(app.is_finished());
    assert_eq!(app.current_slot_index, idx);
    assert_eq!(app.slot_start_time, start);
    assert_eq!(app.paused, paused);
    assert_eq!(app.time_elapsed_when_paused, frozen);
}

#[test]
fn finished_means_nothing_remaining() {
    let mut app = App::new(two_slots(), 0);
    app.next_slot(10_000);
    app.next_slot(20_000);
    assert!(app.is_finished());
    assert_eq!(app.current_slot_remaining(20_000), 0);
    assert_eq!(app.total_time_remaining(20_000), 0);
    assert_eq!(app.get_current_elapsed_time(20_000), 0);
}

#[test]
fn pause_resume_roundtrip_keeps_elapsed() {
    let mut app = App::new(two_slots(), 0);
    let before = app.get_current_elapsed_time(42_000);
    app.toggle_pause(42_000);
    app.toggle_pause(42_000);
    assert_eq!(app.get_current_elapsed_time(42_000), before);
    assert!(!app.paused);
}

#[test]
fn elapsed_is_monotonic_while_running() {
    let app = App::new(two_slots(), 3_000);
    let mut last = 0u64;
    for t in [3_000u64, 3_001, 10_000, 50_000, 1_000_000] {
        let e = app.get_current_elapsed_time(t);
        assert!(e >= last);
        last = e;
    }
}

#[test]
fn total_remaining_at_start_is_sum_of_durations() {
    let app = App::new(vec![slot("A", 1), slot("B", 2), slot("C", 4)], 9_000);
    assert_eq!(app.total_time_remaining(9_000), 7 * 60_000);
}

#[test]
fn two_slot_session_runs_through() {
    let mut app = App::new(two_slots(), 0);
    assert_eq!(app.get_current_elapsed_time(0), 0);
    assert_eq!(app.total_time_remaining(0), 180_000);

    // Simulate the driving loop reaching t = 61 s on slot A (60 s long).
    app.update(30_000);
    assert_eq!(app.current_slot_index, 0);
    app.update(61_000);
    assert_eq!(app.current_slot_index, 1);
    assert_eq!(app.slot_start_time, Some(61_000));
    assert!(!app.paused);
    assert_eq!(app.total_time_remaining(61_000), 120_000);

    app.next_slot(70_000);
    assert!(app.is_finished());
    assert_eq!(app.total_time_remaining(70_000), 0);
}

#[test]
fn resume_after_long_pause_keeps_frozen_elapsed() {
    // Pause 30 s into a 60 s slot, wait 1000 s, resume.
    let mut app = App::new(vec![slot("X", 1)], 0);
    app.toggle_pause(30_000);
    assert_eq!(app.get_current_elapsed_time(900_000), 30_000);
    app.toggle_pause(1_030_000);
    assert_eq!(app.get_current_elapsed_time(1_030_000), 30_000);
    assert_eq!(app.get_current_elapsed_time(1_040_000), 40_000);
}

#[test]
fn update_advances_exactly_at_the_duration() {
    let mut app = App::new(two_slots(), 0);
    app.update(59_999);
    assert_eq!(app.current_slot_index, 0);
    app.update(60_000);
    assert_eq!(app.current_slot_index, 1);
}

#[test]
fn update_is_a_noop_while_paused_or_finished() {
    let mut app = App::new(two_slots(), 0);
    app.toggle_pause(10_000);
    app.update(500_000);
    assert_eq!(app.current_slot_index, 0);
    assert!(app.paused);

    let mut done = App::new(two_slots(), 0);
    done.next_slot(0);
    done.next_slot(0);
    assert!(done.is_finished());
    done.update(999_000);
    assert!(done.is_finished());
    assert_eq!(done.current_slot_index, 1);
}

#[test]
fn toggle_pause_when_finished_is_a_noop() {
    let mut app = App::new(two_slots(), 0);
    app.next_slot(0);
    app.next_slot(0);
    assert!(app.is_finished());
    app.toggle_pause(5_000);
    assert!(!app.paused);
    assert!(app.is_finished());
}

#[test]
fn previous_from_finished_restarts_the_prior_slot() {
    let mut app = App::new(two_slots(), 0);
    app.next_slot(10_000);
    app.next_slot(20_000);
    assert!(app.is_finished());
    app.previous_slot(25_000);
    assert!(!app.is_finished());
    assert_eq!(app.current_slot_index, 0);
    assert_eq!(app.slot_start_time, Some(25_000));
    assert_eq!(app.get_current_elapsed_time(26_000), 1_000);
}

#[test]
fn slot_remaining_while_running_and_paused() {
    let mut app = App::new(two_slots(), 0);
    assert_eq!(app.current_slot_remaining(15_000), 45_000);
    app.toggle_pause(20_000);
    // Frozen at 20 s elapsed: remaining stays put as the clock advances.
    assert_eq!(app.current_slot_remaining(500_000), 40_000);
    assert_eq!(app.total_time_remaining(500_000), 40_000 + 120_000);
}

#[test]
fn slot_duration_is_minutes_in_milliseconds() {
    assert_eq!(slot("A", 1).duration(), 60_000);
    assert_eq!(slot("B", 90).duration(), 5_400_000);
}

#[test]
fn new_starts_on_the_first_slot_running() {
    let app = App::new(two_slots(), 123);
    assert_eq!(app.current_slot_index, 0);
    assert_eq!(app.slot_start_time, Some(123));
    assert!(!app.paused);
    assert!(!app.should_quit);
    assert_eq!(app.time_elapsed_when_paused, 0);
    assert!(!app.is_finished());
}
