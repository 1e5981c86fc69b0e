use usage_dashboard::debounce::{count_triggers, DEBOUNCE_WINDOW_MS};

#[test]
fn window_constant_is_one_second() {
    assert_eq!(DEBOUNCE_WINDOW_MS, 1000);
}

#[test]
fn no_events_no_trigger() {
    assert_eq!(count_triggers(&vec![]), 0);
}

#[test]
fn one_event_one_trigger() {
    assert_eq!(count_triggers(&vec![42]), 1);
}

#[test]
fn burst_within_window_collapses_to_one_trigger() {
    assert_eq!(count_triggers(&vec![0, 100, 500, 900, 1900]), 1);
}

#[test]
fn simultaneous_events_collapse_to_one_trigger() {
    assert_eq!(count_triggers(&vec![5, 5, 5]), 1);
}

#[test]
fn gap_at_the_window_boundary_still_drains() {
    assert_eq!(count_triggers(&vec![0, 1000]), 1);
}

#[test]
fn gap_beyond_the_window_opens_a_new_trigger() {
    assert_eq!(count_triggers(&vec![0, 1001]), 2);
}

#[test]
fn separated_bursts_trigger_once_each() {
    assert_eq!(count_triggers(&vec![0, 500, 2001, 2100, 2900, 9000]), 3);
}
