use platformer_core::grounded::{
    ContactEvent, ContactKind, EventDrivenTracker, GroundedProvider, SweepDerivedTracker,
};

const SENSOR: u64 = 7;

fn started(a: u64, b: u64) -> ContactEvent {
    ContactEvent { kind: ContactKind::Started, first: a, second: b }
}

fn stopped(a: u64, b: u64) -> ContactEvent {
    ContactEvent { kind: ContactKind::Stopped, first: a, second: b }
}

#[test]
fn contact_start_sets_grounded() {
    let mut t = EventDrivenTracker::new(SENSOR);
    assert!(!t.is_grounded());
    t.observe(&vec![started(SENSOR, 2)], false);
    assert!(t.is_grounded());
}

#[test]
fn sensor_matches_on_either_side() {
    let mut t = EventDrivenTracker::new(SENSOR);
    t.observe(&vec![started(3, SENSOR)], false);
    assert!(t.is_grounded());
}

#[test]
fn contact_stop_clears_grounded() {
    let mut t = EventDrivenTracker::new(SENSOR);
    t.observe(&vec![started(SENSOR, 2)], false);
    t.observe(&vec![stopped(2, SENSOR)], false);
    assert!(!t.is_grounded());
}

#[test]
fn stop_clears_even_with_another_contact_active() {
    // Simultaneous contacts are not reference-counted: the stop wins.
    let mut t = EventDrivenTracker::new(SENSOR);
    t.observe(&vec![started(SENSOR, 2), started(SENSOR, 3), stopped(SENSOR, 2)], false);
    assert!(!t.is_grounded());
}

#[test]
fn unrelated_events_are_ignored() {
    let mut t = EventDrivenTracker::new(SENSOR);
    t.observe(&vec![started(1, 2), stopped(4, 5)], false);
    assert!(!t.is_grounded());
    t.observe(&vec![started(SENSOR, 2)], false);
    t.observe(&vec![stopped(1, 9)], false);
    assert!(t.is_grounded());
}

#[test]
fn last_event_naming_sensor_wins() {
    let mut t = EventDrivenTracker::new(SENSOR);
    t.observe(&vec![started(SENSOR, 2), stopped(SENSOR, 2), started(SENSOR, 4)], false);
    assert!(t.is_grounded());
}

#[test]
fn event_tracker_ignores_sweep_report() {
    let mut t = EventDrivenTracker::new(SENSOR);
    t.observe(&vec![], true);
    assert!(!t.is_grounded());
}

#[test]
fn sweep_tracker_follows_sweep_report() {
    let mut t = SweepDerivedTracker::new();
    assert!(!t.is_grounded());
    t.observe(&vec![], true);
    assert!(t.is_grounded());
    // Recomputed fresh every frame, with no event memory.
    t.observe(&vec![started(SENSOR, 2)], false);
    assert!(!t.is_grounded());
}
