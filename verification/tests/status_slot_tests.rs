use keychron_monitor::report::Report;
use keychron_monitor::status_slot::StatusSlot;

fn with_profile(current: u8) -> Report {
    let mut r = Report::default();
    r.profile.current = current;
    r
}

#[test]
fn new_slot_holds_the_initial_status() {
    let slot = StatusSlot::new(with_profile(7));
    assert_eq!(slot.borrow(), with_profile(7));
    let mut watcher = slot.subscribe();
    assert!(!watcher.has_changed(&slot));
    assert_eq!(watcher.changed(&slot), None);
}

#[test]
fn watcher_sees_a_published_status_once() {
    let mut slot = StatusSlot::new(Report::default());
    let mut watcher = slot.subscribe();
    slot.publish(with_profile(1));
    assert!(watcher.has_changed(&slot));
    assert_eq!(watcher.changed(&slot), Some(with_profile(1)));
    assert!(!watcher.has_changed(&slot));
    assert_eq!(watcher.changed(&slot), None);
}

#[test]
fn watcher_that_missed_statuses_sees_the_latest_only() {
    let mut slot = StatusSlot::new(Report::default());
    let mut watcher = slot.subscribe();
    for current in 1..=5 {
        slot.publish(with_profile(current));
    }
    assert_eq!(watcher.changed(&slot), Some(with_profile(5)));
    assert_eq!(watcher.changed(&slot), None);
    slot.publish(with_profile(6));
    slot.publish(with_profile(7));
    assert_eq!(watcher.changed(&slot), Some(with_profile(7)));
}

#[test]
fn publishing_the_same_status_again_is_a_change() {
    let mut slot = StatusSlot::new(with_profile(1));
    let mut watcher = slot.subscribe();
    slot.publish(with_profile(1));
    assert_eq!(watcher.changed(&slot), Some(with_profile(1)));
}

#[test]
fn watchers_are_independent() {
    let mut slot = StatusSlot::new(Report::default());
    let mut early = slot.subscribe();
    slot.publish(with_profile(1));
    let mut late = slot.subscribe();
    assert_eq!(late.changed(&slot), None);
    slot.publish(with_profile(2));
    assert_eq!(early.changed(&slot), Some(with_profile(2)));
    assert_eq!(late.changed(&slot), Some(with_profile(2)));
    assert_eq!(early.changed(&slot), None);
}
