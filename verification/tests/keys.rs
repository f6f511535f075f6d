use ruwindowman::keys::KeyEvent;
use ruwindowman::keys::KeyStateStore;

#[test]
fn snapshot_tracks_presses_and_releases() {
    let mut store = KeyStateStore::new();
    assert_eq!(store.snapshot(), Vec::<i64>::new());

    store.mark_down(0x37);
    store.mark_down(0x3B);
    store.mark_down(0x7B);
    store.mark_up(0x3B);
    assert_eq!(store.snapshot(), vec![0x37, 0x7B]);

    store.mark_up(0x37);
    store.mark_up(0x7B);
    assert_eq!(store.snapshot(), Vec::<i64>::new());
}

#[test]
fn mark_down_is_idempotent() {
    let mut store = KeyStateStore::new();
    store.mark_down(0x37);
    store.mark_down(0x37);
    store.mark_down(0x37);
    assert_eq!(store.snapshot(), vec![0x37]);
}

#[test]
fn mark_up_on_absent_code_is_a_no_op() {
    let mut store = KeyStateStore::new();
    store.mark_up(0x37);
    assert_eq!(store.snapshot(), Vec::<i64>::new());

    store.mark_down(0x3B);
    store.mark_up(0x37);
    assert_eq!(store.snapshot(), vec![0x3B]);
}

#[test]
fn mark_up_removes_only_the_released_code() {
    let mut store = KeyStateStore::new();
    store.mark_down(1);
    store.mark_down(2);
    store.mark_down(3);
    store.mark_up(2);
    assert_eq!(store.snapshot(), vec![1, 3]);
}

#[test]
fn apply_event_dispatches_transitions() {
    let mut store = KeyStateStore::new();
    let events = [
        KeyEvent::Down(0x37),
        KeyEvent::Down(0x7B),
        KeyEvent::Up(0x7B),
        KeyEvent::Down(0x3B),
        KeyEvent::Down(0x7E),
        KeyEvent::Up(0x7E),
        KeyEvent::Down(0x7E),
    ];
    for event in events {
        store.apply_event(event);
    }
    // Exactly the keys pressed but not released afterwards remain held.
    assert_eq!(store.snapshot(), vec![0x37, 0x3B, 0x7E]);
}

#[test]
fn modifier_flag_diffing_derives_transitions() {
    let mut store = KeyStateStore::new();
    // Command reported active twice in a row: one press, no duplicate.
    store.apply_modifier_flag(0x37, true);
    store.apply_modifier_flag(0x37, true);
    assert_eq!(store.snapshot(), vec![0x37]);

    // Control tracked independently of command.
    store.apply_modifier_flag(0x3B, true);
    assert_eq!(store.snapshot(), vec![0x37, 0x3B]);

    // Command reported inactive: released; control unaffected.
    store.apply_modifier_flag(0x37, false);
    assert_eq!(store.snapshot(), vec![0x3B]);

    // Inactive report for a key that is not held: a no-op.
    store.apply_modifier_flag(0x37, false);
    assert_eq!(store.snapshot(), vec![0x3B]);
}

#[test]
fn snapshot_is_a_copy_not_a_reference() {
    let mut store = KeyStateStore::new();
    store.mark_down(5);
    let before = store.snapshot();
    store.mark_down(6);
    assert_eq!(before, vec![5]);
    assert_eq!(store.snapshot(), vec![5, 6]);
}
