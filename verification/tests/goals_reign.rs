use pete_runtime::reign::{test_reign_input, ReignCommand, ReignMode, ReignQueue};

#[test]
fn goals_reign_expired_reign_disappears_from_sense() {
    let mut queue = ReignQueue::default();
    queue.push(test_reign_input(
        100,
        ReignMode::Direct,
        ReignCommand::Stop,
        100,
    ));

    queue.drain_expired(250);
    let sense = queue.sense(250);

    assert!(!sense.active);
    assert!(sense.latest.is_none());
    assert_eq!(sense.pending_count, 0);
}

#[test]
fn goals_reign_clear_marks_reign_sense_for_event_extraction() {
    let mut queue = ReignQueue::default();
    queue.push(test_reign_input(
        100,
        ReignMode::Direct,
        ReignCommand::Stop,
        1_000,
    ));

    queue.clear();
    let sense = queue.sense(150);

    assert!(!sense.active);
    assert!(sense.latest.is_none());
    assert_eq!(sense.clear_sequence, 1);
}

#[test]
fn reign_ids_are_random_version_four_uuids() {
    for _ in 0..16 {
        let input = test_reign_input(100, ReignMode::Direct, ReignCommand::Stop, 300);
        assert_eq!((input.id >> 76) & 0xf, 4);
        assert_eq!((input.id >> 62) & 0b11, 0b10);
    }
}
