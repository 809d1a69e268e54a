use voice_agent_server::retention::{auto_retention_capacity, AutoPcmRetention};

#[test]
fn capacity_covers_pre_roll_confirmation_and_queue() {
    assert_eq!(auto_retention_capacity(4, 3_200, 4_800), 4_800 + 3_200 + 4 * 960 + 960 + 512);
    assert_eq!(auto_retention_capacity(0, 0, 0), 1_472);
}

#[test]
fn retention_keeps_the_latest_samples_by_stream_position() {
    let mut retention = AutoPcmRetention::new(4);
    retention.push(&[1i16, 2, 3]);
    assert_eq!(retention.range(0), Some(vec![1, 2, 3]));
    retention.push(&[4, 5, 6]);
    assert_eq!(retention.range(1), None);
    assert_eq!(retention.range(2), Some(vec![3, 4, 5, 6]));
    assert_eq!(retention.range(5), Some(vec![6]));
    assert_eq!(retention.range(6), Some(vec![]));
    assert_eq!(retention.range(7), None);
    retention.reset();
    assert_eq!(retention.range(0), Some(vec![]));
}
