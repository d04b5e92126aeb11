use ssda_gateway::backoff::Backoff;

#[test]
fn test_backoff_sequence_and_reset() {
    let mut backoff = Backoff::new();
    let mut delays: Vec<u64> = Vec::new();
    for _ in 0..9 {
        delays.push(backoff.on_failure());
    }
    assert_eq!(delays, vec![1, 2, 4, 8, 16, 32, 60, 60, 60]);

    // One success resets the discipline to the initial delay.
    backoff.on_success();
    assert_eq!(backoff.on_failure(), 1);
    assert_eq!(backoff.on_failure(), 2);
}
