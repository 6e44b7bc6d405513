use openssh_sftp_client::signal::RequestSignal;

#[test]
fn drain_reports_all_queued_requests() {
    let mut signal = RequestSignal::new();
    let mut total = 0usize;
    for round in 1..=5usize {
        for _ in 0..round {
            signal.notify_new_packet_event();
        }
        assert_eq!(signal.pending_count(), round);
        total += signal.take_new_requests().unwrap();
        assert_eq!(signal.take_new_requests(), None);
    }
    assert_eq!(total, 15);
}

#[test]
fn drain_with_nothing_queued_waits() {
    let mut signal = RequestSignal::new();
    assert_eq!(signal.take_new_requests(), None);
    signal.notify_new_packet_event();
    assert_eq!(signal.take_new_requests(), Some(1));
    assert_eq!(signal.pending_count(), 0);
}

#[test]
fn interleaved_signals_sum_to_count() {
    let mut signal = RequestSignal::new();
    let pattern = [true, true, false, true, false, false, true, true, true, false];
    let mut total = 0usize;
    let mut queued = 0usize;
    for queue in pattern {
        if queue {
            signal.notify_new_packet_event();
            queued += 1;
        } else if let Some(n) = signal.take_new_requests() {
            assert!(n > 0);
            total += n;
        }
    }
    total += signal.take_new_requests().unwrap_or(0);
    assert_eq!(queued, 6);
    assert_eq!(total, 6);
}
