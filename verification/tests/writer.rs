use udp_relay::{
    Decision, Forwarder, QueueClosed, RelayBind, UdpAddr, WorkerStatus, IDLE_THRESHOLD, TIMEOUT,
};

fn fresh() -> Forwarder {
    Forwarder::new(String::from("8.8.8.8:53"), UdpAddr::v4(192, 168, 1, 20, 53124), RelayBind::Bound)
        .unwrap()
}

#[test]
fn timing_constants() {
    assert_eq!(TIMEOUT, 30);
    assert_eq!(IDLE_THRESHOLD, 2);
    assert_eq!(TIMEOUT * IDLE_THRESHOLD, 60);
    assert_eq!(29 / TIMEOUT, 0);
    assert_eq!(59 / TIMEOUT, 1);
    assert_eq!(60 / TIMEOUT, 2);
}

#[test]
fn payloads_leave_in_the_order_they_came_with_their_bytes() {
    let mut s = fresh();
    let sent: Vec<Vec<u8>> = (0u8..50).map(|i| vec![i; (i as usize % 7) + 1]).collect();
    let mut handed: Vec<Vec<u8>> = Vec::new();
    for (i, p) in sent.iter().enumerate() {
        assert_eq!(s.send_upstream(p.clone()), Ok(()));
        // the writer keeps up with every third payload only
        if i % 3 == 0 {
            handed.push(s.next_inbound().unwrap());
            assert_eq!(s.forward_done(true), Decision::Continue);
        }
    }
    assert_eq!(s.pending(), sent.len() - handed.len());
    while let Some(p) = s.next_inbound() {
        handed.push(p);
        assert_eq!(s.forward_done(true), Decision::Continue);
    }
    assert_eq!(handed, sent);
    assert_eq!(s.pending(), 0);
}

#[test]
fn empty_payload_is_forwarded_as_it_is() {
    let mut s = fresh();
    assert_eq!(s.send_upstream(Vec::new()), Ok(()));
    assert_eq!(s.pending(), 1);
    assert_eq!(s.next_inbound(), Some(Vec::new()));
    assert_eq!(s.next_inbound(), None);
}

#[test]
fn one_forward_sets_the_count_back_to_zero() {
    let mut s = fresh();
    assert_eq!(s.wait_timed_out(), Decision::Continue);
    assert_eq!(s.timeouts(), 1);
    assert_eq!(s.send_upstream(vec![1]), Ok(()));
    assert_eq!(s.next_inbound(), Some(vec![1]));
    assert_eq!(s.timeouts(), 1);
    assert_eq!(s.forward_done(true), Decision::Continue);
    assert_eq!(s.timeouts(), 0);
    // a full window may pass again without harm
    assert_eq!(s.wait_timed_out(), Decision::Continue);
    assert_eq!(s.timeouts(), 1);
    assert!(!s.idle_timed_out());
}

#[test]
fn a_send_every_29_seconds_never_tears_the_session_down() {
    let mut s = fresh();
    for round in 0u32..10_000 {
        // 29 s of waiting: no window of 30 s expires
        for _ in 0..(29 / TIMEOUT) {
            s.wait_timed_out();
        }
        let payload = round.to_be_bytes().to_vec();
        assert_eq!(s.send_upstream(payload.clone()), Ok(()));
        assert_eq!(s.next_inbound(), Some(payload));
        assert_eq!(s.forward_done(true), Decision::Continue);
        assert_eq!(s.timeouts(), 0);
        assert!(!s.idle_timed_out());
        assert!(s.is_active());
    }
}

#[test]
fn a_send_within_every_other_window_keeps_the_session() {
    let mut s = fresh();
    for round in 0u32..1_000 {
        // 59 s of waiting: one window expires, the second does not
        for _ in 0..(59 / TIMEOUT) {
            assert_eq!(s.wait_timed_out(), Decision::Continue);
        }
        assert_eq!(s.timeouts(), 1);
        assert_eq!(s.send_upstream(vec![round as u8]), Ok(()));
        assert_eq!(s.next_inbound(), Some(vec![round as u8]));
        assert_eq!(s.forward_done(true), Decision::Continue);
        assert_eq!(s.timeouts(), 0);
    }
    assert!(s.is_active());
    assert!(!s.idle_timed_out());
}

#[test]
fn the_idle_flag_goes_up_once_and_stays_up() {
    // t: a window expires, s: the client sends, n: the writer takes a payload,
    // f: a write succeeds, r: a read fails
    let script = "tsnftsnfrttrtsnfttsnfrtt";
    let mut s = fresh();
    let mut raised = 0;
    let mut was_up = s.idle_timed_out();
    assert!(!was_up);
    for (i, op) in script.chars().enumerate() {
        match op {
            't' => {
                s.wait_timed_out();
            }
            's' => {
                let _ = s.send_upstream(vec![i as u8]);
            }
            'n' => {
                let _ = s.next_inbound();
            }
            'f' => {
                s.forward_done(true);
            }
            _ => {
                s.read_failed();
            }
        }
        let up = s.idle_timed_out();
        assert!(up || !was_up);
        if up && !was_up {
            raised += 1;
            // the second expired window in a row is the eleventh step
            assert_eq!(i, 10);
        }
        was_up = up;
    }
    assert!(was_up);
    assert_eq!(raised, 1);
    assert_eq!(s.writer_status(), WorkerStatus::Exited);
    assert_eq!(s.reader_status(), WorkerStatus::Exited);
    assert_eq!(s.timeouts(), 2);
    // nothing brings the writer back
    assert_eq!(s.forward_done(true), Decision::Exit);
    assert_eq!(s.wait_timed_out(), Decision::Exit);
    assert_eq!(s.timeouts(), 2);
    assert_eq!(s.writer_status(), WorkerStatus::Exited);
}

#[test]
fn a_window_with_a_payload_queued_has_not_expired() {
    let mut s = fresh();
    assert_eq!(s.wait_timed_out(), Decision::Continue);
    assert_eq!(s.send_upstream(vec![5, 5]), Ok(()));
    assert_eq!(s.wait_timed_out(), Decision::Continue);
    assert_eq!(s.wait_timed_out(), Decision::Continue);
    assert_eq!(s.timeouts(), 1);
    assert!(!s.idle_timed_out());
    assert_eq!(s.writer_status(), WorkerStatus::Running);
    assert_eq!(s.next_inbound(), Some(vec![5, 5]));
}

#[test]
fn a_failed_write_is_fatal_to_the_writer() {
    let mut s = fresh();
    assert_eq!(s.send_upstream(vec![1]), Ok(()));
    assert_eq!(s.send_upstream(vec![2]), Ok(()));
    assert_eq!(s.next_inbound(), Some(vec![1]));
    assert_eq!(s.forward_done(false), Decision::Abort);
    assert_eq!(s.writer_status(), WorkerStatus::Failed);
    // the queue went with the writer, and the idle flag stays down
    assert_eq!(s.pending(), 0);
    assert_eq!(s.next_inbound(), None);
    assert!(!s.idle_timed_out());
    assert_eq!(s.send_upstream(vec![3]), Err(QueueClosed(vec![3])));
    assert_eq!(s.wait_timed_out(), Decision::Abort);
    assert_eq!(s.forward_done(true), Decision::Abort);
    assert_eq!(s.timeouts(), 0);
    // the reader is left to itself
    assert_eq!(s.reader_status(), WorkerStatus::Running);
    assert_eq!(s.read_failed(), Decision::Continue);
    assert!(!s.is_terminated());
}

#[test]
fn decisions_follow_the_status() {
    assert_eq!(WorkerStatus::Running.to_decision(), Decision::Continue);
    assert_eq!(WorkerStatus::Exited.to_decision(), Decision::Exit);
    assert_eq!(WorkerStatus::Failed.to_decision(), Decision::Abort);
}
