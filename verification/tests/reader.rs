use udp_relay::{
    Decision, Forwarder, OutboundItem, OutboundQueue, RelayBind, UdpAddr, WorkerStatus,
    RECV_BUFFER_SIZE,
};

fn fresh(client: UdpAddr) -> Forwarder {
    Forwarder::new(String::from("9.9.9.9:53"), client, RelayBind::Bound).unwrap()
}

#[test]
fn receive_buffer_holds_the_largest_datagram() {
    assert_eq!(RECV_BUFFER_SIZE, 64 * 1024);
}

#[test]
fn only_the_bytes_that_were_read_become_the_payload() {
    let client = UdpAddr::v4(172, 16, 0, 1, 9000);
    let mut s = fresh(client);
    let mut q = OutboundQueue::new();
    let buf: Vec<u8> = (0..RECV_BUFFER_SIZE).map(|i| (i % 251) as u8).collect();
    assert_eq!(s.reply_received(&buf, 5, &mut q), Decision::Continue);
    assert_eq!(
        q.next_reply(),
        Some(OutboundItem { client, payload: vec![0, 1, 2, 3, 4] })
    );
}

#[test]
fn an_empty_datagram_is_an_empty_reply() {
    let client = UdpAddr::v4(172, 16, 0, 1, 9000);
    let mut s = fresh(client);
    let mut q = OutboundQueue::new();
    let buf = vec![0xEEu8; 16];
    assert_eq!(s.reply_received(&buf, 0, &mut q), Decision::Continue);
    assert_eq!(q.len(), 1);
    assert_eq!(q.next_reply(), Some(OutboundItem { client, payload: Vec::new() }));
}

#[test]
fn a_datagram_that_fills_the_buffer_comes_through_whole() {
    let client = UdpAddr::V6 { ipv6: 1, port: 9000, flowinfo: 0, scope_id: 0 };
    let mut s = fresh(client);
    let mut q = OutboundQueue::new();
    let buf: Vec<u8> = (0..RECV_BUFFER_SIZE).map(|i| (i % 253) as u8).collect();
    assert_eq!(s.reply_received(&buf, RECV_BUFFER_SIZE, &mut q), Decision::Continue);
    let item = q.next_reply().unwrap();
    assert_eq!(item.client, client);
    assert_eq!(item.payload, buf);
}

#[test]
fn a_failed_read_goes_unnoticed_while_the_flag_is_down() {
    let mut s = fresh(UdpAddr::v4(172, 16, 0, 1, 9000));
    for _ in 0..100 {
        assert_eq!(s.read_failed(), Decision::Continue);
    }
    assert_eq!(s.reader_status(), WorkerStatus::Running);
    assert!(s.is_active());
    assert_eq!(s.timeouts(), 0);
}

#[test]
fn the_reader_leaves_on_the_first_failed_read_after_the_flag() {
    let mut s = fresh(UdpAddr::v4(172, 16, 0, 1, 9000));
    let mut q = OutboundQueue::new();
    s.wait_timed_out();
    s.wait_timed_out();
    assert!(s.idle_timed_out());
    // a reply that still arrives is still delivered
    assert_eq!(s.reply_received(&[1, 2, 3], 3, &mut q), Decision::Continue);
    assert_eq!(q.len(), 1);
    assert_eq!(s.read_failed(), Decision::Exit);
    assert_eq!(s.reader_status(), WorkerStatus::Exited);
    // and a reader that has left takes nothing in
    assert_eq!(s.reply_received(&[4, 5, 6], 3, &mut q), Decision::Exit);
    assert_eq!(q.len(), 1);
    assert_eq!(s.read_failed(), Decision::Exit);
}

#[test]
fn a_closed_outbound_queue_is_fatal_to_the_reader() {
    let mut s = fresh(UdpAddr::v4(172, 16, 0, 1, 9000));
    let mut q = OutboundQueue::new();
    assert_eq!(q.local_write_done(false), Decision::Abort);
    assert_eq!(s.reply_received(&[1, 2, 3], 2, &mut q), Decision::Abort);
    assert_eq!(s.reader_status(), WorkerStatus::Failed);
    assert_eq!(q.len(), 0);
    assert!(!s.is_active());
    // the writer goes on until the client falls silent
    assert_eq!(s.writer_status(), WorkerStatus::Running);
    assert_eq!(s.send_upstream(vec![1]), Ok(()));
    assert_eq!(s.next_inbound(), Some(vec![1]));
    assert_eq!(s.forward_done(true), Decision::Continue);
    assert_eq!(s.wait_timed_out(), Decision::Continue);
    assert_eq!(s.wait_timed_out(), Decision::Exit);
    assert_eq!(s.read_failed(), Decision::Abort);
    assert_eq!(s.reader_status(), WorkerStatus::Failed);
    assert!(s.is_terminated());
}
