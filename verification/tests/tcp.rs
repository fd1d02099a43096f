use lupos_net::errno::EINVAL;
use lupos_net::tcp::{
    Cubic, TcpConnection, TcpRetransmitTimer, TcpSegment, TcpState, TcpStreamQueues, TCP_ACK, TCP_FIN, TCP_RST, TCP_SYN,
};

#[test]
fn active_open_reaches_established_and_cubic_changes() {
    let mut conn = TcpConnection::connect(100);
    conn.on_segment(TcpSegment { seq: 500, ack: 101, flags: TCP_SYN | TCP_ACK, wnd: 4096 }).unwrap();
    assert_eq!(conn.state, TcpState::Established);

    let before = conn.congestion.cwnd;
    conn.on_segment(TcpSegment { seq: 501, ack: 101, flags: TCP_ACK, wnd: 4096 }).unwrap();
    assert!(conn.congestion.cwnd > before);
    conn.congestion.on_loss();
    assert!(conn.congestion.cwnd <= before);
}

#[test]
fn passive_open_reaches_established() {
    let mut conn = TcpConnection::listen();
    conn.on_segment(TcpSegment { seq: 7, ack: 0, flags: TCP_SYN, wnd: 4096 }).unwrap();
    assert_eq!(conn.state, TcpState::SynReceived);
    conn.on_segment(TcpSegment { seq: 8, ack: 1, flags: TCP_ACK, wnd: 4096 }).unwrap();
    assert_eq!(conn.state, TcpState::Established);
}

#[test]
fn tcp_queues_and_retransmit_timer_are_stateful() {
    let mut queues = TcpStreamQueues::default();
    queues.queue_send(b"out");
    assert_eq!(queues.pop_send().unwrap(), b"out");
    queues.queue_recv(b"in");
    let mut buf = [0u8; 8];
    assert_eq!(queues.recv(&mut buf).unwrap(), 2);
    assert_eq!(&buf[..2], b"in");

    let mut timer = TcpRetransmitTimer::new(200);
    assert_eq!(timer.on_timeout(), Err(EINVAL));
    timer.arm();
    assert_eq!(timer.on_timeout().unwrap(), 400);
    assert_eq!(timer.retransmits, 1);
    timer.acked();
    assert!(!timer.armed);
    assert_eq!(timer.retransmits, 0);
}

#[test]
fn rst_closes_and_unexpected_segments_are_refused() {
    let mut conn = TcpConnection::connect(1);
    assert_eq!(conn.on_segment(TcpSegment { seq: 0, ack: 0, flags: TCP_FIN, wnd: 0 }), Err(EINVAL));
    assert_eq!(conn.state, TcpState::SynSent);
    conn.on_segment(TcpSegment { seq: 0, ack: 0, flags: TCP_RST, wnd: 0 }).unwrap();
    assert_eq!(conn.state, TcpState::Closed);
    assert_eq!(TcpConnection::closed().state, TcpState::Closed);
}

#[test]
fn close_sequences_through_fin_states() {
    let mut conn = TcpConnection::connect(u32::MAX);
    assert_eq!(conn.snd_nxt, 0);
    conn.on_segment(TcpSegment { seq: u32::MAX, ack: 0, flags: TCP_SYN | TCP_ACK, wnd: 1 }).unwrap();
    assert_eq!(conn.rcv_nxt, 0);
    conn.close();
    assert_eq!(conn.state, TcpState::FinWait1);
    conn.on_segment(TcpSegment { seq: 1, ack: 1, flags: TCP_ACK, wnd: 1 }).unwrap();
    assert_eq!(conn.state, TcpState::FinWait2);

    let mut peer = TcpConnection::listen();
    peer.on_segment(TcpSegment { seq: 1, ack: 0, flags: TCP_SYN, wnd: 1 }).unwrap();
    peer.on_segment(TcpSegment { seq: 2, ack: 1, flags: TCP_ACK, wnd: 1 }).unwrap();
    peer.on_segment(TcpSegment { seq: 2, ack: 1, flags: TCP_FIN, wnd: 1 }).unwrap();
    assert_eq!(peer.state, TcpState::CloseWait);
    assert_eq!(peer.rcv_nxt, 3);
    peer.close();
    assert_eq!(peer.state, TcpState::LastAck);
    peer.on_segment(TcpSegment { seq: 3, ack: 2, flags: TCP_ACK, wnd: 1 }).unwrap();
    assert_eq!(peer.state, TcpState::Closed);
    let mut tw = TcpConnection::closed();
    tw.state = TcpState::TimeWait;
    assert_eq!(tw.on_segment(TcpSegment { seq: 0, ack: 0, flags: 0, wnd: 0 }), Ok(()));
    assert_eq!(tw.state, TcpState::TimeWait);
}

#[test]
fn cubic_slow_start_avoidance_and_loss_floor() {
    let mut c = Cubic::new();
    assert_eq!((c.cwnd, c.ssthresh, c.epoch_start), (10, u32::MAX, 0));
    c.on_ack(0);
    assert_eq!(c.cwnd, 11);
    c.on_ack(5);
    assert_eq!(c.cwnd, 16);
    c.on_loss();
    assert_eq!((c.cwnd, c.ssthresh), (8, 8));
    c.on_ack(3);
    assert_eq!(c.cwnd, 9);
    c.on_ack(0);
    assert_eq!(c.cwnd, 9);
    let mut small = Cubic { cwnd: 3, ssthresh: 100, epoch_start: 7 };
    small.on_loss();
    assert_eq!((small.cwnd, small.ssthresh, small.epoch_start), (2, 2, 0));
}

#[test]
fn retransmit_timeout_stays_within_bounds() {
    let mut timer = TcpRetransmitTimer::new(1);
    timer.arm();
    assert_eq!(timer.on_timeout(), Ok(200));
    let mut big = TcpRetransmitTimer::new(u32::MAX);
    big.arm();
    assert_eq!(big.on_timeout(), Ok(120_000));
    assert_eq!(big.on_timeout(), Ok(120_000));
    assert_eq!(big.retransmits, 2);
}

#[test]
fn stream_queues_are_fifo_and_recv_truncates() {
    let mut q = TcpStreamQueues::default();
    assert_eq!(q.pop_send(), None);
    q.queue_send(b"a");
    q.queue_send(b"bc");
    assert_eq!(q.pop_send().unwrap(), b"a");
    assert_eq!(q.pop_send().unwrap(), b"bc");
    let mut tiny = [9u8; 2];
    assert_eq!(q.recv(&mut tiny), Err(EINVAL));
    q.queue_recv(b"xyz");
    q.queue_recv(b"w");
    assert_eq!(q.recv(&mut tiny), Ok(2));
    assert_eq!(tiny, *b"xy");
    let mut out = [0u8; 3];
    assert_eq!(q.recv(&mut out), Ok(1));
    assert_eq!(out, [b'w', 0, 0]);
}
