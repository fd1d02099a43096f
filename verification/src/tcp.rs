//! TCP connection state machine, CUBIC congestion window core, stream
//! queues and the retransmission timer.
use vstd::prelude::*;

use std::collections::VecDeque;

use crate::errno::EINVAL;
use crate::ip::push_bytes;

verus! {

pub const TCP_FIN: u8 = 0x01;
pub const TCP_SYN: u8 = 0x02;
pub const TCP_RST: u8 = 0x04;
pub const TCP_PSH: u8 = 0x08;
pub const TCP_ACK: u8 = 0x10;
pub const TCP_RTO_MIN_MS: u32 = 200;
pub const TCP_RTO_MAX_MS: u32 = 120_000;

/// The connection states of RFC 793.
#[derive(Clone, Copy, Debug, PartialEq, Eq, Structural)]
pub enum TcpState {
    Closed,
    Listen,
    SynSent,
    SynReceived,
    Established,
    FinWait1,
    FinWait2,
    CloseWait,
    LastAck,
    TimeWait,
}

/// The header fields of an incoming segment the state machine reads.
#[derive(Clone, Copy, Debug, PartialEq, Eq)]
pub struct TcpSegment {
    pub seq: u32,
    pub ack: u32,
    pub flags: u8,
    pub wnd: u16,
}

/// Congestion window, slow-start threshold and epoch start.
#[derive(Clone, Copy, Debug, PartialEq, Eq)]
pub struct Cubic {
    pub cwnd: u32,
    pub ssthresh: u32,
    pub epoch_start: u64,
}

/// `a + b`, saturating at `u32::MAX`.
pub open spec fn sat_add_u32(a: u32, b: u32) -> u32 {
    if a + b > u32::MAX {
        u32::MAX
    } else {
        (a + b) as u32
    }
}

/// The window after `acked` segments are acknowledged: in slow start it
/// grows by the count (at least one), in congestion avoidance by one when
/// anything was acknowledged.
pub open spec fn cubic_on_ack(c: Cubic, acked: u32) -> Cubic {
    if c.cwnd < c.ssthresh {
        Cubic { cwnd: sat_add_u32(c.cwnd, if acked > 1 { acked } else { 1 }), ..c }
    } else if acked > 0 {
        Cubic { cwnd: sat_add_u32(c.cwnd, 1), ..c }
    } else {
        c
    }
}

impl Cubic {
    /// The initial window of ten segments, no threshold yet.
    pub fn new() -> (r: Self)
        ensures
            r.cwnd == 10,
            r.ssthresh == u32::MAX,
            r.epoch_start == 0,
    {
        Cubic { cwnd: 10, ssthresh: u32::MAX, epoch_start: 0 }
    }

    /// Opens the window for `acked` acknowledged segments; see `cubic_on_ack`.
    pub fn on_ack(&mut self, acked: u32)
        ensures
            *final(self) == cubic_on_ack(*old(self), acked),
            final(self).cwnd >= old(self).cwnd,
    {
        if self.cwnd < self.ssthresh {
            let inc = if acked > 1 { acked } else { 1 };
            self.cwnd = self.cwnd.saturating_add(inc);
        } else if acked > 0 {
            self.cwnd = self.cwnd.saturating_add(1);
        }
    }

    /// Halves the window on loss (never below two segments) and restarts
    /// the epoch; the threshold becomes the new window.
    pub fn on_loss(&mut self)
        ensures
            final(self).ssthresh == (if old(self).cwnd / 2 > 2 { old(self).cwnd / 2 } else { 2 }),
            final(self).cwnd == final(self).ssthresh,
            final(self).cwnd >= 2,
            final(self).epoch_start == 0,
    {
        let half = self.cwnd / 2;
        self.ssthresh = if half > 2 { half } else { 2 };
        self.cwnd = self.ssthresh;
        self.epoch_start = 0;
    }
}

/// A connection: its state, next sequence numbers and congestion control.
#[derive(Clone, Debug, PartialEq, Eq)]
pub struct TcpConnection {
    pub state: TcpState,
    pub snd_nxt: u32,
    pub rcv_nxt: u32,
    pub congestion: Cubic,
}

/// One incoming segment's effect: the new connection and the result.
/// Segments the state does not expect are refused with EINVAL and change
/// nothing; RST closes the connection from any state not expecting the
/// segment otherwise; in TIME-WAIT other segments are discarded.
pub open spec fn tcp_segment_step(c: TcpConnection, seg: TcpSegment) -> (TcpConnection, Result<(), i32>) {
    let syn = seg.flags & TCP_SYN != 0;
    let ack = seg.flags & TCP_ACK != 0;
    let fin = seg.flags & TCP_FIN != 0;
    let rst = seg.flags & TCP_RST != 0;
    if c.state == TcpState::Listen && syn {
        (TcpConnection { state: TcpState::SynReceived, rcv_nxt: seg.seq.wrapping_add(1), snd_nxt: 1, ..c }, Ok(()))
    } else if c.state == TcpState::SynSent && syn && ack {
        (TcpConnection { state: TcpState::Established, rcv_nxt: seg.seq.wrapping_add(1), ..c }, Ok(()))
    } else if c.state == TcpState::SynReceived && ack {
        (TcpConnection { state: TcpState::Established, ..c }, Ok(()))
    } else if c.state == TcpState::Established && fin {
        (TcpConnection { state: TcpState::CloseWait, rcv_nxt: seg.seq.wrapping_add(1), ..c }, Ok(()))
    } else if c.state == TcpState::Established && ack {
        (TcpConnection { congestion: cubic_on_ack(c.congestion, 1), ..c }, Ok(()))
    } else if c.state == TcpState::FinWait1 && ack {
        (TcpConnection { state: TcpState::FinWait2, ..c }, Ok(()))
    } else if c.state == TcpState::LastAck && ack {
        (TcpConnection { state: TcpState::Closed, ..c }, Ok(()))
    } else if rst {
        (TcpConnection { state: TcpState::Closed, ..c }, Ok(()))
    } else if c.state == TcpState::TimeWait {
        (c, Ok(()))
    } else {
        (c, Err(EINVAL))
    }
}

/// The state after a local close: ESTABLISHED goes to FIN-WAIT-1,
/// CLOSE-WAIT to LAST-ACK, others stay.
pub open spec fn tcp_close_state(s: TcpState) -> TcpState {
    match s {
        TcpState::Established => TcpState::FinWait1,
        TcpState::CloseWait => TcpState::LastAck,
        other => other,
    }
}

impl TcpConnection {
    /// A closed connection.
    pub fn closed() -> (r: Self)
        ensures
            r.state == TcpState::Closed,
            r.snd_nxt == 0,
            r.rcv_nxt == 0,
            r.congestion == (Cubic { cwnd: 10, ssthresh: u32::MAX, epoch_start: 0 }),
    {
        TcpConnection { state: TcpState::Closed, snd_nxt: 0, rcv_nxt: 0, congestion: Cubic::new() }
    }

    /// A passive open: a fresh connection listening.
    pub fn listen() -> (r: Self)
        ensures
            r.state == TcpState::Listen,
            r.snd_nxt == 0,
            r.rcv_nxt == 0,
            r.congestion == (Cubic { cwnd: 10, ssthresh: u32::MAX, epoch_start: 0 }),
    {
        let mut conn = Self::closed();
        conn.state = TcpState::Listen;
        conn
    }

    /// An active open with initial sequence number `iss`: SYN sent.
    pub fn connect(iss: u32) -> (r: Self)
        ensures
            r.state == TcpState::SynSent,
            r.snd_nxt == iss.wrapping_add(1),
            r.rcv_nxt == 0,
            r.congestion == (Cubic { cwnd: 10, ssthresh: u32::MAX, epoch_start: 0 }),
    {
        TcpConnection { state: TcpState::SynSent, snd_nxt: iss.wrapping_add(1), rcv_nxt: 0, congestion: Cubic::new() }
    }

    /// Processes one incoming segment; see `tcp_segment_step`.
    pub fn on_segment(&mut self, seg: TcpSegment) -> (r: Result<(), i32>)
        ensures
            (*final(self), r) == tcp_segment_step(*old(self), seg),
    {
        let syn = seg.flags & TCP_SYN != 0;
        let ack = seg.flags & TCP_ACK != 0;
        let fin = seg.flags & TCP_FIN != 0;
        let rst = seg.flags & TCP_RST != 0;
        match self.state {
            TcpState::Listen if syn => {
                self.rcv_nxt = seg.seq.wrapping_add(1);
                self.snd_nxt = 1;
                self.state = TcpState::SynReceived;
                Ok(())
            },
            TcpState::SynSent if syn && ack => {
                self.rcv_nxt = seg.seq.wrapping_add(1);
                self.state = TcpState::Established;
                Ok(())
            },
            TcpState::SynReceived if ack => {
                self.state = TcpState::Established;
                Ok(())
            },
            TcpState::Established if fin => {
                self.rcv_nxt = seg.seq.wrapping_add(1);
                self.state = TcpState::CloseWait;
                Ok(())
            },
            TcpState::Established if ack => {
                self.congestion.on_ack(1);
                Ok(())
            },
            TcpState::FinWait1 if ack => {
                self.state = TcpState::FinWait2;
                Ok(())
            },
            TcpState::LastAck if ack => {
                self.state = TcpState::Closed;
                Ok(())
            },
            _ if rst => {
                self.state = TcpState::Closed;
                Ok(())
            },
            TcpState::TimeWait => Ok(()),
            _ => Err(EINVAL),
        }
    }

    /// A local close; see `tcp_close_state`.
    pub fn close(&mut self)
        ensures
            final(self).state == tcp_close_state(old(self).state),
            final(self).snd_nxt == old(self).snd_nxt,
            final(self).rcv_nxt == old(self).rcv_nxt,
            final(self).congestion == old(self).congestion,
    {
        self.state = match self.state {
            TcpState::Established => TcpState::FinWait1,
            TcpState::CloseWait => TcpState::LastAck,
            other => other,
        };
    }
}

/// A segment carrying only RST closes the connection, whatever its state.
pub proof fn lemma_rst_closes(c: TcpConnection, seg: TcpSegment)
    requires
        seg.flags == TCP_RST,
    ensures
        tcp_segment_step(c, seg).0.state == TcpState::Closed,
        tcp_segment_step(c, seg).1 == Ok::<(), i32>(()),
{
    assert(TCP_RST & TCP_SYN == 0u8) by (bit_vector);
    assert(TCP_RST & TCP_ACK == 0u8) by (bit_vector);
    assert(TCP_RST & TCP_FIN == 0u8) by (bit_vector);
    assert(TCP_RST & TCP_RST != 0u8) by (bit_vector);
}

/// A refused segment leaves the connection as it was.
pub proof fn lemma_refused_segment_changes_nothing(c: TcpConnection, seg: TcpSegment)
    requires
        tcp_segment_step(c, seg).1 is Err,
    ensures
        tcp_segment_step(c, seg).0 == c,
{
}

/// Both handshakes reach ESTABLISHED: SYN-SENT on SYN+ACK, and LISTEN on
/// SYN followed by ACK.
pub proof fn lemma_handshakes_establish(c: TcpConnection, syn: TcpSegment, ack: TcpSegment, synack: TcpSegment)
    requires
        syn.flags == TCP_SYN,
        ack.flags == TCP_ACK,
        synack.flags == TCP_SYN | TCP_ACK,
    ensures
        c.state == TcpState::SynSent ==> tcp_segment_step(c, synack).0.state == TcpState::Established,
        c.state == TcpState::Listen ==> tcp_segment_step(tcp_segment_step(c, syn).0, ack).0.state
            == TcpState::Established,
{
    assert(TCP_SYN & TCP_SYN != 0u8) by (bit_vector);
    assert(TCP_ACK & TCP_ACK != 0u8) by (bit_vector);
    assert((TCP_SYN | TCP_ACK) & TCP_SYN != 0u8) by (bit_vector);
    assert((TCP_SYN | TCP_ACK) & TCP_ACK != 0u8) by (bit_vector);
}

/// Send and receive queues of byte chunks, each first in, first out.
pub struct TcpStreamQueues {
    sendq: VecDeque<Vec<u8>>,
    recvq: VecDeque<Vec<u8>>,
}

impl TcpStreamQueues {
    /// The chunks waiting to be sent, oldest first.
    pub closed spec fn send_queue(&self) -> Seq<Seq<u8>> {
        self.sendq@.map_values(|v: Vec<u8>| v@)
    }

    /// The chunks received and not yet read, oldest first.
    pub closed spec fn recv_queue(&self) -> Seq<Seq<u8>> {
        self.recvq@.map_values(|v: Vec<u8>| v@)
    }

    /// Queues a copy of `bytes` for sending.
    pub fn queue_send(&mut self, bytes: &[u8])
        ensures
            final(self).send_queue() == old(self).send_queue().push(bytes@),
            final(self).recv_queue() == old(self).recv_queue(),
    {
        let mut v: Vec<u8> = Vec::new();
        push_bytes(&mut v, bytes);
        self.sendq.push_back(v);
        assert(self.send_queue() =~= old(self).send_queue().push(bytes@));
        assert(self.recv_queue() =~= old(self).recv_queue());
    }

    /// Takes the oldest chunk queued for sending, if any.
    pub fn pop_send(&mut self) -> (r: Option<Vec<u8>>)
        ensures
            old(self).send_queue().len() == 0 ==> r is None && final(self).send_queue() == old(self).send_queue(),
            old(self).send_queue().len() > 0 ==> (r matches Some(v) && v@ == old(self).send_queue()[0]
                && final(self).send_queue() == old(self).send_queue().drop_first()),
            final(self).recv_queue() == old(self).recv_queue(),
    {
        let r = self.sendq.pop_front();
        assert(self.send_queue() =~= if old(self).send_queue().len() == 0 {
            old(self).send_queue()
        } else {
            old(self).send_queue().drop_first()
        });
        assert(self.recv_queue() =~= old(self).recv_queue());
        r
    }

    /// Queues a copy of received `bytes` for reading.
    pub fn queue_recv(&mut self, bytes: &[u8])
        ensures
            final(self).recv_queue() == old(self).recv_queue().push(bytes@),
            final(self).send_queue() == old(self).send_queue(),
    {
        let mut v: Vec<u8> = Vec::new();
        push_bytes(&mut v, bytes);
        self.recvq.push_back(v);
        assert(self.recv_queue() =~= old(self).recv_queue().push(bytes@));
        assert(self.send_queue() =~= old(self).send_queue());
    }

    /// Reads the oldest received chunk into `out`, as much as fits (the
    /// rest of the chunk is dropped), giving the number of bytes copied;
    /// EINVAL when nothing was received.
    pub fn recv(&mut self, out: &mut [u8]) -> (r: Result<usize, i32>)
        ensures
            final(self).send_queue() == old(self).send_queue(),
            old(self).recv_queue().len() == 0 ==> r == Err::<usize, i32>(EINVAL) && final(self).recv_queue()
                == old(self).recv_queue() && final(out)@ == old(out)@,
            old(self).recv_queue().len() > 0 ==> {
                let chunk = old(self).recv_queue()[0];
                let n = if old(out)@.len() < chunk.len() { old(out)@.len() } else { chunk.len() };
                &&& r == Ok::<usize, i32>(n as usize)
                &&& final(self).recv_queue() == old(self).recv_queue().drop_first()
                &&& final(out)@ == chunk.subrange(0, n as int) + old(out)@.subrange(n as int, old(out)@.len() as int)
            },
    {
        let bytes = match self.recvq.pop_front() {
            Some(b) => b,
            None => {
                assert(self.recv_queue() =~= old(self).recv_queue());
                assert(self.send_queue() =~= old(self).send_queue());
                return Err(EINVAL);
            },
        };
        assert(self.recv_queue() =~= old(self).recv_queue().drop_first());
        assert(self.send_queue() =~= old(self).send_queue());
        let len = if out.len() < bytes.len() { out.len() } else { bytes.len() };
        let mut i: usize = 0;
        while i < len
            invariant
                i <= len,
                len <= bytes@.len(),
                len <= out@.len(),
                out@.len() == old(out)@.len(),
                forall|j: int| 0 <= j < i ==> out@[j] == bytes@[j],
                forall|j: int| i <= j < out@.len() ==> out@[j] == old(out)@[j],
            decreases len - i,
        {
            out[i] = bytes[i];
            i += 1;
        }
        assert(out@ =~= bytes@.subrange(0, len as int) + old(out)@.subrange(len as int, old(out)@.len() as int));
        Ok(len)
    }
}

impl Default for TcpStreamQueues {
    /// Both queues empty.
    fn default() -> (r: Self)
        ensures
            r.send_queue().len() == 0,
            r.recv_queue().len() == 0,
    {
        let r = TcpStreamQueues { sendq: VecDeque::new(), recvq: VecDeque::new() };
        assert(r.send_queue() =~= Seq::empty());
        assert(r.recv_queue() =~= Seq::empty());
        r
    }
}

/// A chunk queued behind others comes out after them, and one queued on an
/// empty queue comes out first.
pub proof fn lemma_stream_queue_fifo(q: Seq<Seq<u8>>, bytes: Seq<u8>)
    ensures
        q.len() == 0 ==> q.push(bytes)[0] == bytes && q.push(bytes).drop_first() == q,
        q.len() > 0 ==> q.push(bytes)[0] == q[0] && q.push(bytes).drop_first() == q.drop_first().push(bytes),
{
    if q.len() > 0 {
        assert(q.push(bytes).drop_first() =~= q.drop_first().push(bytes));
    } else {
        assert(q.push(bytes).drop_first() =~= q);
    }
}

/// Retransmission timeout, retransmission count and whether it is armed.
#[derive(Clone, Copy, Debug, PartialEq, Eq)]
pub struct TcpRetransmitTimer {
    pub rto_ms: u32,
    pub retransmits: u32,
    pub armed: bool,
}

/// The next timeout: doubled (saturating), then kept within 200 ms..120 s.
pub open spec fn tcp_backoff(rto_ms: u32) -> u32 {
    let doubled: int = if rto_ms * 2 > u32::MAX { u32::MAX as int } else { rto_ms * 2 };
    if doubled < TCP_RTO_MIN_MS {
        TCP_RTO_MIN_MS
    } else if doubled > TCP_RTO_MAX_MS {
        TCP_RTO_MAX_MS
    } else {
        doubled as u32
    }
}

impl TcpRetransmitTimer {
    /// A disarmed timer with timeout `rto_ms` and no retransmissions.
    pub fn new(rto_ms: u32) -> (r: Self)
        ensures
            r.rto_ms == rto_ms,
            r.retransmits == 0,
            !r.armed,
    {
        TcpRetransmitTimer { rto_ms, retransmits: 0, armed: false }
    }

    /// Arms the timer.
    pub fn arm(&mut self)
        ensures
            *final(self) == (TcpRetransmitTimer { armed: true, ..*old(self) }),
    {
        self.armed = true;
    }

    /// Disarms the timer and forgets the retransmissions.
    pub fn acked(&mut self)
        ensures
            *final(self) == (TcpRetransmitTimer { armed: false, retransmits: 0, ..*old(self) }),
    {
        self.armed = false;
        self.retransmits = 0;
    }

    /// A timeout: counts a retransmission and backs off (see
    /// `tcp_backoff`), giving the new timeout; EINVAL when not armed.
    pub fn on_timeout(&mut self) -> (r: Result<u32, i32>)
        ensures
            !old(self).armed ==> r == Err::<u32, i32>(EINVAL) && *final(self) == *old(self),
            old(self).armed ==> {
                &&& final(self).rto_ms == tcp_backoff(old(self).rto_ms)
                &&& final(self).retransmits == sat_add_u32(old(self).retransmits, 1)
                &&& final(self).armed
                &&& r == Ok::<u32, i32>(final(self).rto_ms)
                &&& TCP_RTO_MIN_MS <= final(self).rto_ms <= TCP_RTO_MAX_MS
            },
    {
        if !self.armed {
            return Err(EINVAL);
        }
        self.retransmits = self.retransmits.saturating_add(1);
        let doubled = if self.rto_ms > u32::MAX / 2 { u32::MAX } else { self.rto_ms * 2 };
        self.rto_ms = if doubled < TCP_RTO_MIN_MS {
            TCP_RTO_MIN_MS
        } else if doubled > TCP_RTO_MAX_MS {
            TCP_RTO_MAX_MS
        } else {
            doubled
        };
        Ok(self.rto_ms)
    }
}

/// An established connection that receives a FIN, whatever other flags
/// the segment carries (a FIN+ACK from a closing peer included), moves to
/// CLOSE-WAIT with the next expected sequence number one past the FIN,
/// keeps everything else, and accepts the segment.
pub proof fn lemma_established_fin_enters_close_wait(c: TcpConnection, seg: TcpSegment)
    requires
        c.state == TcpState::Established,
        seg.flags & TCP_FIN != 0,
    ensures
        tcp_segment_step(c, seg).1 == Ok::<(), i32>(()),
        tcp_segment_step(c, seg).0.state == TcpState::CloseWait,
        tcp_segment_step(c, seg).0.rcv_nxt == seg.seq.wrapping_add(1),
        tcp_segment_step(c, seg).0.snd_nxt == c.snd_nxt,
        tcp_segment_step(c, seg).0.congestion == c.congestion,
{
}

/// The closing half of the state machine on an acknowledgement: FIN-WAIT-1
/// moves to FIN-WAIT-2 and LAST-ACK to CLOSED; an acknowledgement without
/// FIN on an established connection keeps its state and sequence numbers
/// and only grows the congestion window; every one is accepted.
pub proof fn lemma_ack_transitions(c: TcpConnection, seg: TcpSegment)
    requires
        seg.flags & TCP_ACK != 0,
        seg.flags & TCP_SYN == 0,
    ensures
        c.state == TcpState::FinWait1 ==> tcp_segment_step(c, seg) == (TcpConnection { state: TcpState::FinWait2, ..c }, Ok::<(), i32>(())),
        c.state == TcpState::LastAck ==> tcp_segment_step(c, seg) == (TcpConnection { state: TcpState::Closed, ..c }, Ok::<(), i32>(())),
        c.state == TcpState::Established && seg.flags & TCP_FIN == 0 ==> {
            &&& tcp_segment_step(c, seg).1 == Ok::<(), i32>(())
            &&& tcp_segment_step(c, seg).0.state == TcpState::Established
            &&& tcp_segment_step(c, seg).0.rcv_nxt == c.rcv_nxt
            &&& tcp_segment_step(c, seg).0.snd_nxt == c.snd_nxt
            &&& tcp_segment_step(c, seg).0.congestion.cwnd >= c.congestion.cwnd
        },
{
}

/// A segment in TIME-WAIT without RST is silently dropped: accepted, the
/// connection unchanged.
pub proof fn lemma_time_wait_drops_segments(c: TcpConnection, seg: TcpSegment)
    requires
        c.state == TcpState::TimeWait,
        seg.flags & TCP_RST == 0,
    ensures
        tcp_segment_step(c, seg) == (c, Ok::<(), i32>(())),
{
}

} // verus!
