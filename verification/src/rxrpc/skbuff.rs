//! RxRPC socket-buffer accounting: how many receive buffers are
//! outstanding, and a trace of the last buffer event.
use vstd::prelude::*;

verus! {

/// The buffer events traced.
#[derive(Clone, Copy, Debug, PartialEq, Eq, Structural)]
pub enum RxrpcSkbTrace {
    New,
    See,
    Get,
    Free,
    PutPurge,
}

/// A buffer's user count and whether it has been consumed.
#[derive(Clone, Copy, Debug, PartialEq, Eq)]
pub struct RxrpcSkBuff {
    pub users: i32,
    pub consumed: bool,
}

/// One traced event: the buffer's users, the outstanding count, the reason.
#[derive(Clone, Copy, Debug, PartialEq, Eq)]
pub struct RxrpcSkbTraceEvent {
    pub users: i32,
    pub outstanding: i32,
    pub why: RxrpcSkbTrace,
}

/// Outstanding receive buffers, number of trace events, and the last one.
#[derive(Clone, Debug, PartialEq, Eq)]
pub struct RxrpcSkbAccounting {
    pub n_rx_skbs: i32,
    pub traces: u32,
    pub last_trace: Option<RxrpcSkbTraceEvent>,
}

impl Default for RxrpcSkbAccounting {
    /// Nothing outstanding, nothing traced.
    fn default() -> (r: Self)
        ensures
            r.n_rx_skbs == 0,
            r.traces == 0,
            r.last_trace is None,
    {
        RxrpcSkbAccounting { n_rx_skbs: 0, traces: 0, last_trace: None }
    }
}

/// `x + 1`, saturating at `i32::MAX`.
pub open spec fn sat_inc_i32(x: i32) -> i32 {
    if x == i32::MAX { x } else { (x + 1) as i32 }
}

fn inc_i32(x: i32) -> (r: i32)
    ensures
        r == sat_inc_i32(x),
{
    if x < i32::MAX { x + 1 } else { x }
}

/// The accounting after tracing an event for a buffer with `users` users.
pub open spec fn traced(a: RxrpcSkbAccounting, users: i32, why: RxrpcSkbTrace) -> RxrpcSkbAccounting {
    RxrpcSkbAccounting {
        n_rx_skbs: a.n_rx_skbs,
        traces: a.traces.saturating_add(1),
        last_trace: Some(RxrpcSkbTraceEvent { users, outstanding: a.n_rx_skbs, why }),
    }
}

impl RxrpcSkbAccounting {
    fn trace(&mut self, skb: &RxrpcSkBuff, why: RxrpcSkbTrace)
        ensures
            *final(self) == traced(*old(self), skb.users, why),
    {
        self.traces = self.traces.saturating_add(1);
        self.last_trace = Some(RxrpcSkbTraceEvent { users: skb.users, outstanding: self.n_rx_skbs, why });
    }
}

/// A new buffer: one more outstanding (saturating), traced.
pub fn rxrpc_new_skb(acct: &mut RxrpcSkbAccounting, skb: &RxrpcSkBuff, why: RxrpcSkbTrace)
    ensures
        *final(acct) == traced(RxrpcSkbAccounting { n_rx_skbs: sat_inc_i32(old(acct).n_rx_skbs), ..*old(acct) }, skb.users, why),
{
    acct.n_rx_skbs = inc_i32(acct.n_rx_skbs);
    acct.trace(skb, why);
}

/// Seeing a buffer only traces it (nothing for no buffer).
pub fn rxrpc_see_skb(acct: &mut RxrpcSkbAccounting, skb: Option<&RxrpcSkBuff>, why: RxrpcSkbTrace)
    ensures
        *final(acct) == match skb {
            Some(s) => traced(*old(acct), s.users, why),
            None => *old(acct),
        },
{
    match skb {
        Some(s) => acct.trace(s, why),
        None => {},
    }
}

/// Taking a reference: one more outstanding and one more user (both
/// saturating), traced before the user count rises.
pub fn rxrpc_get_skb(acct: &mut RxrpcSkbAccounting, skb: &mut RxrpcSkBuff, why: RxrpcSkbTrace)
    ensures
        *final(acct) == traced(RxrpcSkbAccounting { n_rx_skbs: sat_inc_i32(old(acct).n_rx_skbs), ..*old(acct) }, old(skb).users, why),
        *final(skb) == (RxrpcSkBuff { users: sat_inc_i32(old(skb).users), ..*old(skb) }),
{
    acct.n_rx_skbs = inc_i32(acct.n_rx_skbs);
    acct.trace(skb, why);
    skb.users = inc_i32(skb.users);
}

/// Freeing a buffer: one fewer outstanding, traced, and the buffer is
/// consumed (nothing for no buffer).
pub fn rxrpc_free_skb(acct: &mut RxrpcSkbAccounting, skb: &mut Option<RxrpcSkBuff>, why: RxrpcSkbTrace)
    requires
        (*old(skb)) is Some ==> old(acct).n_rx_skbs > i32::MIN,
    ensures
        match *old(skb) {
            Some(s) => {
                &&& *final(acct) == traced(RxrpcSkbAccounting { n_rx_skbs: (old(acct).n_rx_skbs - 1) as i32, ..*old(acct) }, s.users, why)
                &&& *final(skb) == Some(RxrpcSkBuff { consumed: true, ..s })
            },
            None => *final(acct) == *old(acct) && *final(skb) == *old(skb),
        },
{
    match skb {
        Some(s) => {
            acct.n_rx_skbs = acct.n_rx_skbs - 1;
            acct.trace(s, why);
            s.consumed = true;
        },
        None => {},
    }
}

/// The number of occupied slots in `q`.
pub open spec fn count_some(q: Seq<Option<RxrpcSkBuff>>) -> nat
    decreases q.len(),
{
    if q.len() == 0 {
        0
    } else {
        count_some(q.drop_last()) + if q.last() is Some { 1nat } else { 0nat }
    }
}

/// The accounting after purging the slots of `q` in order: each buffer
/// found is one fewer outstanding and traced as purged.
pub open spec fn purged(a: RxrpcSkbAccounting, q: Seq<Option<RxrpcSkBuff>>) -> RxrpcSkbAccounting
    decreases q.len(),
{
    if q.len() == 0 {
        a
    } else {
        let before = purged(a, q.drop_last());
        match q.last() {
            Some(s) => traced(RxrpcSkbAccounting { n_rx_skbs: (before.n_rx_skbs - 1) as i32, ..before }, s.users, RxrpcSkbTrace::PutPurge),
            None => before,
        }
    }
}

proof fn lemma_purged_count(a: RxrpcSkbAccounting, q: Seq<Option<RxrpcSkBuff>>)
    requires
        a.n_rx_skbs - count_some(q) >= i32::MIN,
    ensures
        purged(a, q).n_rx_skbs == a.n_rx_skbs - count_some(q),
    decreases q.len(),
{
    if q.len() > 0 {
        lemma_purged_count(a, q.drop_last());
    }
}

proof fn lemma_count_prefix(q: Seq<Option<RxrpcSkBuff>>, i: int)
    requires
        0 <= i <= q.len(),
    ensures
        count_some(q.subrange(0, i)) <= count_some(q),
    decreases q.len() - i,
{
    if i < q.len() {
        lemma_count_prefix(q, i + 1);
        assert(q.subrange(0, i + 1).drop_last() =~= q.subrange(0, i));
    } else {
        assert(q.subrange(0, i) =~= q);
    }
}

/// Purges a queue: every slot is emptied, and each buffer it held is one
/// fewer outstanding and traced as purged.
pub fn rxrpc_purge_queue(acct: &mut RxrpcSkbAccounting, queue: &mut [Option<RxrpcSkBuff>])
    requires
        old(acct).n_rx_skbs - count_some(old(queue)@) >= i32::MIN,
    ensures
        *final(acct) == purged(*old(acct), old(queue)@),
        final(acct).n_rx_skbs == old(acct).n_rx_skbs - count_some(old(queue)@),
        final(queue)@.len() == old(queue)@.len(),
        forall|i: int| 0 <= i < final(queue)@.len() ==> final(queue)@[i] is None,
{
    let ghost q0 = queue@;
    let mut i: usize = 0;
    while i < queue.len()
        invariant
            i <= queue@.len(),
            queue@.len() == q0.len(),
            old(acct).n_rx_skbs - count_some(q0) >= i32::MIN,
            *acct == purged(*old(acct), q0.subrange(0, i as int)),
            forall|j: int| 0 <= j < i ==> queue@[j] is None,
            forall|j: int| i <= j < queue@.len() ==> queue@[j] == q0[j],
        decreases queue@.len() - i,
    {
        let slot = queue[i];
        proof {
            assert(q0.subrange(0, i + 1).drop_last() =~= q0.subrange(0, i as int));
            lemma_count_prefix(q0, i + 1);
            lemma_purged_count(*old(acct), q0.subrange(0, i + 1));
            lemma_purged_count(*old(acct), q0.subrange(0, i as int));
        }
        match slot {
            Some(skb) => {
                queue[i] = None;
                acct.n_rx_skbs = acct.n_rx_skbs - 1;
                acct.trace(&skb, RxrpcSkbTrace::PutPurge);
            },
            None => {},
        }
        i += 1;
    }
    proof {
        assert(q0.subrange(0, i as int) =~= q0);
        lemma_purged_count(*old(acct), q0);
    }
}

} // verus!
