//! RDS InfiniBand statistics: per-CPU counters summed for the info query.
use vstd::prelude::*;

verus! {

pub const RDS_IB_STAT_COUNT: usize = 39;

/// The counter names, in counter order.
pub fn rds_ib_stat_names() -> (r: [&'static str; 39])
    ensures
        r[0] == "ib_connect_raced",
        r[18] == "ib_ack_sent",
        r[38] == "ib_atomic_fadd",
{
    [
        "ib_connect_raced",
        "ib_listen_closed_stale",
        "ib_evt_handler_call",
        "ib_tasklet_call",
        "ib_tx_cq_event",
        "ib_tx_ring_full",
        "ib_tx_throttle",
        "ib_tx_sg_mapping_failure",
        "ib_tx_stalled",
        "ib_tx_credit_updates",
        "ib_rx_cq_event",
        "ib_rx_ring_empty",
        "ib_rx_refill_from_cq",
        "ib_rx_refill_from_thread",
        "ib_rx_alloc_limit",
        "ib_rx_total_frags",
        "ib_rx_total_incs",
        "ib_rx_credit_updates",
        "ib_ack_sent",
        "ib_ack_send_failure",
        "ib_ack_send_delayed",
        "ib_ack_send_piggybacked",
        "ib_ack_received",
        "ib_rdma_mr_8k_alloc",
        "ib_rdma_mr_8k_free",
        "ib_rdma_mr_8k_used",
        "ib_rdma_mr_8k_pool_flush",
        "ib_rdma_mr_8k_pool_wait",
        "ib_rdma_mr_8k_pool_depleted",
        "ib_rdma_mr_1m_alloc",
        "ib_rdma_mr_1m_free",
        "ib_rdma_mr_1m_used",
        "ib_rdma_mr_1m_pool_flush",
        "ib_rdma_mr_1m_pool_wait",
        "ib_rdma_mr_1m_pool_depleted",
        "ib_rdma_mr_8k_reused",
        "ib_rdma_mr_1m_reused",
        "ib_atomic_cswp",
        "ib_atomic_fadd",
    ]
}

/// Counter `k` summed over the first `n` CPUs.
pub open spec fn ib_col_sum(per_cpu: Seq<[u64; 39]>, k: int, n: int) -> int
    decreases n,
{
    if n <= 0 {
        0
    } else {
        ib_col_sum(per_cpu, k, n - 1) + per_cpu[n - 1]@[k]
    }
}

proof fn lemma_col_sum_mono(per_cpu: Seq<[u64; 39]>, k: int, i: int, n: int)
    requires
        0 <= i <= n <= per_cpu.len(),
    ensures
        ib_col_sum(per_cpu, k, i) <= ib_col_sum(per_cpu, k, n),
    decreases n - i,
{
    if i < n {
        lemma_col_sum_mono(per_cpu, k, i, n - 1);
        assert(per_cpu[n - 1]@[k] >= 0);
    }
}

/// The info query: the number of counters, and their sums over all CPUs
/// when the caller has room for all of them.
pub fn rds_ib_stats_info_copy(per_cpu: &[[u64; 39]], avail: usize) -> (r: (usize, Option<[u64; 39]>))
    requires
        avail >= RDS_IB_STAT_COUNT ==> forall|k: int| 0 <= k < 39 ==> ib_col_sum(per_cpu@, k, per_cpu@.len() as int) <= u64::MAX,
    ensures
        r.0 == RDS_IB_STAT_COUNT,
        avail < RDS_IB_STAT_COUNT ==> r.1 is None,
        avail >= RDS_IB_STAT_COUNT ==> (r.1 matches Some(s) && forall|k: int| 0 <= k < 39 ==> s@[k] == ib_col_sum(
            per_cpu@,
            k,
            per_cpu@.len() as int,
        )),
{
    if avail < RDS_IB_STAT_COUNT {
        return (RDS_IB_STAT_COUNT, None);
    }
    let mut stats = [0u64; 39];
    let mut c: usize = 0;
    while c < per_cpu.len()
        invariant
            c <= per_cpu@.len(),
            forall|k: int| 0 <= k < 39 ==> ib_col_sum(per_cpu@, k, per_cpu@.len() as int) <= u64::MAX,
            forall|k: int| 0 <= k < 39 ==> stats@[k] == ib_col_sum(per_cpu@, k, c as int),
        decreases per_cpu@.len() - c,
    {
        let cpu = per_cpu[c];
        let mut k: usize = 0;
        while k < 39
            invariant
                c < per_cpu@.len(),
                k <= 39,
                cpu == per_cpu@[c as int],
                forall|j: int| 0 <= j < 39 ==> ib_col_sum(per_cpu@, j, per_cpu@.len() as int) <= u64::MAX,
                forall|j: int| 0 <= j < k ==> stats@[j] == ib_col_sum(per_cpu@, j, c + 1),
                forall|j: int| k <= j < 39 ==> stats@[j] == ib_col_sum(per_cpu@, j, c as int),
            decreases 39 - k,
        {
            proof {
                lemma_col_sum_mono(per_cpu@, k as int, c + 1, per_cpu@.len() as int);
            }
            stats[k] = stats[k] + cpu[k];
            k += 1;
        }
        c += 1;
    }
    (RDS_IB_STAT_COUNT, Some(stats))
}

} // verus!
