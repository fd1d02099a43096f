//! RDS TCP statistics: per-CPU counters summed (saturating) for the info
//! query.
use vstd::prelude::*;

verus! {

pub const RDS_TCP_STAT_COUNT: usize = 5;

/// The TCP transport's counters.
#[derive(Clone, Copy, Debug, Default, PartialEq, Eq)]
pub struct RdsTcpStatistics {
    pub tcp_data_ready_calls: u64,
    pub tcp_write_space_calls: u64,
    pub tcp_sndbuf_full: u64,
    pub tcp_connect_raced: u64,
    pub tcp_listen_closed_stale: u64,
}

/// The counter names, in counter order.
pub fn rds_tcp_stat_names() -> (r: [&'static str; 5])
    ensures
        r[0] == "tcp_data_ready_calls",
        r[1] == "tcp_write_space_calls",
        r[2] == "tcp_sndbuf_full",
        r[3] == "tcp_connect_raced",
        r[4] == "tcp_listen_closed_stale",
{
    ["tcp_data_ready_calls", "tcp_write_space_calls", "tcp_sndbuf_full", "tcp_connect_raced", "tcp_listen_closed_stale"]
}

/// `a` with each counter of `b` added, saturating.
pub open spec fn stats_add(a: RdsTcpStatistics, b: RdsTcpStatistics) -> RdsTcpStatistics {
    RdsTcpStatistics {
        tcp_data_ready_calls: a.tcp_data_ready_calls.saturating_add(b.tcp_data_ready_calls),
        tcp_write_space_calls: a.tcp_write_space_calls.saturating_add(b.tcp_write_space_calls),
        tcp_sndbuf_full: a.tcp_sndbuf_full.saturating_add(b.tcp_sndbuf_full),
        tcp_connect_raced: a.tcp_connect_raced.saturating_add(b.tcp_connect_raced),
        tcp_listen_closed_stale: a.tcp_listen_closed_stale.saturating_add(b.tcp_listen_closed_stale),
    }
}

/// The counters of the first `n` CPUs added up in order.
pub open spec fn stats_sum(cpus: Seq<RdsTcpStatistics>, n: int) -> RdsTcpStatistics
    decreases n,
{
    if n <= 0 {
        RdsTcpStatistics {
            tcp_data_ready_calls: 0,
            tcp_write_space_calls: 0,
            tcp_sndbuf_full: 0,
            tcp_connect_raced: 0,
            tcp_listen_closed_stale: 0,
        }
    } else {
        stats_add(stats_sum(cpus, n - 1), cpus[n - 1])
    }
}

/// The info query: the number of counters, and the counters summed over
/// all CPUs when the caller has room for all of them.
pub fn rds_tcp_stats_info_copy(per_cpu: &[RdsTcpStatistics], avail: usize) -> (r: (usize, Option<RdsTcpStatistics>))
    ensures
        r.0 == RDS_TCP_STAT_COUNT,
        avail < RDS_TCP_STAT_COUNT ==> r.1 is None,
        avail >= RDS_TCP_STAT_COUNT ==> r.1 == Some(stats_sum(per_cpu@, per_cpu@.len() as int)),
{
    if avail < RDS_TCP_STAT_COUNT {
        return (RDS_TCP_STAT_COUNT, None);
    }
    let mut stats = RdsTcpStatistics {
        tcp_data_ready_calls: 0,
        tcp_write_space_calls: 0,
        tcp_sndbuf_full: 0,
        tcp_connect_raced: 0,
        tcp_listen_closed_stale: 0,
    };
    let mut i: usize = 0;
    while i < per_cpu.len()
        invariant
            i <= per_cpu@.len(),
            stats == stats_sum(per_cpu@, i as int),
        decreases per_cpu@.len() - i,
    {
        let cpu = per_cpu[i];
        stats.tcp_data_ready_calls = stats.tcp_data_ready_calls.saturating_add(cpu.tcp_data_ready_calls);
        stats.tcp_write_space_calls = stats.tcp_write_space_calls.saturating_add(cpu.tcp_write_space_calls);
        stats.tcp_sndbuf_full = stats.tcp_sndbuf_full.saturating_add(cpu.tcp_sndbuf_full);
        stats.tcp_connect_raced = stats.tcp_connect_raced.saturating_add(cpu.tcp_connect_raced);
        stats.tcp_listen_closed_stale = stats.tcp_listen_closed_stale.saturating_add(cpu.tcp_listen_closed_stale);
        i += 1;
    }
    (RDS_TCP_STAT_COUNT, Some(stats))
}

} // verus!
