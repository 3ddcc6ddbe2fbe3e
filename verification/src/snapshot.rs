//! Snapshot assembly: folds one raw per-subsystem reading into a single
//! immutable, percentage-normalized report. Missing identity fields
//! degrade to an explicit "Unknown" sentinel; no input makes the
//! assembly fail.

use vstd::prelude::*;
use crate::disks::{
    disk_block_spec, sat64, summarize_disks, views_of, DiskBlock, DiskEntry,
};
use crate::network::{
    net_views_of, network_totals, sum_received, sum_transmitted, InterfaceReading,
};
use crate::percent::{usage_centi, usage_centi_pct};

verus! {

/// One fresh reading of every subsystem, as the OS metrics capability
/// hands it over: raw counters, optional identity strings, and the raw
/// per-disk and per-interface lists. Usage ratios are in hundredths of a
/// percent.
pub struct RawReading {
    pub os: String,
    pub arch: String,
    pub os_name: Option<String>,
    pub os_version: Option<String>,
    pub kernel_version: Option<String>,
    pub host_name: Option<String>,
    pub cpu_brand: Option<String>,
    pub cpu_count: u64,
    pub cpu_usage_centi: u64,
    pub total_memory: u64,
    pub used_memory: u64,
    pub available_memory: u64,
    pub total_swap: u64,
    pub used_swap: u64,
    pub disks: Vec<DiskEntry>,
    pub networks: Vec<InterfaceReading>,
    pub uptime: u64,
    pub process_count: u64,
}

/// The CPU block of a snapshot.
pub struct CpuReport {
    pub name: String,
    pub count: u64,
    pub usage_centi: u64,
}

/// The memory block of a snapshot.
pub struct MemoryReport {
    pub total: u64,
    pub used: u64,
    pub available: u64,
    pub usage_centi: u64,
}

/// The swap block of a snapshot.
pub struct SwapReport {
    pub total: u64,
    pub used: u64,
    pub usage_centi: u64,
}

/// The network block of a snapshot: saturating totals over every
/// interface, beside the verbatim per-interface list.
pub struct NetworkBlock {
    pub total_received: u64,
    pub total_transmitted: u64,
    pub interfaces: Vec<InterfaceReading>,
}

/// One immutable point-in-time report of host health.
pub struct Snapshot {
    pub os: String,
    pub arch: String,
    pub os_name: String,
    pub os_version: String,
    pub kernel_version: String,
    pub host_name: String,
    pub cpu: CpuReport,
    pub memory: MemoryReport,
    pub swap: SwapReport,
    pub disk: DiskBlock,
    pub network: NetworkBlock,
    pub uptime: u64,
    pub process_count: u64,
}

/// The characters of an optional identity string, with the "Unknown"
/// sentinel substituted when the OS did not expose the field.
pub open spec fn or_unknown(o: Option<String>) -> Seq<char> {
    match o {
        Some(v) => v@,
        None => "Unknown"@,
    }
}

/// Substitutes the "Unknown" sentinel for a missing identity string.
pub fn unwrap_or_unknown(o: Option<String>) -> (r: String)
    ensures
        r@ == or_unknown(o),
{
    match o {
        Some(v) => v,
        None => "Unknown".to_owned(),
    }
}

/// A usage ratio clamped to 100%, in hundredths of a percent.
pub open spec fn clamp_centi_pct(v: u64) -> u64 {
    if v > 10000 {
        10000
    } else {
        v
    }
}

/// Every usage ratio of the snapshot lies within [0%, 100%].
pub open spec fn snapshot_wf(s: Snapshot) -> bool {
    &&& s.cpu.usage_centi <= 10000
    &&& s.memory.usage_centi <= 10000
    &&& s.swap.usage_centi <= 10000
    &&& s.disk.usage_centi <= 10000
    &&& forall|i: int|
        0 <= i < s.disk.disks@.len() ==> (#[trigger] s.disk.disks@[i]).usage_centi <= 10000
}

/// Folds one raw reading into a snapshot: identity strings fall back to
/// the "Unknown" sentinel, usage ratios are derived zero-safely, the disk
/// pipeline filters and deduplicates the raw volume list, and network
/// counters are totalled over every interface.
pub fn build_snapshot(raw: RawReading) -> (s: Snapshot)
    ensures
        s.os@ == raw.os@,
        s.arch@ == raw.arch@,
        s.os_name@ == or_unknown(raw.os_name),
        s.os_version@ == or_unknown(raw.os_version),
        s.kernel_version@ == or_unknown(raw.kernel_version),
        s.host_name@ == or_unknown(raw.host_name),
        s.cpu.name@ == or_unknown(raw.cpu_brand),
        s.cpu.count == raw.cpu_count,
        s.cpu.usage_centi == clamp_centi_pct(raw.cpu_usage_centi),
        s.memory.total == raw.total_memory,
        s.memory.used == raw.used_memory,
        s.memory.available == raw.available_memory,
        s.memory.usage_centi == usage_centi_pct(raw.used_memory, raw.total_memory),
        s.swap.total == raw.total_swap,
        s.swap.used == raw.used_swap,
        s.swap.usage_centi == usage_centi_pct(raw.used_swap, raw.total_swap),
        s.disk@ == disk_block_spec(views_of(raw.disks@)),
        s.network.total_received == sat64(sum_received(net_views_of(raw.networks@))),
        s.network.total_transmitted == sat64(sum_transmitted(net_views_of(raw.networks@))),
        net_views_of(s.network.interfaces@) == net_views_of(raw.networks@),
        s.uptime == raw.uptime,
        s.process_count == raw.process_count,
        snapshot_wf(s),
{
    let RawReading {
        os,
        arch,
        os_name,
        os_version,
        kernel_version,
        host_name,
        cpu_brand,
        cpu_count,
        cpu_usage_centi,
        total_memory,
        used_memory,
        available_memory,
        total_swap,
        used_swap,
        disks,
        networks,
        uptime,
        process_count,
    } = raw;
    let disk = summarize_disks(&disks);
    let (total_received, total_transmitted) = network_totals(&networks);
    let cpu_usage = if cpu_usage_centi > 10000 {
        10000
    } else {
        cpu_usage_centi
    };
    let s = Snapshot {
        os,
        arch,
        os_name: unwrap_or_unknown(os_name),
        os_version: unwrap_or_unknown(os_version),
        kernel_version: unwrap_or_unknown(kernel_version),
        host_name: unwrap_or_unknown(host_name),
        cpu: CpuReport {
            name: unwrap_or_unknown(cpu_brand),
            count: cpu_count,
            usage_centi: cpu_usage,
        },
        memory: MemoryReport {
            total: total_memory,
            used: used_memory,
            available: available_memory,
            usage_centi: usage_centi(used_memory, total_memory),
        },
        swap: SwapReport {
            total: total_swap,
            used: used_swap,
            usage_centi: usage_centi(used_swap, total_swap),
        },
        disk,
        network: NetworkBlock { total_received, total_transmitted, interfaces: networks },
        uptime,
        process_count,
    };
    proof {
        assert(disks@ == raw.disks@);
        let dbs = disk_block_spec(views_of(raw.disks@));
        assert(s.disk@ == dbs);
        let filtered = crate::disks::filter_views(views_of(raw.disks@));
        crate::percent::lemma_usage_bounded(
            crate::disks::sat_sub(s.disk.total, s.disk.available),
            s.disk.total,
        );
        assert forall|i: int|
            0 <= i < s.disk.disks@.len() implies (#[trigger] s.disk.disks@[i]).usage_centi
            <= 10000 by {
            let reps = s.disk.disks@;
            assert(crate::disks::report_views_of(reps).len() == reps.len());
            assert(dbs.disks.len() == filtered.len());
            assert(i < filtered.len());
            assert(crate::disks::report_views_of(reps)[i] == reps[i]@);
            assert(filtered.map_values(|d: crate::disks::DiskView| crate::disks::report_of(d))[i]
                == crate::disks::report_of(filtered[i]));
            assert(reps[i]@ == crate::disks::report_of(filtered[i]));
            crate::percent::lemma_usage_bounded(
                crate::disks::sat_sub(filtered[i].total, filtered[i].available),
                filtered[i].total,
            );
        }
    }
    s
}

} // verus!
