//! The host snapshot and its assembly from independent, best-effort readings.

use vstd::prelude::*;

use crate::distribution::{linux_family_name, Distribution, Platform};
use crate::provider;

verus! {

/// The CPU count recorded when the provider cannot count CPUs. The two CPU
/// counts are never absent: a failed count falls back to this value.
pub const CPU_COUNT_FALLBACK: u64 = 0;

/// The memory totals that one reading of the memory counters yields, in
/// kilobytes: both come from the same reading, or neither does.
#[derive(Clone, Copy, Debug, PartialEq, Eq, Structural)]
pub struct MemTotals {
    pub total: u64,
    pub swap_total: u64,
}

/// One independent retrieval made while collecting a snapshot.
#[derive(Clone, Copy, Debug, PartialEq, Eq, Structural)]
pub enum Probe {
    OsType,
    OsRelease,
    Distribution,
    Memory,
    Hostname,
    CpuCount,
    CpuOnlineCount,
    CpuSpeed,
}

/// The outcome of each retrieval; `None` where it failed.
#[derive(Clone, Debug, PartialEq, Eq)]
pub struct Readings {
    pub os_type: Option<String>,
    pub os_release: Option<String>,
    pub distribution: Option<Distribution>,
    pub memory: Option<MemTotals>,
    pub hostname: Option<String>,
    pub cpu_count: Option<u64>,
    pub cpu_online_count: Option<u64>,
    pub cpu_speed: Option<u64>,
}

impl Readings {
    /// These readings with retrieval `p` failed.
    pub open spec fn failing(self, p: Probe) -> Readings {
        match p {
            Probe::OsType => Readings { os_type: None, ..self },
            Probe::OsRelease => Readings { os_release: None, ..self },
            Probe::Distribution => Readings { distribution: None, ..self },
            Probe::Memory => Readings { memory: None, ..self },
            Probe::Hostname => Readings { hostname: None, ..self },
            Probe::CpuCount => Readings { cpu_count: None, ..self },
            Probe::CpuOnlineCount => Readings { cpu_online_count: None, ..self },
            Probe::CpuSpeed => Readings { cpu_speed: None, ..self },
        }
    }

    /// Readings in which every retrieval failed.
    pub open spec fn all_failed() -> Readings {
        Readings {
            os_type: None,
            os_release: None,
            distribution: None,
            memory: None,
            hostname: None,
            cpu_count: None,
            cpu_online_count: None,
            cpu_speed: None,
        }
    }
}

/// Mostly-static metadata about a host. Every `Option` field is independently
/// absent when its retrieval failed; the two CPU counts are always numbers,
/// falling back to `CPU_COUNT_FALLBACK`.
#[derive(Clone, Debug, PartialEq, Eq)]
pub struct SystemInfo {
    pub os_type: Option<String>,
    pub os_release: Option<String>,
    pub distribution: Option<Distribution>,
    pub memory_total: Option<u64>,
    pub swap_total: Option<u64>,
    pub hostname: Option<String>,
    pub cpu_count: u64,
    pub cpu_online_count: u64,
    pub cpu_speed: Option<u64>,
}

/// A count, or the fallback where counting failed.
pub open spec fn count_or_fallback(c: Option<u64>) -> u64 {
    match c {
        Some(n) => n,
        None => CPU_COUNT_FALLBACK,
    }
}

/// The snapshot that a set of readings yields: each field from its own
/// retrieval, both memory totals from the one memory reading.
pub open spec fn snapshot_of(r: Readings) -> SystemInfo {
    SystemInfo {
        os_type: r.os_type,
        os_release: r.os_release,
        distribution: r.distribution,
        memory_total: match r.memory {
            Some(m) => Some(m.total),
            None => None,
        },
        swap_total: match r.memory {
            Some(m) => Some(m.swap_total),
            None => None,
        },
        hostname: r.hostname,
        cpu_count: count_or_fallback(r.cpu_count),
        cpu_online_count: count_or_fallback(r.cpu_online_count),
        cpu_speed: r.cpu_speed,
    }
}

impl SystemInfo {
    /// This snapshot with what retrieval `p` supplies degraded: its field (both
    /// memory totals for the memory reading) absent, or a CPU count at the
    /// fallback.
    pub open spec fn degraded(self, p: Probe) -> SystemInfo {
        match p {
            Probe::OsType => SystemInfo { os_type: None, ..self },
            Probe::OsRelease => SystemInfo { os_release: None, ..self },
            Probe::Distribution => SystemInfo { distribution: None, ..self },
            Probe::Memory => SystemInfo { memory_total: None, swap_total: None, ..self },
            Probe::Hostname => SystemInfo { hostname: None, ..self },
            Probe::CpuCount => SystemInfo { cpu_count: CPU_COUNT_FALLBACK, ..self },
            Probe::CpuOnlineCount => SystemInfo { cpu_online_count: CPU_COUNT_FALLBACK, ..self },
            Probe::CpuSpeed => SystemInfo { cpu_speed: None, ..self },
        }
    }

    /// Builds the snapshot from the outcome of each retrieval.
    pub fn assemble(readings: Readings) -> (r: SystemInfo)
        ensures
            r == snapshot_of(readings),
    {
        let (memory_total, swap_total) = match readings.memory {
            Some(m) => (Some(m.total), Some(m.swap_total)),
            None => (None, None),
        };
        let cpu_count = match readings.cpu_count {
            Some(n) => n,
            None => CPU_COUNT_FALLBACK,
        };
        let cpu_online_count = match readings.cpu_online_count {
            Some(n) => n,
            None => CPU_COUNT_FALLBACK,
        };
        SystemInfo {
            os_type: readings.os_type,
            os_release: readings.os_release,
            distribution: readings.distribution,
            memory_total,
            swap_total,
            hostname: readings.hostname,
            cpu_count,
            cpu_online_count,
            cpu_speed: readings.cpu_speed,
        }
    }

    /// Gets the current system info, requesting fresh values for each field.
    /// Never fails: a failed retrieval only degrades its own field. The
    /// distribution is skipped only where the family name names a platform
    /// other than Linux; a failed family reading does not affect it.
    pub fn get() -> (r: SystemInfo)
        ensures
            r.memory_total is Some <==> r.swap_total is Some,
            r.distribution is Some ==> !(r.os_type matches Some(s) && s@ != linux_family_name()),
            r.cpu_online_count >= 1,
    {
        let os_type = sys_info::os_type().ok();
        let platform = Platform::from_os_type(&os_type);
        let cpu_count = match sys_info::cpu_num() {
            Ok(n) => Some(n as u64),
            Err(_) => None,
        };
        let readings = Readings {
            os_type,
            os_release: sys_info::os_release().ok(),
            distribution: Distribution::get_inner(platform),
            memory: provider::read_mem_totals().ok(),
            hostname: provider::read_hostname(),
            cpu_count,
            cpu_online_count: Some(num_cpus::get() as u64),
            cpu_speed: sys_info::cpu_speed().ok(),
        };
        SystemInfo::assemble(readings)
    }
}

/// A failed retrieval degrades exactly what it supplies and leaves every other
/// field of the snapshot as it was.
pub proof fn lemma_failure_is_isolated(r: Readings, p: Probe)
    ensures
        snapshot_of(r.failing(p)) == snapshot_of(r).degraded(p),
{
}

/// The memory and swap totals are present together or absent together; a
/// failed memory reading removes both.
pub proof fn lemma_memory_swap_coupled(r: Readings)
    ensures
        snapshot_of(r).memory_total is Some <==> snapshot_of(r).swap_total is Some,
        snapshot_of(r.failing(Probe::Memory)).memory_total is None,
        snapshot_of(r.failing(Probe::Memory)).swap_total is None,
{
}

/// The CPU counts are numbers in every snapshot: the reading where it
/// succeeded, the fallback where it failed, even when every retrieval failed.
pub proof fn lemma_cpu_counts_defined(r: Readings)
    ensures
        snapshot_of(r).cpu_count == count_or_fallback(r.cpu_count),
        snapshot_of(r).cpu_online_count == count_or_fallback(r.cpu_online_count),
        snapshot_of(Readings::all_failed()).cpu_count == CPU_COUNT_FALLBACK,
        snapshot_of(Readings::all_failed()).cpu_online_count == CPU_COUNT_FALLBACK,
{
}

} // verus!
