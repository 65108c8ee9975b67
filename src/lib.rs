//! A snapshot of mostly-static host facts (operating system, distribution,
//! memory, hostname, CPU topology) and its rendering as a key-value document.

pub mod distribution;
mod provider;
pub mod render;
pub mod system_info;

pub use distribution::{Distribution, OsRelease, Platform, ReleaseKey};
pub use system_info::{MemTotals, Probe, Readings, SystemInfo, CPU_COUNT_FALLBACK};
