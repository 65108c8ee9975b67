//! The operating-system facts provider: the outside calls this library makes.
//!
//! Every result here depends on the machine it runs on, so nothing is promised
//! about the values that come back; the verified code states what holds for
//! each outcome.

use vstd::prelude::*;

use crate::distribution::OsRelease;
use crate::system_info::MemTotals;

verus! {

/// The error type of the sys-info crate, carried through opaquely.
#[verifier::external_type_specification]
#[verifier::external_body]
pub struct ExSysInfoError(sys_info::Error);

/// Relies on sys_info::os_type: the operating-system family name, or an error.
pub assume_specification[ sys_info::os_type ]() -> Result<String, sys_info::Error>;

/// Relies on sys_info::linux_os_release: reads and parses the os-release
/// descriptor; each recognised key is copied into the field of the same name.
#[verifier::external_body]
pub(crate) fn read_os_release() -> (r: Result<OsRelease, sys_info::Error>) {
    sys_info::linux_os_release().map(|i| OsRelease {
        id: i.id, id_like: i.id_like, name: i.name, pretty_name: i.pretty_name,
        version: i.version, version_id: i.version_id, version_codename: i.version_codename,
        cpe_name: i.cpe_name, build_id: i.build_id, variant: i.variant, variant_id: i.variant_id,
    })
}

/// Relies on sys_info::os_release: the operating-system release string, or an error.
pub assume_specification[ sys_info::os_release ]() -> Result<String, sys_info::Error>;

/// Relies on sys_info::cpu_num: the number of logical CPUs, or an error.
pub assume_specification[ sys_info::cpu_num ]() -> Result<u32, sys_info::Error>;

/// Relies on sys_info::cpu_speed: the nominal CPU clock in MHz, or an error.
pub assume_specification[ sys_info::cpu_speed ]() -> Result<u64, sys_info::Error>;

/// Relies on num_cpus::get: the number of CPUs available to this process,
/// which its documentation promises is at least one.
pub assume_specification[ num_cpus::get ]() -> (r: usize)
    ensures
        r >= 1,
;

/// Relies on sys_info::mem_info: one reading of the memory counters, of which
/// the physical total and the swap total are kept.
#[verifier::external_body]
pub(crate) fn read_mem_totals() -> (r: Result<MemTotals, sys_info::Error>) {
    sys_info::mem_info().map(|m| MemTotals { total: m.total, swap_total: m.swap_total })
}

/// Relies on gethostname::gethostname and OsString::into_string: the configured
/// hostname, absent when it is not valid Unicode.
#[verifier::external_body]
pub(crate) fn read_hostname() -> (r: Option<String>) {
    gethostname::gethostname().into_string().ok()
}

} // verus!
