//! Linux distribution identity, as named by the os-release descriptor.

use vstd::prelude::*;

use crate::provider;

verus! {

/// The platform family that decides whether distribution data is probed at all:
/// `Other` is a platform known not to be Linux, where the descriptor is never
/// read.
#[derive(Clone, Copy, Debug, PartialEq, Eq, Structural)]
pub enum Platform {
    Linux,
    Other,
}

/// The operating-system family name that Linux reports.
pub open spec fn linux_family_name() -> Seq<char> {
    "Linux"@
}

/// The platform whose operating-system family name is `os_type`. Only a family
/// name other than Linux rules Linux out: when the name could not be read the
/// descriptor is still tried, and the provider's own read fails off Linux.
pub open spec fn platform_of(os_type: Option<String>) -> Platform {
    match os_type {
        Some(s) => if s@ == linux_family_name() { Platform::Linux } else { Platform::Other },
        None => Platform::Linux,
    }
}

/// A failed reading of the family name gates the descriptor exactly as a
/// reading of "Linux" does: it never keeps the distribution from being read.
pub proof fn lemma_failed_family_still_probes(os_type: Option<String>)
    requires
        os_type matches Some(s) ==> s@ == linux_family_name(),
    ensures
        platform_of(None) == Platform::Linux,
        platform_of(os_type) == platform_of(None),
{
}

impl Platform {
    /// Classifies a reported operating-system family name.
    pub fn from_os_type(os_type: &Option<String>) -> (r: Platform)
        ensures
            r == platform_of(*os_type),
    {
        match os_type {
            Some(s) => {
                let linux = "Linux".to_owned();
                if *s == linux {
                    Platform::Linux
                } else {
                    Platform::Other
                }
            },
            None => Platform::Linux,
        }
    }

    /// The platform this process runs on, found by asking the operating system
    /// for its family name.
    pub fn current() -> (r: Platform) {
        Platform::from_os_type(&sys_info::os_type().ok())
    }
}

/// One of the os-release keys that a `Distribution` records.
#[derive(Clone, Copy, Debug, PartialEq, Eq, Structural)]
pub enum ReleaseKey {
    Id,
    IdLike,
    Name,
    PrettyName,
    Version,
    VersionId,
    VersionCodename,
    CpeName,
    BuildId,
    Variant,
    VariantId,
}

/// What the os-release descriptor held for each recognised key, as the
/// provider parsed it.
#[derive(Clone, Debug, PartialEq, Eq, Default)]
pub struct OsRelease {
    pub id: Option<String>,
    pub id_like: Option<String>,
    pub name: Option<String>,
    pub pretty_name: Option<String>,
    pub version: Option<String>,
    pub version_id: Option<String>,
    pub version_codename: Option<String>,
    pub cpe_name: Option<String>,
    pub build_id: Option<String>,
    pub variant: Option<String>,
    pub variant_id: Option<String>,
}

impl OsRelease {
    /// The value recorded for `k`, if the descriptor had that key.
    pub open spec fn field(self, k: ReleaseKey) -> Option<String> {
        match k {
            ReleaseKey::Id => self.id,
            ReleaseKey::IdLike => self.id_like,
            ReleaseKey::Name => self.name,
            ReleaseKey::PrettyName => self.pretty_name,
            ReleaseKey::Version => self.version,
            ReleaseKey::VersionId => self.version_id,
            ReleaseKey::VersionCodename => self.version_codename,
            ReleaseKey::CpeName => self.cpe_name,
            ReleaseKey::BuildId => self.build_id,
            ReleaseKey::Variant => self.variant,
            ReleaseKey::VariantId => self.variant_id,
        }
    }
}

/// Linux distribution identity. Every field is present exactly when the
/// os-release descriptor had the corresponding key.
#[derive(Clone, Debug, PartialEq, Eq, Default)]
pub struct Distribution {
    pub id: Option<String>,
    pub id_like: Option<String>,
    pub name: Option<String>,
    pub pretty_name: Option<String>,
    pub version: Option<String>,
    pub version_id: Option<String>,
    pub version_codename: Option<String>,
    pub cpe_name: Option<String>,
    pub build_id: Option<String>,
    pub variant: Option<String>,
    pub variant_id: Option<String>,
}

/// The distribution recorded from a parsed descriptor: each field copied from
/// the key of the same name.
pub open spec fn distribution_of(release: OsRelease) -> Distribution {
    Distribution {
        id: release.id,
        id_like: release.id_like,
        name: release.name,
        pretty_name: release.pretty_name,
        version: release.version,
        version_id: release.version_id,
        version_codename: release.version_codename,
        cpe_name: release.cpe_name,
        build_id: release.build_id,
        variant: release.variant,
        variant_id: release.variant_id,
    }
}

/// The distribution recorded from the outcome of reading the descriptor:
/// nothing at all when it could not be read or parsed.
pub open spec fn distribution_from_outcome(outcome: Result<OsRelease, sys_info::Error>) -> Option<
    Distribution,
> {
    match outcome {
        Ok(release) => Some(distribution_of(release)),
        Err(_) => None,
    }
}

/// Whether `d` is the record of some parsed descriptor, each field copied from
/// its key.
pub open spec fn is_recorded_release(d: Distribution) -> bool {
    exists|release: OsRelease| #[trigger] distribution_of(release) == d
}

impl Distribution {
    /// The value recorded for `k`.
    pub open spec fn field(self, k: ReleaseKey) -> Option<String> {
        match k {
            ReleaseKey::Id => self.id,
            ReleaseKey::IdLike => self.id_like,
            ReleaseKey::Name => self.name,
            ReleaseKey::PrettyName => self.pretty_name,
            ReleaseKey::Version => self.version,
            ReleaseKey::VersionId => self.version_id,
            ReleaseKey::VersionCodename => self.version_codename,
            ReleaseKey::CpeName => self.cpe_name,
            ReleaseKey::BuildId => self.build_id,
            ReleaseKey::Variant => self.variant,
            ReleaseKey::VariantId => self.variant_id,
        }
    }

    /// Copies each recognised key of a parsed descriptor into the field of the
    /// same name; keys the descriptor lacked stay absent.
    pub fn from_release(release: OsRelease) -> (r: Distribution)
        ensures
            r == distribution_of(release),
            forall|k: ReleaseKey| #[trigger] r.field(k) == release.field(k),
    {
        Distribution {
            id: release.id,
            id_like: release.id_like,
            name: release.name,
            pretty_name: release.pretty_name,
            version: release.version,
            version_id: release.version_id,
            version_codename: release.version_codename,
            cpe_name: release.cpe_name,
            build_id: release.build_id,
            variant: release.variant,
            variant_id: release.variant_id,
        }
    }

    /// The all-or-nothing distribution entity for one attempt at reading the
    /// descriptor: a failed read or parse yields no entity at all.
    pub fn from_outcome(outcome: Result<OsRelease, sys_info::Error>) -> (r: Option<Distribution>)
        ensures
            r == distribution_from_outcome(outcome),
            outcome is Err ==> r is None,
            r matches Some(d) ==> forall|k: ReleaseKey| #[trigger] d.field(k) == outcome->Ok_0.field(k),
            r matches Some(d) ==> is_recorded_release(d),
    {
        match outcome {
            Ok(release) => {
                let d = Distribution::from_release(release);
                proof {
                    assert(distribution_of(release) == d);
                }
                Some(d)
            },
            Err(_) => None,
        }
    }

    /// Reads the distribution on `platform`. Off Linux the descriptor is never
    /// read and the result is always absent.
    pub fn get_inner(platform: Platform) -> (r: Option<Distribution>)
        ensures
            platform != Platform::Linux ==> r is None,
            r is Some ==> platform == Platform::Linux,
            r matches Some(d) ==> is_recorded_release(d),
    {
        match platform {
            Platform::Linux => Distribution::from_outcome(provider::read_os_release()),
            Platform::Other => None,
        }
    }

    /// Attempts to get the Linux distribution metadata, succeeding only on
    /// Linux and only if the descriptor can be read and parsed. A result is
    /// always a whole entity copied from one parsed descriptor.
    pub fn try_get() -> (r: Option<Distribution>)
        ensures
            r matches Some(d) ==> is_recorded_release(d),
    {
        Distribution::get_inner(Platform::current())
    }
}

} // verus!
