use system_info::{
    Distribution, MemTotals, OsRelease, Platform, Probe, ReleaseKey, Readings, SystemInfo,
    CPU_COUNT_FALLBACK,
};

fn s(v: &str) -> Option<String> {
    Some(v.to_string())
}

fn sample_distribution() -> Distribution {
    Distribution {
        id: s("ubuntu"),
        id_like: s("debian"),
        name: s("Ubuntu"),
        pretty_name: s("Ubuntu 22.04.3 LTS"),
        version: s("22.04.3 LTS (Jammy Jellyfish)"),
        version_id: s("22.04"),
        version_codename: s("jammy"),
        cpe_name: None,
        build_id: None,
        variant: None,
        variant_id: None,
    }
}

fn full_readings() -> Readings {
    Readings {
        os_type: s("Linux"),
        os_release: s("5.15.0-91-generic"),
        distribution: Some(sample_distribution()),
        memory: Some(MemTotals { total: 16303412, swap_total: 2097148 }),
        hostname: s("build-host"),
        cpu_count: Some(8),
        cpu_online_count: Some(6),
        cpu_speed: Some(2400),
    }
}

fn fail(mut r: Readings, p: Probe) -> Readings {
    match p {
        Probe::OsType => r.os_type = None,
        Probe::OsRelease => r.os_release = None,
        Probe::Distribution => r.distribution = None,
        Probe::Memory => r.memory = None,
        Probe::Hostname => r.hostname = None,
        Probe::CpuCount => r.cpu_count = None,
        Probe::CpuOnlineCount => r.cpu_online_count = None,
        Probe::CpuSpeed => r.cpu_speed = None,
    }
    r
}

fn empty_snapshot() -> SystemInfo {
    SystemInfo {
        os_type: None,
        os_release: None,
        distribution: None,
        memory_total: None,
        swap_total: None,
        hostname: None,
        cpu_count: 0,
        cpu_online_count: 0,
        cpu_speed: None,
    }
}

const FULL_TEXT: &str = "OsType: \"Linux\"
OsRelease: \"5.15.0-91-generic\"
Distribution:
  Id: \"ubuntu\"
  IdLike: \"debian\"
  Name: \"Ubuntu\"
  PrettyName: \"Ubuntu 22.04.3 LTS\"
  Version: \"22.04.3 LTS (Jammy Jellyfish)\"
  VersionId: \"22.04\"
  VersionCodename: \"jammy\"
  CpeName: ~
  BuildId: ~
  Variant: ~
  VariantId: ~
MemoryTotal: 16303412
SwapTotal: 2097148
Hostname: \"build-host\"
CpuCount: 8
CpuOnlineCount: 6
CpuSpeed: 2400
";

const EMPTY_TEXT: &str = "OsType: ~
OsRelease: ~
Distribution: ~
MemoryTotal: ~
SwapTotal: ~
Hostname: ~
CpuCount: 0
CpuOnlineCount: 0
CpuSpeed: ~
";

#[test]
fn assemble_copies_every_reading() {
    let info = SystemInfo::assemble(full_readings());
    assert_eq!(info.os_type, s("Linux"));
    assert_eq!(info.os_release, s("5.15.0-91-generic"));
    assert_eq!(info.distribution, Some(sample_distribution()));
    assert_eq!(info.memory_total, Some(16303412));
    assert_eq!(info.swap_total, Some(2097148));
    assert_eq!(info.hostname, s("build-host"));
    assert_eq!(info.cpu_count, 8);
    assert_eq!(info.cpu_online_count, 6);
    assert_eq!(info.cpu_speed, Some(2400));
}

#[test]
fn single_failure_degrades_only_its_field() {
    let base = SystemInfo::assemble(full_readings());
    let cases = [
        (Probe::OsType, SystemInfo { os_type: None, ..base.clone() }),
        (Probe::OsRelease, SystemInfo { os_release: None, ..base.clone() }),
        (Probe::Distribution, SystemInfo { distribution: None, ..base.clone() }),
        (Probe::Hostname, SystemInfo { hostname: None, ..base.clone() }),
        (Probe::CpuSpeed, SystemInfo { cpu_speed: None, ..base.clone() }),
        (Probe::CpuCount, SystemInfo { cpu_count: CPU_COUNT_FALLBACK, ..base.clone() }),
        (Probe::CpuOnlineCount, SystemInfo { cpu_online_count: CPU_COUNT_FALLBACK, ..base.clone() }),
    ];
    for (p, expected) in cases {
        assert_eq!(SystemInfo::assemble(fail(full_readings(), p)), expected);
    }
}

#[test]
fn memory_failure_removes_both_totals() {
    let info = SystemInfo::assemble(fail(full_readings(), Probe::Memory));
    assert_eq!(info.memory_total, None);
    assert_eq!(info.swap_total, None);
    assert_eq!(info.hostname, s("build-host"));
    assert_eq!(info.cpu_speed, Some(2400));
}

#[test]
fn cpu_counts_fall_back_when_everything_fails() {
    let none = Readings {
        os_type: None,
        os_release: None,
        distribution: None,
        memory: None,
        hostname: None,
        cpu_count: None,
        cpu_online_count: None,
        cpu_speed: None,
    };
    let info = SystemInfo::assemble(none);
    assert_eq!(CPU_COUNT_FALLBACK, 0);
    assert_eq!(info, empty_snapshot());
}

#[test]
fn other_platform_never_has_a_distribution() {
    assert_eq!(Distribution::get_inner(Platform::Other), None);
}

#[test]
fn platform_is_classified_by_family_name() {
    assert_eq!(Platform::from_os_type(&s("Linux")), Platform::Linux);
    assert_eq!(Platform::from_os_type(&s("Darwin")), Platform::Other);
    assert_eq!(Platform::from_os_type(&s("linux")), Platform::Other);
    assert_eq!(Platform::from_os_type(&None), Platform::Linux);
}

#[test]
fn failed_family_reading_still_probes_distribution() {
    assert_eq!(Platform::from_os_type(&None), Platform::from_os_type(&s("Linux")));
    let info = SystemInfo::assemble(fail(full_readings(), Probe::OsType));
    assert_eq!(info.os_type, None);
    assert_eq!(info.distribution, Some(sample_distribution()));
}

#[test]
fn unreadable_descriptor_gives_no_distribution() {
    assert_eq!(Distribution::from_outcome(Err(sys_info::Error::Unknown)), None);
    assert_eq!(Distribution::from_outcome(Err(sys_info::Error::UnsupportedSystem)), None);
}

#[test]
fn partial_descriptor_fills_exactly_its_keys() {
    let release = OsRelease {
        id: s("alpine"),
        version_id: s("3.19.1"),
        pretty_name: s("Alpine Linux v3.19"),
        ..OsRelease::default()
    };
    let d = Distribution::from_outcome(Ok(release)).unwrap();
    assert_eq!(
        d,
        Distribution {
            id: s("alpine"),
            version_id: s("3.19.1"),
            pretty_name: s("Alpine Linux v3.19"),
            ..Distribution::default()
        }
    );
    assert_eq!(d.id_like, None);
    assert_eq!(d.variant_id, None);
    assert_ne!(ReleaseKey::Id, ReleaseKey::IdLike);
}

#[test]
fn full_release_is_copied_one_to_one() {
    let release = OsRelease {
        id: s("fedora"),
        id_like: s("rhel"),
        name: s("Fedora Linux"),
        pretty_name: s("Fedora Linux 39"),
        version: s("39 (Workstation Edition)"),
        version_id: s("39"),
        version_codename: s(""),
        cpe_name: s("cpe:/o:fedoraproject:fedora:39"),
        build_id: s("b1"),
        variant: s("Workstation Edition"),
        variant_id: s("workstation"),
    };
    let d = Distribution::from_release(release);
    assert_eq!(d.cpe_name, s("cpe:/o:fedoraproject:fedora:39"));
    assert_eq!(d.version_codename, s(""));
    assert_eq!(d.variant_id, s("workstation"));
    assert_eq!(d.build_id, s("b1"));
}

#[test]
fn renders_full_snapshot_exactly() {
    let info = SystemInfo::assemble(full_readings());
    assert_eq!(info.as_yaml(), FULL_TEXT);
}

#[test]
fn rendering_twice_is_identical() {
    let info = SystemInfo::assemble(full_readings());
    let a = info.as_yaml();
    let b = info.clone().as_yaml();
    assert_eq!(a, b);
    assert!(!a.starts_with("---"));
    assert!(a.ends_with('\n'));
    assert!(!a.ends_with("\n\n"));
}

#[test]
fn renders_empty_snapshot_with_every_key() {
    let text = empty_snapshot().as_yaml();
    assert_eq!(text, EMPTY_TEXT);
    for key in [
        "OsType", "OsRelease", "Distribution", "MemoryTotal", "SwapTotal", "Hostname", "CpuCount",
        "CpuOnlineCount", "CpuSpeed",
    ] {
        assert!(text.lines().any(|l| l.starts_with(&format!("{}: ", key))));
    }
}

#[test]
fn renders_numbers_in_decimal() {
    let info = SystemInfo {
        memory_total: Some(0),
        swap_total: Some(u64::MAX),
        cpu_count: 10,
        cpu_online_count: 1,
        cpu_speed: Some(100),
        ..empty_snapshot()
    };
    let text = info.as_yaml();
    assert!(text.contains("\nMemoryTotal: 0\n"));
    assert!(text.contains("\nSwapTotal: 18446744073709551615\n"));
    assert!(text.contains("\nCpuCount: 10\n"));
    assert!(text.contains("\nCpuOnlineCount: 1\n"));
    assert!(text.ends_with("\nCpuSpeed: 100\n"));
}

#[test]
fn escapes_special_characters_in_text() {
    let info = SystemInfo {
        hostname: s("a\"b\\c\nd\te\r\u{1}\u{7f}é: #"),
        ..empty_snapshot()
    };
    let text = info.as_yaml();
    assert!(text.contains("\nHostname: \"a\\\"b\\\\c\\nd\\te\\r\\x01\\x7fé: #\"\n"));
    assert_eq!(text.lines().count(), 9);
}

#[test]
fn rendered_document_parses_back() {
    let info = SystemInfo {
        hostname: s("odd: \"host\"\n# name"),
        os_release: s("1.0"),
        ..SystemInfo::assemble(full_readings())
    };
    let doc: serde_yaml::Value = serde_yaml::from_str(&info.as_yaml()).unwrap();
    assert_eq!(doc["OsType"].as_str(), Some("Linux"));
    assert_eq!(doc["OsRelease"].as_str(), Some("1.0"));
    assert_eq!(doc["Hostname"].as_str(), Some("odd: \"host\"\n# name"));
    assert_eq!(doc["Distribution"]["Id"].as_str(), Some("ubuntu"));
    assert!(doc["Distribution"]["CpeName"].is_null());
    assert_eq!(doc["MemoryTotal"].as_u64(), Some(16303412));
    assert_eq!(doc["CpuOnlineCount"].as_u64(), Some(6));

    let empty: serde_yaml::Value = serde_yaml::from_str(&empty_snapshot().as_yaml()).unwrap();
    assert!(empty["Distribution"].is_null());
    assert!(empty["Hostname"].is_null());
    assert_eq!(empty["CpuCount"].as_u64(), Some(0));
}

#[test]
fn live_snapshot_is_consistent() {
    let info = SystemInfo::get();
    assert_eq!(info.memory_total.is_some(), info.swap_total.is_some());
    assert!(info.cpu_online_count >= 1);
    if info.distribution.is_some() {
        assert!(info.os_type.is_none() || info.os_type == s("Linux"));
    }
    let text = info.as_yaml();
    assert!(text.starts_with("OsType: "));
    assert!(text.ends_with('\n') && !text.ends_with("\n\n"));
}

#[test]
fn live_distribution_matches_platform() {
    let d = Distribution::try_get();
    if d.is_some() {
        assert_eq!(Platform::current(), Platform::Linux);
    }
}
