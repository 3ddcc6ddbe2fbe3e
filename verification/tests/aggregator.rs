use system_snapshot::disks::{
    dedup_disks, filter_disks, make_disk_report, sum_disk_total, summarize_disks, DiskEntry,
};
use system_snapshot::network::{network_totals, InterfaceReading};
use system_snapshot::percent::usage_centi;
use system_snapshot::snapshot::{build_snapshot, RawReading};
use system_snapshot::text::{eq_ignore_ascii_case, starts_with_str, str_eq};

fn disk(name: &str, mount: &str, fs: &str, total: u64, available: u64) -> DiskEntry {
    DiskEntry {
        name: name.to_string(),
        mount_point: mount.to_string(),
        file_system: fs.to_string(),
        total,
        available,
        removable: false,
    }
}

fn iface(name: &str, received: u64, transmitted: u64) -> InterfaceReading {
    InterfaceReading { name: name.to_string(), received, transmitted }
}

#[test]
fn usage_is_zero_when_total_is_zero() {
    assert_eq!(usage_centi(0, 0), 0);
    assert_eq!(usage_centi(123, 0), 0);
    assert_eq!(usage_centi(u64::MAX, 0), 0);
}

#[test]
fn usage_exact_values() {
    assert_eq!(usage_centi(1, 2), 5000);
    assert_eq!(usage_centi(75, 100), 7500);
    assert_eq!(usage_centi(1, 3), 3333);
    assert_eq!(usage_centi(10, 10), 10000);
}

#[test]
fn usage_stays_within_bounds() {
    assert!(usage_centi(u64::MAX - 1, u64::MAX) <= 10000);
    assert_eq!(usage_centi(5, 2), 10000);
    assert_eq!(usage_centi(0, 7), 0);
}

#[test]
fn case_insensitive_match() {
    assert!(eq_ignore_ascii_case("TMPFS", "tmpfs"));
    assert!(eq_ignore_ascii_case("ApFs", "apfs"));
    assert!(!eq_ignore_ascii_case("ext4", "ext3"));
    assert!(!eq_ignore_ascii_case("tmpfs", "tmpf"));
}

#[test]
fn prefix_match() {
    assert!(starts_with_str("/run/media/usb0", "/run/media"));
    assert!(!starts_with_str("/run/lock", "/run/media"));
    assert!(starts_with_str("/run/lock", "/run"));
    assert!(str_eq("/dev", "/dev"));
    assert!(!str_eq("/dev", "/devx"));
}

#[test]
fn denylisted_filesystem_is_rejected_whatever_its_case() {
    let disks = vec![
        disk("tmp", "/tmp-volume", "TMPFS", 1024, 512),
        disk("cg", "/custom", "cgroup2", 2048, 1024),
        disk("root", "/", "ext4", 4096, 1024),
    ];
    let kept = filter_disks(&disks);
    assert_eq!(kept.len(), 1);
    assert_eq!(kept[0].file_system, "ext4");
    let summary = summarize_disks(&disks);
    assert_eq!(summary.total, 4096);
    assert_eq!(summary.disks.len(), 1);
}

#[test]
fn runtime_media_mount_survives_but_plain_runtime_mount_does_not() {
    let disks = vec![
        disk("usb", "/run/media/usb0", "vfat", 1000, 600),
        disk("lock", "/run/lock", "ext4", 1000, 600),
        disk("runroot", "/run", "ext4", 1000, 600),
    ];
    let kept = filter_disks(&disks);
    assert_eq!(kept.len(), 1);
    assert_eq!(kept[0].mount_point, "/run/media/usb0");
}

#[test]
fn excluded_trees_are_rejected() {
    let disks = vec![
        disk("snap", "/snap/core", "ext4", 1000, 100),
        disk("sys", "/sys/fs/x", "ext4", 1000, 100),
        disk("proc", "/proc", "ext4", 1000, 100),
        disk("dev", "/dev", "ext4", 1000, 100),
        disk("docker", "/var/lib/docker/overlay2", "ext4", 1000, 100),
        disk("home", "/home", "ext4", 1000, 100),
    ];
    let kept = filter_disks(&disks);
    assert_eq!(kept.len(), 1);
    assert_eq!(kept[0].mount_point, "/home");
}

#[test]
fn zero_total_capacity_is_rejected_for_every_type() {
    let disks = vec![
        disk("ghost", "/mnt/ghost", "ext4", 0, 0),
        disk("phantom", "/mnt/phantom", "btrfs", 0, 0),
        disk("real", "/mnt/real", "ext4", 10, 5),
    ];
    let kept = filter_disks(&disks);
    assert_eq!(kept.len(), 1);
    assert_eq!(kept[0].name, "real");
}

#[test]
fn same_capacity_dedup_keeps_first_of_type_and_other_types() {
    let t: u64 = 999_000;
    let disks = vec![
        disk("a", "/", "apfs", t, 100),
        disk("b", "/System/Volumes/Data", "apfs", t, 100),
        disk("c", "/System/Volumes/VM", "apfs", t, 100),
        disk("d", "/mnt/other", "ext4", t, 100),
    ];
    let kept = filter_disks(&disks);
    assert_eq!(kept.len(), 4);
    let deduped = dedup_disks(&kept);
    assert_eq!(deduped.len(), 2);
    assert_eq!(deduped[0].name, "a");
    assert_eq!(deduped[1].name, "d");
    assert_eq!(sum_disk_total(&deduped), 2 * t);
    let summary = summarize_disks(&disks);
    assert_eq!(summary.disks.len(), 4);
    assert_eq!(summary.total, 2 * t);
}

#[test]
fn apfs_dedup_is_case_sensitive() {
    let disks = vec![
        disk("a", "/volumes/a", "APFS", 500, 100),
        disk("b", "/volumes/b", "APFS", 500, 100),
    ];
    let deduped = dedup_disks(&filter_disks(&disks));
    assert_eq!(deduped.len(), 2);
}

#[test]
fn three_volume_example_totals() {
    let disks = vec![
        disk("d1", "/", "apfs", 500_000_000_000, 100),
        disk("d2", "/System/Volumes/Data", "apfs", 500_000_000_000, 100),
        disk("d3", "/mnt/data", "ext4", 250_000_000_000, 100),
    ];
    let summary = summarize_disks(&disks);
    assert_eq!(summary.disks.len(), 3);
    assert_eq!(summary.total, 750_000_000_000);
}

#[test]
fn disk_report_derives_used_and_usage() {
    let d = disk("data", "/data", "ext4", 100, 25);
    let report = make_disk_report(&d);
    assert_eq!(report.used, 75);
    assert_eq!(report.available, 25);
    assert_eq!(report.usage_centi, 7500);
    assert_eq!(report.file_system, "ext4");
    assert!(!report.is_removable);
}

#[test]
fn network_totals_are_exact_sums_including_quiet_interfaces() {
    let nets = vec![
        iface("eth0", 1000, 400),
        iface("lo", 250, 250),
        iface("wg0", 0, 0),
    ];
    let (received, transmitted) = network_totals(&nets);
    assert_eq!(received, 1250);
    assert_eq!(transmitted, 650);
}

#[test]
fn network_totals_saturate_instead_of_overflowing() {
    let nets = vec![iface("a", u64::MAX, 1), iface("b", 2, 2)];
    let (received, transmitted) = network_totals(&nets);
    assert_eq!(received, u64::MAX);
    assert_eq!(transmitted, 3);
}

fn fixture_reading() -> RawReading {
    RawReading {
        os: "linux".to_string(),
        arch: "x86_64".to_string(),
        os_name: Some("Ubuntu".to_string()),
        os_version: None,
        kernel_version: Some("6.1.0".to_string()),
        host_name: None,
        cpu_brand: Some("Example CPU".to_string()),
        cpu_count: 8,
        cpu_usage_centi: 4275,
        total_memory: 16_000,
        used_memory: 4_000,
        available_memory: 12_000,
        total_swap: 0,
        used_swap: 0,
        disks: vec![
            disk("root", "/", "ext4", 1_000, 250),
            disk("shm", "/dev/shm", "tmpfs", 1_000, 900),
        ],
        networks: vec![iface("eth0", 10, 20), iface("lo", 5, 5)],
        uptime: 3600,
        process_count: 123,
    }
}

#[test]
fn snapshot_substitutes_unknown_identity() {
    let s = build_snapshot(fixture_reading());
    assert_eq!(s.os_name, "Ubuntu");
    assert_eq!(s.os_version, "Unknown");
    assert_eq!(s.kernel_version, "6.1.0");
    assert_eq!(s.host_name, "Unknown");
    assert_eq!(s.cpu.name, "Example CPU");
}

#[test]
fn snapshot_derives_blocks() {
    let s = build_snapshot(fixture_reading());
    assert_eq!(s.cpu.count, 8);
    assert_eq!(s.cpu.usage_centi, 4275);
    assert_eq!(s.memory.total, 16_000);
    assert_eq!(s.memory.used, 4_000);
    assert_eq!(s.memory.usage_centi, 2500);
    assert_eq!(s.swap.total, 0);
    assert_eq!(s.swap.usage_centi, 0);
    assert_eq!(s.disk.disks.len(), 1);
    assert_eq!(s.disk.total, 1_000);
    assert_eq!(s.disk.used, 750);
    assert_eq!(s.disk.usage_centi, 7500);
    assert_eq!(s.network.total_received, 15);
    assert_eq!(s.network.total_transmitted, 25);
    assert_eq!(s.network.interfaces.len(), 2);
    assert_eq!(s.uptime, 3600);
    assert_eq!(s.process_count, 123);
}

#[test]
fn snapshot_clamps_cpu_usage() {
    let mut raw = fixture_reading();
    raw.cpu_usage_centi = 25_000;
    let s = build_snapshot(raw);
    assert_eq!(s.cpu.usage_centi, 10_000);
}
