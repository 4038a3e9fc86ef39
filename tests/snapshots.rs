use pve_tool::paths::{
    rollback_path, snapshot_path, snapshots_path, task_status_path, vm_resources_path,
    vm_status_path,
};
use pve_tool::snapshot::{
    created_label, memory_usage, uptime_parts, SnapshotInfo, SnapshotManager, VmResource,
    VmStatusDoc,
};

fn snap(name: &str, description: Option<&str>, snaptime: Option<i64>) -> SnapshotInfo {
    SnapshotInfo {
        name: name.to_string(),
        description: description.map(|d| d.to_string()),
        snaptime,
    }
}

#[test]
fn listing_leaves_out_current() {
    let snaps = vec![
        snap("before-upgrade", Some("pre"), Some(0)),
        snap("current", Some("You are here!"), None),
        snap("nightly", None, None),
    ];
    let rows = SnapshotManager::list_snapshots(&snaps);
    assert_eq!(rows.len(), 2);
    assert!(rows.iter().all(|r| r.name != "current"));
    assert_eq!(rows[0].name, "before-upgrade");
    assert_eq!(rows[0].description, "pre");
    assert_eq!(rows[0].created, "1970-01-01 00:00:00");
    assert_eq!(rows[1].name, "nightly");
    assert_eq!(rows[1].description, "No description");
    assert_eq!(rows[1].created, "Unknown");
}

#[test]
fn listing_formats_timestamps_in_utc() {
    let rows = SnapshotManager::list_snapshots(&vec![snap("a", None, Some(1700000000))]);
    assert_eq!(rows[0].created, "2023-11-14 22:13:20");
}

#[test]
fn out_of_range_timestamp_is_unknown() {
    let rows = SnapshotManager::list_snapshots(&vec![snap("a", None, Some(i64::MAX))]);
    assert_eq!(rows[0].created, "Unknown");
}

#[test]
fn created_label_defaults_to_unknown() {
    assert_eq!(created_label(None), "Unknown");
    assert_eq!(created_label(Some("2024-01-02 03:04:05".to_string())), "2024-01-02 03:04:05");
}

fn is_digits(s: &str, n: usize) -> bool {
    s.len() == n && s.chars().all(|c| c.is_ascii_digit())
}

#[test]
fn default_snapshot_name_has_timestamp_shape() {
    let req = SnapshotManager::create_snapshot(None, None, false);
    let rest = req.snapname.strip_prefix("snapshot-").expect("prefix");
    let (date, time) = rest.split_once('-').expect("dash");
    assert!(is_digits(date, 8), "{}", req.snapname);
    assert!(is_digits(time, 6), "{}", req.snapname);
    assert!(req.description.starts_with("Snapshot created on "));
    assert_eq!(req.description.len(), "Snapshot created on ".len() + 19);
    assert_eq!(req.vmstate, None);
}

#[test]
fn explicit_names_and_vmstate_are_kept() {
    let req = SnapshotManager::create_snapshot(Some("pre".to_string()), Some("d".to_string()), true);
    assert_eq!(req.snapname, "pre");
    assert_eq!(req.description, "d");
    assert_eq!(req.vmstate, Some(1));
}

#[test]
fn snapshot_request_from_given_times() {
    let req = SnapshotManager::snapshot_request(None, None, false, "20240102-030405", "2024-01-02 03:04:05");
    assert_eq!(req.snapname, "snapshot-20240102-030405");
    assert_eq!(req.description, "Snapshot created on 2024-01-02 03:04:05");
    assert_eq!(req.vmstate, None);
}

#[test]
fn operation_paths() {
    assert_eq!(snapshots_path("pve2", 205), "/nodes/pve2/qemu/205/snapshot");
    assert_eq!(snapshot_path("pve2", 205, "s1"), "/nodes/pve2/qemu/205/snapshot/s1");
    assert_eq!(rollback_path("pve2", 205, "s1"), "/nodes/pve2/qemu/205/snapshot/s1/rollback");
    assert_eq!(vm_status_path("pve1", 0), "/nodes/pve1/qemu/0/status/current");
    assert_eq!(task_status_path("pve1", "UPID:pve1:1"), "/nodes/pve1/tasks/UPID:pve1:1/status");
    assert_eq!(vm_resources_path(), "/cluster/resources?type=vm");
    assert_eq!(SnapshotManager::delete_snapshot("n", 4294967295, "x"), "/nodes/n/qemu/4294967295/snapshot/x");
    assert_eq!(SnapshotManager::rollback_snapshot("n", 10, "x"), "/nodes/n/qemu/10/snapshot/x/rollback");
}

#[test]
fn memory_percentages() {
    let m = memory_usage(512 * 1048576, 1024 * 1048576);
    assert_eq!((m.used_mb, m.max_mb, m.percent_tenths), (512, 1024, Some(500)));
    assert_eq!(memory_usage(1, 3).percent_tenths, Some(333));
    assert_eq!(memory_usage(2, 3).percent_tenths, Some(667));
    assert_eq!(memory_usage(5, 0).percent_tenths, None);
    assert_eq!(memory_usage(u64::MAX, 1).percent_tenths, Some(u64::MAX as u128 * 1000));
}

#[test]
fn uptime_split() {
    let u = uptime_parts(90061);
    assert_eq!((u.days, u.hours, u.minutes), (1, 1, 1));
    let u = uptime_parts(59);
    assert_eq!((u.days, u.hours, u.minutes), (0, 0, 0));
}

fn doc(name: Option<&str>, status: Option<&str>, mem: Option<u64>, maxmem: Option<u64>, uptime: Option<u64>) -> VmStatusDoc {
    VmStatusDoc {
        name: name.map(|s| s.to_string()),
        status: status.map(|s| s.to_string()),
        mem,
        maxmem,
        uptime,
    }
}

#[test]
fn info_omits_memory_without_maximum() {
    let i = SnapshotManager::show_vm_info("pve1", 100, &doc(Some("web01"), None, Some(10), None, None));
    assert_eq!(i.node, "pve1");
    assert_eq!(i.vmid, 100);
    assert_eq!(i.name.as_deref(), Some("web01"));
    assert!(i.status.is_none());
    assert!(i.memory.is_none());
    let i = SnapshotManager::show_vm_info("pve1", 100, &doc(None, None, Some(1048576), Some(4194304), None));
    let m = i.memory.unwrap();
    assert_eq!((m.used_mb, m.max_mb, m.percent_tenths), (1, 4, Some(250)));
}

#[test]
fn status_check_defaults_and_uptime() {
    let r = SnapshotManager::check_vm_status("pve1", 100, &doc(None, None, None, None, Some(90061)));
    assert_eq!(r.name, "Unknown");
    assert_eq!(r.status, "unknown");
    assert!(r.uptime.is_none());
    let r = SnapshotManager::check_vm_status("pve1", 100, &doc(Some("web01"), Some("running"), None, None, Some(3660)));
    let u = r.uptime.unwrap();
    assert_eq!((u.days, u.hours, u.minutes), (0, 1, 1));
    let r = SnapshotManager::check_vm_status("pve1", 100, &doc(None, Some("stopped"), None, None, Some(3660)));
    assert!(r.uptime.is_none());
}

fn vm(node: &str, vmid: u32, name: Option<&str>) -> VmResource {
    VmResource { node: node.to_string(), vmid, name: name.map(|s| s.to_string()), status: "running".to_string() }
}

#[test]
fn vm_listing_filtered_to_absent_node_is_empty() {
    let rs = vec![vm("pve1", 100, Some("web01")), vm("pve2", 101, None)];
    assert!(SnapshotManager::list_vms(&rs, Some("pve3")).is_empty());
}

#[test]
fn vm_listing_filters_by_node_and_defaults_name() {
    let rs = vec![vm("pve1", 100, Some("web01")), vm("pve2", 101, None), vm("pve2", 102, Some("x"))];
    let rows = SnapshotManager::list_vms(&rs, Some("pve2"));
    assert_eq!(rows.len(), 2);
    assert_eq!((rows[0].vmid, rows[0].name.as_str()), (101, "-"));
    assert_eq!((rows[1].vmid, rows[1].name.as_str()), (102, "x"));
    assert_eq!(SnapshotManager::list_vms(&rs, None).len(), 3);
    assert!(SnapshotManager::list_vms(&Vec::new(), None).is_empty());
}
