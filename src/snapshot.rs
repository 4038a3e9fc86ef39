//! The snapshot and virtual machine operations: what each sends, and the
//! reports built from what the API returns.
use vstd::prelude::*;
use vstd::string::*;

use crate::client::ProxmoxClient;
use crate::cluster::ClusterManager;
use crate::paths::{rollback_path, rollback_path_spec, snapshot_path, snapshot_path_spec};
use crate::text::{copy_opt_string, str_eq};

verus! {

/// The text that chrono writes for the UTC time `t` seconds after the epoch
/// under `%Y-%m-%d %H:%M:%S`, or nothing where `t` is out of its range.
pub uninterp spec fn utc_time_text(t: i64) -> Option<Seq<char>>;

/// Relies on chrono's `DateTime::from_timestamp` (nothing for a timestamp out
/// of range) and `format("%Y-%m-%d %H:%M:%S")`: the text depends on `t` alone.
#[verifier::external_body]
fn format_utc(t: i64) -> (r: Option<String>)
    ensures
        match r {
            Some(s) => utc_time_text(t) == Some(s@),
            None => utc_time_text(t) is None,
        },
{
    match chrono::DateTime::from_timestamp(t, 0) {
        Some(dt) => Some(dt.format("%Y-%m-%d %H:%M:%S").to_string()),
        None => None,
    }
}

/// Relies on chrono's `Local::now` and `DateTime::format`: the local time at
/// the moment of the call, written after `pattern`.
#[verifier::external_body]
fn local_now_text(pattern: &str) -> (r: String)
    requires
        pattern@ == "%Y%m%d-%H%M%S"@ || pattern@ == "%Y-%m-%d %H:%M:%S"@,
{
    chrono::Local::now().format(pattern).to_string()
}

/// One entry of a virtual machine's snapshot list.
pub struct SnapshotInfo {
    pub name: String,
    pub description: Option<String>,
    pub snaptime: Option<i64>,
}

/// One line of a snapshot listing.
pub struct SnapshotRow {
    pub name: String,
    pub description: String,
    pub created: String,
}

/// The entries that a listing shows: all but the one named `current`, which
/// stands for the live state of the machine.
pub open spec fn listed_snapshots(s: Seq<SnapshotInfo>) -> Seq<SnapshotInfo>
    decreases s.len(),
{
    if s.len() == 0 {
        Seq::empty()
    } else {
        let rest = listed_snapshots(s.drop_last());
        if s.last().name@ == "current"@ {
            rest
        } else {
            rest.push(s.last())
        }
    }
}

/// The creation time as a listing shows it.
pub open spec fn created_text(snaptime: Option<i64>) -> Seq<char> {
    match snaptime {
        Some(t) => match utc_time_text(t) {
            Some(s) => s,
            None => "Unknown"@,
        },
        None => "Unknown"@,
    }
}

/// The line that a listing shows for `s`.
pub open spec fn snapshot_row_of(row: SnapshotRow, s: SnapshotInfo) -> bool {
    &&& row.name@ == s.name@
    &&& row.description@ == match s.description {
        Some(d) => d@,
        None => "No description"@,
    }
    &&& row.created@ == created_text(s.snaptime)
}

/// No snapshot listing holds the entry named `current`.
pub proof fn lemma_listing_excludes_current(s: Seq<SnapshotInfo>)
    ensures
        forall|i: int|
            0 <= i < listed_snapshots(s).len() ==> (#[trigger] listed_snapshots(s)[i]).name@
                != "current"@,
    decreases s.len(),
{
    if s.len() > 0 {
        lemma_listing_excludes_current(s.drop_last());
    }
}

/// The creation time of a listing from the formatted time, where there is one.
pub fn created_label(formatted: Option<String>) -> (r: String)
    ensures
        r@ == match formatted {
            Some(s) => s@,
            None => "Unknown"@,
        },
{
    match formatted {
        Some(s) => s,
        None => String::from_str("Unknown"),
    }
}

fn snapshot_time_label(snaptime: Option<i64>) -> (r: String)
    ensures
        r@ == created_text(snaptime),
{
    match snaptime {
        Some(t) => created_label(format_utc(t)),
        None => String::from_str("Unknown"),
    }
}

/// What a snapshot creation sends.
pub struct SnapshotRequest {
    pub snapname: String,
    pub description: String,
    /// `Some(1)` to include the machine's memory state; left out otherwise.
    pub vmstate: Option<u8>,
}

/// One virtual machine of the inventory, as the listing reads it.
pub struct VmResource {
    pub node: String,
    pub vmid: u32,
    pub name: Option<String>,
    pub status: String,
}

/// One line of a virtual machine listing.
pub struct VmRow {
    pub vmid: u32,
    pub name: String,
    pub node: String,
    pub status: String,
}

/// Whether a listing filtered to `filter` shows `r`.
pub open spec fn vm_selected(r: VmResource, filter: Option<Seq<char>>) -> bool {
    match filter {
        Some(n) => r.node@ == n,
        None => true,
    }
}

/// The entries that a listing filtered to `filter` shows, in order.
pub open spec fn selected_vms(rs: Seq<VmResource>, filter: Option<Seq<char>>) -> Seq<VmResource>
    decreases rs.len(),
{
    if rs.len() == 0 {
        Seq::empty()
    } else {
        let rest = selected_vms(rs.drop_last(), filter);
        if vm_selected(rs.last(), filter) {
            rest.push(rs.last())
        } else {
            rest
        }
    }
}

/// The line that a listing shows for `r`; a missing name shows as `-`.
pub open spec fn vm_row_of(row: VmRow, r: VmResource) -> bool {
    &&& row.vmid == r.vmid
    &&& row.name@ == match r.name {
        Some(n) => n@,
        None => "-"@,
    }
    &&& row.node@ == r.node@
    &&& row.status@ == r.status@
}

/// The fields of a current-status document that the reports read; each may
/// be missing without affecting the others.
pub struct VmStatusDoc {
    pub name: Option<String>,
    pub status: Option<String>,
    pub mem: Option<u64>,
    pub maxmem: Option<u64>,
    pub uptime: Option<u64>,
}

/// Memory use in whole mebibytes, and as a percentage.
pub struct MemoryUsage {
    pub used_mb: u64,
    pub max_mb: u64,
    /// Tenths of a percent, to the nearest (halves up); none where the
    /// maximum is zero.
    pub percent_tenths: Option<u128>,
}

/// `used / max * 100` in tenths of a percent, to the nearest, halves up.
pub open spec fn percent_tenths_spec(used: nat, max: nat) -> nat
    recommends
        max > 0,
{
    (used * 2000 + max) / (2 * max)
}

/// Uptime split into days, hours and minutes.
pub struct Uptime {
    pub days: u64,
    pub hours: u64,
    pub minutes: u64,
}

/// What the info report shows of a virtual machine.
pub struct VmInfo {
    pub node: String,
    pub vmid: u32,
    pub name: Option<String>,
    pub status: Option<String>,
    pub memory: Option<MemoryUsage>,
}

/// What the status check shows of a virtual machine.
pub struct VmStatusReport {
    pub vmid: u32,
    pub name: String,
    pub node: String,
    pub status: String,
    /// Only for a running machine whose uptime is known.
    pub uptime: Option<Uptime>,
}

/// Memory use from used and maximum bytes.
pub fn memory_usage(mem: u64, maxmem: u64) -> (r: MemoryUsage)
    ensures
        r.used_mb == mem / 1048576,
        r.max_mb == maxmem / 1048576,
        maxmem == 0 ==> r.percent_tenths is None,
        maxmem > 0 ==> r.percent_tenths == Some(
            percent_tenths_spec(mem as nat, maxmem as nat) as u128,
        ),
        maxmem > 0 && mem <= maxmem ==> r.percent_tenths->0 <= 1000,
{
    let percent_tenths = if maxmem == 0 {
        None
    } else {
        let m = mem as u128;
        let x = maxmem as u128;
        assert(m * 2000 + x <= 0xffff_ffff_ffff_ffffu128 * 2001) by (nonlinear_arith)
            requires
                m <= 0xffff_ffff_ffff_ffffu128,
                x <= 0xffff_ffff_ffff_ffffu128,
        ;
        let p = (m * 2000 + x) / (2 * x);
        proof {
            if mem <= maxmem {
                assert((m * 2000 + x) / (2 * x) <= 1000) by (nonlinear_arith)
                    requires
                        m <= x,
                        x > 0,
                ;
            }
        }
        Some(p)
    };
    MemoryUsage { used_mb: mem / 1048576, max_mb: maxmem / 1048576, percent_tenths }
}

/// Splits an uptime in seconds into whole days, hours of the day and minutes
/// of the hour.
pub fn uptime_parts(uptime: u64) -> (r: Uptime)
    ensures
        r.days == uptime / 86400,
        r.hours == (uptime % 86400) / 3600,
        r.minutes == (uptime % 3600) / 60,
        r.hours < 24 && r.minutes < 60,
{
    Uptime { days: uptime / 86400, hours: (uptime % 86400) / 3600, minutes: (uptime % 3600) / 60 }
}

/// The snapshot and virtual machine operations over one connection.
pub struct SnapshotManager {
    pub client: ProxmoxClient,
    pub cluster: ClusterManager,
}

impl SnapshotManager {
    pub fn new(client: ProxmoxClient) -> (r: SnapshotManager)
        ensures
            r.client == client,
    {
        let cluster = ClusterManager::new(client.clone());
        SnapshotManager { client, cluster }
    }

    /// The request that creates a snapshot, given the local time written
    /// compactly and readably: the name defaults to `snapshot-` and the
    /// compact time, the description to `Snapshot created on ` and the
    /// readable time, and the memory state is asked for only when `vmstate`.
    pub fn snapshot_request(
        snapname: Option<String>,
        description: Option<String>,
        vmstate: bool,
        compact_now: &str,
        readable_now: &str,
    ) -> (r: SnapshotRequest)
        ensures
            r.snapname@ == match snapname {
                Some(n) => n@,
                None => "snapshot-"@ + compact_now@,
            },
            r.description@ == match description {
                Some(d) => d@,
                None => "Snapshot created on "@ + readable_now@,
            },
            r.vmstate == if vmstate {
                Some(1u8)
            } else {
                None::<u8>
            },
    {
        let snapname = match snapname {
            Some(n) => n,
            None => {
                let mut s = String::from_str("snapshot-");
                s.append(compact_now);
                s
            },
        };
        let description = match description {
            Some(d) => d,
            None => {
                let mut s = String::from_str("Snapshot created on ");
                s.append(readable_now);
                s
            },
        };
        let vmstate = if vmstate {
            Some(1u8)
        } else {
            None
        };
        SnapshotRequest { snapname, description, vmstate }
    }

    /// The request that creates a snapshot now (see `snapshot_request`; the
    /// local time is read only for the defaults that need it).
    pub fn create_snapshot(snapname: Option<String>, description: Option<String>, vmstate: bool) -> (r:
        SnapshotRequest)
        ensures
            match snapname {
                Some(n) => r.snapname@ == n@,
                None => exists|t: Seq<char>| r.snapname@ == "snapshot-"@ + t,
            },
            match description {
                Some(d) => r.description@ == d@,
                None => exists|t: Seq<char>| r.description@ == "Snapshot created on "@ + t,
            },
            r.vmstate == if vmstate {
                Some(1u8)
            } else {
                None::<u8>
            },
    {
        let compact = if snapname.is_none() {
            local_now_text("%Y%m%d-%H%M%S")
        } else {
            String::new()
        };
        let readable = if description.is_none() {
            local_now_text("%Y-%m-%d %H:%M:%S")
        } else {
            String::new()
        };
        let r = SnapshotManager::snapshot_request(
            snapname,
            description,
            vmstate,
            compact.as_str(),
            readable.as_str(),
        );
        proof {
            if snapname is None {
                assert(r.snapname@ == "snapshot-"@ + compact@);
            }
            if description is None {
                assert(r.description@ == "Snapshot created on "@ + readable@);
            }
        }
        r
    }

    /// Where a snapshot is deleted.
    pub fn delete_snapshot(node: &str, vmid: u32, snapname: &str) -> (r: String)
        ensures
            r@ == snapshot_path_spec(node@, vmid as nat, snapname@),
    {
        snapshot_path(node, vmid, snapname)
    }

    /// Where a rollback to a snapshot is asked for.
    pub fn rollback_snapshot(node: &str, vmid: u32, snapname: &str) -> (r: String)
        ensures
            r@ == rollback_path_spec(node@, vmid as nat, snapname@),
    {
        rollback_path(node, vmid, snapname)
    }

    /// The lines of a snapshot listing: every entry but `current`, in order,
    /// with its description (`No description` where none) and creation time
    /// (`Unknown` where none or out of range).
    pub fn list_snapshots(snapshots: &Vec<SnapshotInfo>) -> (r: Vec<SnapshotRow>)
        ensures
            r@.len() == listed_snapshots(snapshots@).len(),
            forall|i: int|
                0 <= i < r@.len() ==> snapshot_row_of(
                    #[trigger] r@[i],
                    listed_snapshots(snapshots@)[i],
                ),
            forall|i: int| 0 <= i < r@.len() ==> (#[trigger] r@[i]).name@ != "current"@,
    {
        let mut out: Vec<SnapshotRow> = Vec::new();
        let mut i: usize = 0;
        while i < snapshots.len()
            invariant
                i <= snapshots@.len(),
                out@.len() == listed_snapshots(snapshots@.subrange(0, i as int)).len(),
                forall|k: int|
                    0 <= k < out@.len() ==> snapshot_row_of(
                        #[trigger] out@[k],
                        listed_snapshots(snapshots@.subrange(0, i as int))[k],
                    ),
            decreases snapshots@.len() - i,
        {
            let ghost pre = snapshots@.subrange(0, i as int);
            let ghost next = snapshots@.subrange(0, i + 1);
            assert(next.drop_last() =~= pre);
            assert(next.last() == snapshots@[i as int]);
            let snap = &snapshots[i];
            if !str_eq(snap.name.as_str(), "current") {
                let description = match &snap.description {
                    Some(d) => d.clone(),
                    None => String::from_str("No description"),
                };
                let row = SnapshotRow {
                    name: snap.name.clone(),
                    description,
                    created: snapshot_time_label(snap.snaptime),
                };
                out.push(row);
            }
            i = i + 1;
        }
        assert(snapshots@.subrange(0, snapshots@.len() as int) =~= snapshots@);
        proof {
            lemma_listing_excludes_current(snapshots@);
        }
        out
    }

    /// The info report: node and id, name and status where known, and memory
    /// use where both used and maximum memory are known.
    pub fn show_vm_info(node: &str, vmid: u32, doc: &VmStatusDoc) -> (r: VmInfo)
        ensures
            r.node@ == node@,
            r.vmid == vmid,
            r.name == doc.name,
            r.status == doc.status,
            match (doc.mem, doc.maxmem) {
                (Some(m), Some(x)) => r.memory matches Some(u) && u.used_mb == m / 1048576
                    && u.max_mb == x / 1048576 && (x == 0 ==> u.percent_tenths is None) && (x > 0
                    ==> u.percent_tenths == Some(percent_tenths_spec(m as nat, x as nat) as u128)),
                _ => r.memory is None,
            },
    {
        let memory = match (doc.mem, doc.maxmem) {
            (Some(m), Some(x)) => Some(memory_usage(m, x)),
            _ => None,
        };
        VmInfo {
            node: String::from_str(node),
            vmid,
            name: copy_opt_string(&doc.name),
            status: copy_opt_string(&doc.status),
            memory,
        }
    }

    /// The status check: name (`Unknown` where missing), status (`unknown`
    /// where missing), and the uptime split up only for a running machine.
    pub fn check_vm_status(node: &str, vmid: u32, doc: &VmStatusDoc) -> (r: VmStatusReport)
        ensures
            r.vmid == vmid,
            r.node@ == node@,
            r.name@ == match doc.name {
                Some(n) => n@,
                None => "Unknown"@,
            },
            r.status@ == match doc.status {
                Some(s) => s@,
                None => "unknown"@,
            },
            match doc.uptime {
                Some(u) => if r.status@ == "running"@ {
                    r.uptime matches Some(p) && p.days == u / 86400 && p.hours == (u % 86400)
                        / 3600 && p.minutes == (u % 3600) / 60
                } else {
                    r.uptime is None
                },
                None => r.uptime is None,
            },
    {
        let name = match &doc.name {
            Some(n) => n.clone(),
            None => String::from_str("Unknown"),
        };
        let status = match &doc.status {
            Some(s) => s.clone(),
            None => String::from_str("unknown"),
        };
        let uptime = if str_eq(status.as_str(), "running") {
            match doc.uptime {
                Some(u) => Some(uptime_parts(u)),
                None => None,
            }
        } else {
            None
        };
        VmStatusReport { vmid, name, node: String::from_str(node), status, uptime }
    }

    /// The lines of a virtual machine listing, restricted to one node when a
    /// filter is given (exact match); an empty result is no error.
    pub fn list_vms(resources: &Vec<VmResource>, node_filter: Option<&str>) -> (r: Vec<VmRow>)
        ensures
            r@.len() == selected_vms(
                resources@,
                match node_filter {
                    Some(n) => Some(n@),
                    None => None,
                },
            ).len(),
            forall|i: int|
                0 <= i < r@.len() ==> vm_row_of(
                    #[trigger] r@[i],
                    selected_vms(
                        resources@,
                        match node_filter {
                            Some(n) => Some(n@),
                            None => None,
                        },
                    )[i],
                ),
    {
        let ghost filter = match node_filter {
            Some(n) => Some(n@),
            None => None,
        };
        let mut out: Vec<VmRow> = Vec::new();
        let mut i: usize = 0;
        while i < resources.len()
            invariant
                i <= resources@.len(),
                filter == match node_filter {
                    Some(n) => Some(n@),
                    None => None::<Seq<char>>,
                },
                out@.len() == selected_vms(resources@.subrange(0, i as int), filter).len(),
                forall|k: int|
                    0 <= k < out@.len() ==> vm_row_of(
                        #[trigger] out@[k],
                        selected_vms(resources@.subrange(0, i as int), filter)[k],
                    ),
            decreases resources@.len() - i,
        {
            let ghost pre = resources@.subrange(0, i as int);
            let ghost next = resources@.subrange(0, i + 1);
            assert(next.drop_last() =~= pre);
            assert(next.last() == resources@[i as int]);
            let vm = &resources[i];
            let keep = match node_filter {
                Some(n) => str_eq(vm.node.as_str(), n),
                None => true,
            };
            if keep {
                let name = match &vm.name {
                    Some(n) => n.clone(),
                    None => String::from_str("-"),
                };
                let row = VmRow {
                    vmid: vm.vmid,
                    name,
                    node: vm.node.clone(),
                    status: vm.status.clone(),
                };
                out.push(row);
            }
            i = i + 1;
        }
        assert(resources@.subrange(0, resources@.len() as int) =~= resources@);
        out
    }
}

} // verus!
