//! The API paths that the operations address, scoped to a node and a vm id.
use vstd::prelude::*;
use vstd::string::*;

use crate::text::{decimal, decimal_string};

verus! {

/// `/nodes/{node}/qemu/{vmid}`
pub open spec fn vm_path(node: Seq<char>, vmid: nat) -> Seq<char> {
    "/nodes/"@ + node + "/qemu/"@ + decimal(vmid)
}

/// `/nodes/{node}/qemu/{vmid}/snapshot`
pub open spec fn snapshots_path_spec(node: Seq<char>, vmid: nat) -> Seq<char> {
    vm_path(node, vmid) + "/snapshot"@
}

/// `/nodes/{node}/qemu/{vmid}/snapshot/{name}`
pub open spec fn snapshot_path_spec(node: Seq<char>, vmid: nat, name: Seq<char>) -> Seq<char> {
    snapshots_path_spec(node, vmid) + "/"@ + name
}

/// `/nodes/{node}/qemu/{vmid}/snapshot/{name}/rollback`
pub open spec fn rollback_path_spec(node: Seq<char>, vmid: nat, name: Seq<char>) -> Seq<char> {
    snapshot_path_spec(node, vmid, name) + "/rollback"@
}

/// `/nodes/{node}/qemu/{vmid}/status/current`
pub open spec fn vm_status_path_spec(node: Seq<char>, vmid: nat) -> Seq<char> {
    vm_path(node, vmid) + "/status/current"@
}

/// `/nodes/{node}/tasks/{task}/status`
pub open spec fn task_status_path_spec(node: Seq<char>, task: Seq<char>) -> Seq<char> {
    "/nodes/"@ + node + "/tasks/"@ + task + "/status"@
}

fn vm_path_string(node: &str, vmid: u32) -> (r: String)
    ensures
        r@ == vm_path(node@, vmid as nat),
{
    let mut s = String::from_str("/nodes/");
    s.append(node);
    s.append("/qemu/");
    let id = decimal_string(vmid as u64);
    s.append(id.as_str());
    s
}

/// The list of a virtual machine's snapshots; a snapshot is created here too.
pub fn snapshots_path(node: &str, vmid: u32) -> (r: String)
    ensures
        r@ == snapshots_path_spec(node@, vmid as nat),
{
    let mut s = vm_path_string(node, vmid);
    s.append("/snapshot");
    s
}

/// One snapshot of a virtual machine; it is deleted here.
pub fn snapshot_path(node: &str, vmid: u32, name: &str) -> (r: String)
    ensures
        r@ == snapshot_path_spec(node@, vmid as nat, name@),
{
    let mut s = snapshots_path(node, vmid);
    s.append("/");
    s.append(name);
    s
}

/// Rolls a virtual machine back to one of its snapshots.
pub fn rollback_path(node: &str, vmid: u32, name: &str) -> (r: String)
    ensures
        r@ == rollback_path_spec(node@, vmid as nat, name@),
{
    let mut s = snapshot_path(node, vmid, name);
    s.append("/rollback");
    s
}

/// The current-status document of a virtual machine.
pub fn vm_status_path(node: &str, vmid: u32) -> (r: String)
    ensures
        r@ == vm_status_path_spec(node@, vmid as nat),
{
    let mut s = vm_path_string(node, vmid);
    s.append("/status/current");
    s
}

/// The status of a task, addressed through the node that issued it.
pub fn task_status_path(node: &str, task: &str) -> (r: String)
    ensures
        r@ == task_status_path_spec(node@, task@),
{
    let mut s = String::from_str("/nodes/");
    s.append(node);
    s.append("/tasks/");
    s.append(task);
    s.append("/status");
    s
}

/// The cluster-wide inventory of virtual machines.
pub fn vm_resources_path() -> (r: &'static str)
    ensures
        r@ == "/cluster/resources?type=vm"@,
{
    "/cluster/resources?type=vm"
}

} // verus!
