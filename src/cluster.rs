//! Resolving a virtual machine identifier to the node that hosts it, and the
//! node listing of a cluster-status document.
use vstd::prelude::*;

use crate::client::ProxmoxClient;
use crate::error::PveError;
use crate::text::{copy_opt_string, parse_unsigned, parse_unsigned_spec, str_eq};

verus! {

/// One virtual machine entry of the cluster-wide resource inventory.
pub struct ClusterResource {
    pub node: String,
    pub vmid: u32,
    pub name: Option<String>,
    pub resource_type: String,
}

/// Whether `r` carries exactly the name `id`.
pub open spec fn has_name(r: ClusterResource, id: Seq<char>) -> bool {
    match r.name {
        Some(n) => n@ == id,
        None => false,
    }
}

/// `i` is the first entry whose id is `v`.
pub open spec fn first_with_vmid(rs: Seq<ClusterResource>, v: nat, i: int) -> bool {
    &&& 0 <= i < rs.len()
    &&& rs[i].vmid == v
    &&& forall|j: int| 0 <= j < i ==> rs[j].vmid != v
}

/// `i` is the first entry named `id`.
pub open spec fn first_with_name(rs: Seq<ClusterResource>, id: Seq<char>, i: int) -> bool {
    &&& 0 <= i < rs.len()
    &&& has_name(rs[i], id)
    &&& forall|j: int| 0 <= j < i ==> !has_name(rs[j], id)
}

/// Whether `id` reads as a vm id that some entry carries.
pub open spec fn numeric_hit(rs: Seq<ClusterResource>, id: Seq<char>) -> bool {
    let p = parse_unsigned_spec(id, u32::MAX as nat);
    p is Some && exists|k: int| 0 <= k < rs.len() && rs[k].vmid == p->0
}

/// `i` is the entry that `id` resolves to: the first with that id when `id`
/// reads as an id that some entry carries, else the first with that name.
pub open spec fn resolves_to(rs: Seq<ClusterResource>, id: Seq<char>, i: int) -> bool {
    if numeric_hit(rs, id) {
        first_with_vmid(rs, parse_unsigned_spec(id, u32::MAX as nat)->0, i)
    } else {
        first_with_name(rs, id, i)
    }
}

/// The node and id that `id` resolves to in `rs`, if any entry matches.
pub open spec fn resolution(rs: Seq<ClusterResource>, id: Seq<char>) -> Option<(Seq<char>, u32)> {
    if exists|i: int| resolves_to(rs, id, i) {
        let i = choose|i: int| resolves_to(rs, id, i);
        Some((rs[i].node@, rs[i].vmid))
    } else {
        None
    }
}

proof fn lemma_resolution_at(rs: Seq<ClusterResource>, id: Seq<char>, i: int)
    requires
        resolves_to(rs, id, i),
    ensures
        resolution(rs, id) == Some((rs[i].node@, rs[i].vmid)),
{
    let k = choose|k: int| resolves_to(rs, id, k);
    assert(resolves_to(rs, id, k));
    if k < i {
    } else if i < k {
    }
    assert(k == i);
}

/// An identifier that reads as the id of an entry resolves to that entry,
/// whatever other entry carries the same text as its name (given that no other
/// entry shares the id).
pub proof fn lemma_numeric_identifier_wins(rs: Seq<ClusterResource>, id: Seq<char>, i: int)
    requires
        0 <= i < rs.len(),
        parse_unsigned_spec(id, u32::MAX as nat) == Some(rs[i].vmid as nat),
        forall|j: int| 0 <= j < rs.len() && j != i ==> rs[j].vmid != rs[i].vmid,
    ensures
        resolution(rs, id) == Some((rs[i].node@, rs[i].vmid)),
{
    assert(numeric_hit(rs, id));
    assert(resolves_to(rs, id, i));
    lemma_resolution_at(rs, id, i);
}

/// An identifier that matches no entry, neither as an id nor as a name,
/// resolves to nothing.
pub proof fn lemma_unmatched_identifier_fails(rs: Seq<ClusterResource>, id: Seq<char>)
    requires
        forall|k: int|
            0 <= k < rs.len() ==> Some(#[trigger] rs[k].vmid as nat) != parse_unsigned_spec(
                id,
                u32::MAX as nat,
            ),
        forall|k: int| 0 <= k < rs.len() ==> !has_name(#[trigger] rs[k], id),
    ensures
        resolution(rs, id) is None,
{
    assert(!numeric_hit(rs, id));
    assert forall|i: int| !resolves_to(rs, id, i) by {
        if 0 <= i < rs.len() {
            assert(!has_name(rs[i], id));
        }
    }
}

/// One line of a node listing: the node's name and status.
pub struct NodeLine {
    pub name: String,
    pub status: String,
}

/// One entry of the cluster-status document.
pub struct NodeInfo {
    pub node: Option<String>,
    pub name: Option<String>,
    pub node_type: String,
    pub status: Option<String>,
}

/// The display name of a cluster-status entry: `node`, else `name`.
pub open spec fn node_display_name(n: NodeInfo) -> Option<Seq<char>> {
    match n.node {
        Some(s) => Some(s@),
        None => match n.name {
            Some(s) => Some(s@),
            None => None,
        },
    }
}

/// Whether a cluster-status entry is listed: it is a node and has a name.
pub open spec fn node_listed(n: NodeInfo) -> bool {
    n.node_type@ == "node"@ && node_display_name(n) is Some
}

/// The line of a listed entry; the status defaults to `unknown`.
pub open spec fn node_line_of(l: NodeLine, n: NodeInfo) -> bool {
    &&& Some(l.name@) == node_display_name(n)
    &&& l.status@ == match n.status {
        Some(s) => s@,
        None => "unknown"@,
    }
}

/// The entries of `items` that are listed, in order.
pub open spec fn listed_nodes(items: Seq<NodeInfo>) -> Seq<NodeInfo>
    decreases items.len(),
{
    if items.len() == 0 {
        Seq::empty()
    } else {
        let rest = listed_nodes(items.drop_last());
        if node_listed(items.last()) {
            rest.push(items.last())
        } else {
            rest
        }
    }
}

/// Looks up nodes through the cluster inventory.
pub struct ClusterManager {
    pub client: ProxmoxClient,
}

impl ClusterManager {
    pub fn new(client: ProxmoxClient) -> (r: ClusterManager)
        ensures
            r.client == client,
    {
        ClusterManager { client }
    }

    /// The node and id of the virtual machine that `vm_identifier` names in
    /// `resources`: by id first, when the identifier reads as one that some
    /// entry carries, else by exact name. Fails with `NotFound` carrying the
    /// identifier exactly when neither matches.
    pub fn find_vm_node(resources: &Vec<ClusterResource>, vm_identifier: &str) -> (r: Result<
        (String, u32),
        PveError,
    >)
        ensures
            match r {
                Ok((node, vmid)) => resolution(resources@, vm_identifier@) == Some(
                    (node@, vmid),
                ),
                Err(e) => resolution(resources@, vm_identifier@) is None && (e matches PveError::NotFound(s) && s@ == vm_identifier@),
            },
    {
        let ghost rs = resources@;
        let ghost id = vm_identifier@;
        let parsed = parse_unsigned(vm_identifier, 4294967295);
        if let Some(v) = parsed {
            let mut i: usize = 0;
            while i < resources.len()
                invariant
                    i <= rs.len(),
                    rs == resources@,
                    id == vm_identifier@,
                    parse_unsigned_spec(id, u32::MAX as nat) == Some(v as nat),
                    forall|k: int| 0 <= k < i ==> rs[k].vmid != v,
                decreases rs.len() - i,
            {
                if resources[i].vmid as u64 == v {
                    assert(numeric_hit(rs, id));
                    assert(resolves_to(rs, id, i as int));
                    proof {
                        lemma_resolution_at(rs, id, i as int);
                    }
                    return Ok((resources[i].node.clone(), resources[i].vmid));
                }
                i = i + 1;
            }
            assert(!numeric_hit(rs, id));
        }
        assert(!numeric_hit(rs, id));
        let mut i: usize = 0;
        while i < resources.len()
            invariant
                i <= rs.len(),
                rs == resources@,
                id == vm_identifier@,
                !numeric_hit(rs, id),
                forall|k: int| 0 <= k < i ==> !has_name(#[trigger] rs[k], id),
            decreases rs.len() - i,
        {
            let hit = match &resources[i].name {
                Some(n) => str_eq(n.as_str(), vm_identifier),
                None => false,
            };
            if hit {
                assert(resolves_to(rs, id, i as int));
                proof {
                    lemma_resolution_at(rs, id, i as int);
                }
                return Ok((resources[i].node.clone(), resources[i].vmid));
            }
            i = i + 1;
        }
        assert forall|j: int| !resolves_to(rs, id, j) by {
            if 0 <= j < rs.len() {
                assert(!has_name(rs[j], id));
            }
        }
        Err(PveError::NotFound(String::from_str(vm_identifier)))
    }

    /// The node lines of a cluster-status document: its entries of type
    /// `node` that carry a name (`node`, else `name`), in order, with the
    /// status `unknown` where none is given.
    pub fn list_nodes(items: &Vec<NodeInfo>) -> (r: Vec<NodeLine>)
        ensures
            r@.len() == listed_nodes(items@).len(),
            forall|i: int|
                0 <= i < r@.len() ==> node_line_of(#[trigger] r@[i], listed_nodes(items@)[i]),
    {
        let mut out: Vec<NodeLine> = Vec::new();
        let mut i: usize = 0;
        while i < items.len()
            invariant
                i <= items@.len(),
                out@.len() == listed_nodes(items@.subrange(0, i as int)).len(),
                forall|k: int|
                    0 <= k < out@.len() ==> node_line_of(
                        #[trigger] out@[k],
                        listed_nodes(items@.subrange(0, i as int))[k],
                    ),
            decreases items@.len() - i,
        {
            let ghost pre = items@.subrange(0, i as int);
            let ghost next = items@.subrange(0, i + 1);
            assert(next.drop_last() =~= pre);
            assert(next.last() == items@[i as int]);
            let item = &items[i];
            let is_node = str_eq(item.node_type.as_str(), "node");
            let name = match &item.node {
                Some(n) => Some(n.clone()),
                None => copy_opt_string(&item.name),
            };
            if is_node {
                if let Some(name) = name {
                    let status = match &item.status {
                        Some(s) => s.clone(),
                        None => String::from_str("unknown"),
                    };
                    let line = NodeLine { name, status };
                    out.push(line);
                }
            }
            i = i + 1;
        }
        assert(items@.subrange(0, items@.len() as int) =~= items@);
        out
    }
}

} // verus!
