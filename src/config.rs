//! Connection settings as a configuration file gives them, and the choice of
//! the cluster to connect to.
use vstd::prelude::*;

use crate::text::{copy_opt_string, opt_view, str_eq};

verus! {

/// The settings of one cluster: its candidate hosts, tried in order, and
/// what overrides the general settings.
pub struct ClusterConfig {
    pub hosts: Vec<String>,
    pub port: Option<u16>,
    pub token: Option<String>,
    pub verify_ssl: Option<bool>,
}

/// The contents of a `ClusterConfig`.
pub struct ClusterSettings {
    pub hosts: Seq<Seq<char>>,
    pub port: Option<u16>,
    pub token: Option<Seq<char>>,
    pub verify_ssl: Option<bool>,
}

impl View for ClusterConfig {
    type V = ClusterSettings;

    open spec fn view(&self) -> ClusterSettings {
        ClusterSettings {
            hosts: self.hosts@.map_values(|h: String| h@),
            port: self.port,
            token: opt_view(self.token),
            verify_ssl: self.verify_ssl,
        }
    }
}

impl ClusterConfig {
    /// A copy with the same contents.
    pub fn duplicate(&self) -> (r: ClusterConfig)
        ensures
            r@ == self@,
    {
        let mut hosts: Vec<String> = Vec::new();
        let mut i: usize = 0;
        while i < self.hosts.len()
            invariant
                i <= self.hosts@.len(),
                hosts@.len() == i,
                forall|k: int| 0 <= k < i ==> (#[trigger] hosts@[k])@ == self.hosts@[k]@,
            decreases self.hosts@.len() - i,
        {
            hosts.push(self.hosts[i].clone());
            i = i + 1;
        }
        let r = ClusterConfig {
            hosts,
            port: self.port,
            token: copy_opt_string(&self.token),
            verify_ssl: self.verify_ssl,
        };
        assert(r@.hosts =~= self@.hosts);
        r
    }
}

/// The settings of the first cluster in `cs` called `name`.
pub open spec fn cluster_named(cs: Seq<(String, ClusterConfig)>, name: Seq<char>) -> Option<
    ClusterSettings,
>
    decreases cs.len(),
{
    if cs.len() == 0 {
        None
    } else if cs[0].0@ == name {
        Some(cs[0].1@)
    } else {
        cluster_named(cs.drop_first(), name)
    }
}

/// The settings of an optional cluster.
pub open spec fn opt_settings(c: Option<ClusterConfig>) -> Option<ClusterSettings> {
    match c {
        Some(c) => Some(c@),
        None => None,
    }
}

/// The settings of a configuration file; every one may be missing.
pub struct Config {
    pub host: Option<String>,
    pub port: Option<u16>,
    pub token: Option<String>,
    pub node: Option<String>,
    pub verify_ssl: Option<bool>,
    /// Named clusters, each name at most once, in the order given.
    pub clusters: Option<Vec<(String, ClusterConfig)>>,
}

impl Config {
    /// Each cluster name occurs at most once.
    pub open spec fn wf(&self) -> bool {
        match self.clusters {
            Some(cs) => forall|i: int, j: int|
                0 <= i < j < cs@.len() ==> (#[trigger] cs@[i]).0@ != (#[trigger] cs@[j]).0@,
            None => true,
        }
    }

    /// The settings of the cluster to connect to: the one called `name` when
    /// a name is given (none if there is no such cluster); else a cluster of
    /// the general host, port, token and certificate setting when a host is
    /// set; else the first named cluster, if any.
    pub fn get_cluster(&self, name: Option<&str>) -> (r: Option<ClusterConfig>)
        requires
            self.wf(),
        ensures
            match name {
                Some(n) => opt_settings(r) == match self.clusters {
                    Some(cs) => cluster_named(cs@, n@),
                    None => None,
                },
                None => match self.host {
                    Some(h) => opt_settings(r) == Some(
                        ClusterSettings {
                            hosts: seq![h@],
                            port: self.port,
                            token: opt_view(self.token),
                            verify_ssl: self.verify_ssl,
                        },
                    ),
                    None => match self.clusters {
                        Some(cs) => if cs@.len() > 0 {
                            opt_settings(r) == Some(cs@[0].1@)
                        } else {
                            r is None
                        },
                        None => r is None,
                    },
                },
            },
    {
        if let Some(n) = name {
            match &self.clusters {
                Some(cs) => {
                    let mut i: usize = 0;
                    assert(cs@.subrange(0, cs@.len() as int) =~= cs@);
                    while i < cs.len()
                        invariant
                            i <= cs@.len(),
                            self.clusters == Some(*cs),
                            name == Some(n),
                            cluster_named(cs@, n@) == cluster_named(
                                cs@.subrange(i as int, cs@.len() as int),
                                n@,
                            ),
                        decreases cs@.len() - i,
                    {
                        let ghost rest = cs@.subrange(i as int, cs@.len() as int);
                        assert(rest.drop_first() =~= cs@.subrange(i + 1, cs@.len() as int));
                        assert(rest[0] == cs@[i as int]);
                        if str_eq(cs[i].0.as_str(), n) {
                            return Some(cs[i].1.duplicate());
                        }
                        i = i + 1;
                    }
                    None
                },
                None => None,
            }
        } else if let Some(host) = &self.host {
            let mut hosts: Vec<String> = Vec::new();
            hosts.push(host.clone());
            let r = ClusterConfig {
                hosts,
                port: self.port,
                token: copy_opt_string(&self.token),
                verify_ssl: self.verify_ssl,
            };
            assert(r@.hosts =~= seq![host@]);
            Some(r)
        } else if let Some(cs) = &self.clusters {
            if cs.len() > 0 {
                Some(cs[0].1.duplicate())
            } else {
                None
            }
        } else {
            None
        }
    }
}

impl Default for Config {
    fn default() -> (r: Config)
        ensures
            r.host is None && r.port is None && r.token is None && r.node is None
                && r.verify_ssl is None && r.clusters is None,
    {
        Config { host: None, port: None, token: None, node: None, verify_ssl: None, clusters: None }
    }
}

} // verus!
