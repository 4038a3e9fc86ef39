//! The connection settings of the management API: base URL, token, and the
//! HTTP client that requests go through.
use vstd::prelude::*;
use vstd::string::*;

use crate::error::PveError;
use crate::text::{
    copy_opt_string, decimal, decimal_string, find_char, first_index_of, parse_unsigned,
    parse_unsigned_spec,
};

verus! {

#[verifier::external_type_specification]
#[verifier::external_body]
pub struct ExHttpClient(reqwest::Client);

/// Relies on reqwest's `Client::clone`: a handle onto the same client.
pub assume_specification[ <reqwest::Client as Clone>::clone ](c: &reqwest::Client) -> reqwest::Client;

/// Relies on reqwest's `ClientBuilder`: `danger_accept_invalid_certs` sets
/// whether invalid certificates are accepted, and `build` makes the client or
/// reports why it could not.
#[verifier::external_body]
fn build_http_client(accept_invalid_certs: bool) -> (r: Result<reqwest::Client, reqwest::Error>) {
    reqwest::Client::builder().danger_accept_invalid_certs(accept_invalid_certs).build()
}

/// The API root on `host` at `port`.
pub open spec fn api_base_url(host: Seq<char>, port: nat) -> Seq<char> {
    "https://"@ + host + ":"@ + decimal(port) + "/api2/json"@
}

/// How a host entry splits into host and port: at its first `:`, when what
/// follows is a port number; otherwise the whole entry with the default port.
pub open spec fn host_port(entry: Seq<char>, default_port: u16) -> (Seq<char>, u16) {
    match first_index_of(entry, ':') {
        Some(i) => match parse_unsigned_spec(entry.subrange(i + 1, entry.len() as int), 65535) {
            Some(p) => (entry.subrange(0, i), p as u16),
            None => (entry, default_port),
        },
        None => (entry, default_port),
    }
}

/// The API root for a host entry.
pub open spec fn entry_base_url(entry: Seq<char>, default_port: u16) -> Seq<char> {
    api_base_url(host_port(entry, default_port).0, host_port(entry, default_port).1 as nat)
}

/// Writes the API root on `host` at `port`.
pub fn base_url_for(host: &str, port: u16) -> (r: String)
    ensures
        r@ == api_base_url(host@, port as nat),
{
    let mut s = String::from_str("https://");
    s.append(host);
    s.append(":");
    let p = decimal_string(port as u64);
    s.append(p.as_str());
    s.append("/api2/json");
    s
}

/// Where requests go, with what token, through which HTTP client.
#[derive(Clone)]
pub struct ProxmoxClient {
    pub base_url: String,
    pub token: Option<String>,
    pub http: reqwest::Client,
}

impl ProxmoxClient {
    /// A client for `host` at `port`; it checks certificates only when
    /// `verify_ssl` holds. Fails only when the HTTP client cannot be built.
    pub fn new(host: &str, port: u16, token: Option<String>, verify_ssl: bool) -> (r: Result<
        ProxmoxClient,
        PveError,
    >)
        ensures
            match r {
                Ok(c) => c.base_url@ == api_base_url(host@, port as nat) && c.token == token,
                Err(e) => e is Http,
            },
    {
        let base_url = base_url_for(host, port);
        match build_http_client(!verify_ssl) {
            Ok(http) => Ok(ProxmoxClient { base_url, token, http }),
            Err(e) => Err(PveError::Http(e)),
        }
    }

    /// Splits a host entry into host and port (see `host_port`).
    pub fn parse_host_port(host: &str, default_port: u16) -> (r: (String, u16))
        ensures
            (r.0@, r.1) == host_port(host@, default_port),
    {
        match find_char(host, ':') {
            Some(i) => {
                let n = host.unicode_len();
                let rest = host.substring_char(i + 1, n);
                match parse_unsigned(rest, 65535) {
                    Some(p) => {
                        let h = host.substring_char(0, i);
                        (String::from_str(h), p as u16)
                    },
                    None => (String::from_str(host), default_port),
                }
            },
            None => (String::from_str(host), default_port),
        }
    }

    /// One client per host entry, in the order given, all sharing one HTTP
    /// client and the token; a caller probes them in turn and keeps the first
    /// that answers. Fails only when the HTTP client cannot be built.
    pub fn fallback_candidates(
        hosts: &Vec<String>,
        default_port: u16,
        token: Option<String>,
        verify_ssl: bool,
    ) -> (r: Result<Vec<ProxmoxClient>, PveError>)
        ensures
            match r {
                Ok(cs) => cs@.len() == hosts@.len() && forall|i: int|
                    0 <= i < cs@.len() ==> (#[trigger] cs@[i]).base_url@ == entry_base_url(
                        hosts@[i]@,
                        default_port,
                    ) && cs@[i].token == token,
                Err(e) => e is Http,
            },
    {
        let http = match build_http_client(!verify_ssl) {
            Ok(h) => h,
            Err(e) => {
                return Err(PveError::Http(e));
            },
        };
        let mut cs: Vec<ProxmoxClient> = Vec::new();
        let mut i: usize = 0;
        while i < hosts.len()
            invariant
                i <= hosts@.len(),
                cs@.len() == i,
                forall|k: int|
                    0 <= k < i ==> (#[trigger] cs@[k]).base_url@ == entry_base_url(
                        hosts@[k]@,
                        default_port,
                    ) && cs@[k].token == token,
            decreases hosts@.len() - i,
        {
            let (h, p) = ProxmoxClient::parse_host_port(hosts[i].as_str(), default_port);
            let base_url = base_url_for(h.as_str(), p);
            let c = ProxmoxClient { base_url, token: copy_opt_string(&token), http: http.clone() };
            cs.push(c);
            i = i + 1;
        }
        Ok(cs)
    }
}

} // verus!
