//! Virtual-host resolution: given the configurations sharing one listening
//! port and the request's `Host` header, pick the configuration that
//! applies. A trailing `:port` suffix naming the group's own port is
//! stripped first; an exact match on a listed host name wins, then the
//! group's catch-all default; with neither, no response is sent and the
//! connection closes.

use vstd::prelude::*;
use vstd::string::StringExecFns;
use crate::config::ServerConfig;
use crate::text::{contains_str, dec_chars, dec_string, ends_with, in_str_list, str_ends_with};

verus! {

/// `host` with a trailing `:port` (this group's own port) removed.
pub open spec fn strip_port(host: Seq<char>, port: u16) -> Seq<char> {
    let suffix = seq![':'] + dec_chars(port as nat);
    if ends_with(host, suffix) {
        host.subrange(0, host.len() - suffix.len())
    } else {
        host
    }
}

/// Strips a trailing `:port` suffix from a host header value.
pub fn strip_port_suffix(host: &str, port: u16) -> (r: String)
    ensures
        r@ == strip_port(host@, port),
{
    let mut suf: String = ":".to_owned();
    suf.append(dec_string(port as u64).as_str());
    proof {
        reveal_strlit(":");
        assert(suf@ =~= seq![':'] + dec_chars(port as nat));
    }
    let hlen = host.unicode_len();
    let slen = suf.as_str().unicode_len();
    if str_ends_with(host, suf.as_str()) {
        let r = host.substring_char(0, hlen - slen).to_owned();
        r
    } else {
        host.to_owned()
    }
}

/// The first configuration at or after `i` whose host list names `h`, or
/// `g.len()`.
pub open spec fn host_match_from(g: Seq<ServerConfig>, h: Seq<char>, i: int) -> int
    decreases g.len() - i when 0 <= i <= g.len()
{
    if i >= g.len() {
        g.len() as int
    } else if match g[i].hosts {
        Some(list) => in_str_list(list@, h),
        None => false,
    } {
        i
    } else {
        host_match_from(g, h, i + 1)
    }
}

/// The first configuration at or after `i` without a host list — the
/// group's catch-all default — or `g.len()`.
pub open spec fn default_from(g: Seq<ServerConfig>, i: int) -> int
    decreases g.len() - i when 0 <= i <= g.len()
{
    if i >= g.len() {
        g.len() as int
    } else if g[i].hosts is None {
        i
    } else {
        default_from(g, i + 1)
    }
}

/// Which member of the group serves a request with the given `Host`
/// header: the first exact host match, else the default, else none.
pub open spec fn spec_resolve(g: Seq<ServerConfig>, host: Option<Seq<char>>) -> Option<int> {
    let mi = match host {
        Some(h) => host_match_from(g, strip_port(h, g[0].listen), 0),
        None => g.len() as int,
    };
    if mi < g.len() {
        Some(mi)
    } else {
        let di = default_from(g, 0);
        if di < g.len() {
            Some(di)
        } else {
            None
        }
    }
}

/// The header value, as a character sequence.
pub open spec fn host_view(host: Option<&String>) -> Option<Seq<char>> {
    match host {
        Some(h) => Some(h@),
        None => None,
    }
}

/// Resolves the `Host` header against a port group; `None` means no
/// configuration applies and the connection is closed without a response.
pub fn resolve_host(group: &Vec<ServerConfig>, host: Option<&String>) -> (r: Option<usize>)
    requires
        group@.len() > 0,
    ensures
        r is Some ==> spec_resolve(group@, host_view(host)) == Some(r->Some_0 as int)
            && r->Some_0 < group@.len(),
        r is None ==> spec_resolve(group@, host_view(host)) is None,
{
    let n = group.len();
    if host.is_some() {
        let h = host.unwrap();
        let port = group[0].listen;
        let stripped = strip_port_suffix(h.as_str(), port);
        let mut i: usize = 0;
        while i < n
            invariant
                i <= n,
                n == group@.len(),
                n > 0,
                host_view(host) == Some(h@),
                stripped@ == strip_port(h@, group@[0].listen),
                host_match_from(group@, stripped@, 0) == host_match_from(
                    group@,
                    stripped@,
                    i as int,
                ),
            decreases n - i,
        {
            let matched = match &group[i].hosts {
                Some(list) => contains_str(list, stripped.as_str()),
                None => false,
            };
            if matched {
                assert(host_match_from(group@, stripped@, i as int) == i);
                return Some(i);
            }
            i = i + 1;
        }
    }
    let mut i: usize = 0;
    while i < n
        invariant
            i <= n,
            n == group@.len(),
            n > 0,
            match host {
                Some(h) => host_match_from(group@, strip_port(h@, group@[0].listen), 0)
                    == n,
                None => true,
            },
            default_from(group@, 0) == default_from(group@, i as int),
        decreases n - i,
    {
        let is_default = match &group[i].hosts {
            Some(_) => false,
            None => true,
        };
        if is_default {
            assert(default_from(group@, i as int) == i);
            return Some(i);
        }
        i = i + 1;
    }
    None
}

} // verus!
