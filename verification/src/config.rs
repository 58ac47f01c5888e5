//! The configuration model: one `ServerConfig` per virtual host, grouped by
//! listening port. Configurations are built by an external loader and are
//! immutable afterwards; the grouping step is verified here.

use vstd::prelude::*;
use vstd::pervasive::VecAdditionalExecFns;

verus! {

/// A header field injected into every response of a virtual host.
pub struct Header {
    pub key: String,
    pub value: String,
}

/// Optional log sinks: file paths for the success and error logs.
pub struct Log {
    pub success: Option<String>,
    pub error: Option<String>,
}

/// Which optional columns a directory listing shows.
pub struct DirectoryOption {
    pub time: bool,
    pub size: bool,
}

/// The kind of a rewrite rule.
pub enum RewriteType {
    _301,
    _302,
    /// In-place path rewriting is accepted in configurations but has no
    /// effect on a request; the variant is kept as an explicit no-op.
    Path,
}

/// A rewrite rule: where to send the client, and how.
pub struct Rewrite {
    pub url: String,
    pub status: RewriteType,
}

/// Custom error-body file paths.
pub struct ErrorPage {
    pub _404: Option<String>,
    pub _500: Option<String>,
}

/// One virtual host: all options that govern how its requests are served.
pub struct ServerConfig {
    /// Accepted host names; `None` makes this the catch-all default of its
    /// port group.
    pub hosts: Option<Vec<String>>,
    pub listen: u16,
    pub root: String,
    pub methods: Vec<String>,
    pub headers: Vec<Header>,
    pub index: Option<String>,
    pub directory: Option<DirectoryOption>,
    pub auth: Option<String>,
    /// Exact request paths mapped to rewrite rules; the first entry with a
    /// matching path applies.
    pub rewrite: Vec<(String, Rewrite)>,
    /// Fallback extensions tried, in order, for an extensionless path.
    pub extensions: Option<Vec<String>>,
    pub error: ErrorPage,
    /// Extensions eligible for gzip encoding; `None` disables gzip.
    pub gzip: Option<Vec<String>>,
    pub log: Log,
}

impl Default for ServerConfig {
    /// A host that accepts nothing but `GET`-less defaults: every optional
    /// feature is off, the method list is empty.
    fn default() -> (r: ServerConfig)
        ensures
            r.hosts is None,
            r.listen == 0,
            r.root@ == Seq::<char>::empty(),
            r.methods@ == Seq::<String>::empty(),
            r.headers@ == Seq::<Header>::empty(),
            r.index is None,
            r.directory is None,
            r.auth is None,
            r.rewrite@ == Seq::<(String, Rewrite)>::empty(),
            r.extensions is None,
            r.error._404 is None,
            r.error._500 is None,
            r.gzip is None,
            r.log.success is None,
            r.log.error is None,
    {
        ServerConfig {
            hosts: None,
            listen: 0,
            root: String::new(),
            methods: Vec::new(),
            headers: Vec::new(),
            index: None,
            directory: None,
            auth: None,
            rewrite: Vec::new(),
            extensions: None,
            error: ErrorPage { _404: None, _500: None },
            gzip: None,
            log: Log { success: None, error: None },
        }
    }
}

/// The position of the first group whose members listen on `port`, at or
/// after `i`, or `gs.len()`.
pub open spec fn group_index_from(gs: Seq<Seq<ServerConfig>>, port: u16, i: int) -> int
    decreases gs.len() - i when 0 <= i <= gs.len()
{
    if i >= gs.len() {
        gs.len() as int
    } else if gs[i].len() > 0 && gs[i][0].listen == port {
        i
    } else {
        group_index_from(gs, port, i + 1)
    }
}

/// `gs` with `c` added to the group of its port, or put in a new group.
pub open spec fn add_to_groups(gs: Seq<Seq<ServerConfig>>, c: ServerConfig) -> Seq<
    Seq<ServerConfig>,
> {
    let gi = group_index_from(gs, c.listen, 0);
    if gi < gs.len() {
        gs.update(gi, gs[gi].push(c))
    } else {
        gs.push(seq![c])
    }
}

/// The groups after distributing `cs[i..]` over `acc`.
pub open spec fn groups_from(
    cs: Seq<ServerConfig>,
    i: int,
    acc: Seq<Seq<ServerConfig>>,
) -> Seq<Seq<ServerConfig>>
    decreases cs.len() - i when 0 <= i <= cs.len()
{
    if i >= cs.len() {
        acc
    } else {
        groups_from(cs, i + 1, add_to_groups(acc, cs[i]))
    }
}

/// Every group has a member, all members of a group share one port, and no
/// two groups share a port.
pub open spec fn groups_wf(gs: Seq<Seq<ServerConfig>>) -> bool {
    &&& forall|i: int| 0 <= i < gs.len() ==> #[trigger] gs[i].len() > 0
    &&& forall|i: int, j: int|
        0 <= i < gs.len() && 0 <= j < gs[i].len() ==> #[trigger] gs[i][j].listen == gs[i][0].listen
    &&& forall|i: int, j: int|
        0 <= i < j < gs.len() ==> gs[i][0].listen != gs[j][0].listen
}

proof fn lemma_group_index_found(gs: Seq<Seq<ServerConfig>>, port: u16, i: int)
    requires
        0 <= i <= gs.len(),
    ensures
        i <= group_index_from(gs, port, i) <= gs.len(),
        group_index_from(gs, port, i) < gs.len() ==> {
            let gi = group_index_from(gs, port, i);
            gs[gi].len() > 0 && gs[gi][0].listen == port
        },
        forall|j: int|
            i <= j < group_index_from(gs, port, i) && gs[j].len() > 0 ==> gs[j][0].listen != port,
    decreases gs.len() - i,
{
    if i < gs.len() && !(gs[i].len() > 0 && gs[i][0].listen == port) {
        lemma_group_index_found(gs, port, i + 1);
    }
}

/// Adding one configuration preserves well-formedness of the groups.
pub proof fn lemma_add_preserves_wf(gs: Seq<Seq<ServerConfig>>, c: ServerConfig)
    requires
        groups_wf(gs),
    ensures
        groups_wf(add_to_groups(gs, c)),
{
    lemma_group_index_found(gs, c.listen, 0);
}

/// Distributing any configurations over well-formed groups keeps them
/// well-formed: groups are never empty, members of a group share their
/// port, and ports are unique across groups.
pub proof fn lemma_groups_from_wf(cs: Seq<ServerConfig>, i: int, acc: Seq<Seq<ServerConfig>>)
    requires
        0 <= i <= cs.len(),
        groups_wf(acc),
    ensures
        groups_wf(groups_from(cs, i, acc)),
    decreases cs.len() - i,
{
    if i < cs.len() {
        lemma_add_preserves_wf(acc, cs[i]);
        lemma_groups_from_wf(cs, i + 1, add_to_groups(acc, cs[i]));
    }
}

/// The element-wise view of a vector of groups.
pub open spec fn groups_view(gs: Seq<Vec<ServerConfig>>) -> Seq<Seq<ServerConfig>> {
    Seq::new(gs.len(), |i: int| gs[i]@)
}

/// The position of the first group listening on `port`, or `groups.len()`.
fn find_group(groups: &Vec<Vec<ServerConfig>>, port: u16) -> (r: usize)
    ensures
        r == group_index_from(groups_view(groups@), port, 0),
        r <= groups@.len(),
{
    let glen = groups.len();
    let mut gi: usize = 0;
    while gi < glen
        invariant
            gi <= glen,
            glen == groups@.len(),
            group_index_from(groups_view(groups@), port, 0)
                == group_index_from(groups_view(groups@), port, gi as int),
        decreases glen - gi,
    {
        if groups[gi].len() > 0 && groups[gi][0].listen == port {
            return gi;
        }
        gi = gi + 1;
    }
    glen
}

/// Groups `configs` by listening port, in first-appearance order; the
/// result is well-formed in the sense of [`groups_wf`].
pub fn group_by_port(configs: Vec<ServerConfig>) -> (r: Vec<Vec<ServerConfig>>)
    ensures
        ({
            let g = groups_from(configs@, 0, Seq::empty());
            &&& r@.len() == g.len()
            &&& forall|i: int| 0 <= i < g.len() ==> #[trigger] r@[i]@ == g[i]
            &&& groups_wf(g)
        }),
{
    let ghost cs = configs@;
    let mut configs = configs;
    let mut groups: Vec<Vec<ServerConfig>> = Vec::new();
    let ghost mut k: int = 0;
    proof {
        assert(groups_view(groups@) =~~= Seq::<Seq<ServerConfig>>::empty());
        assert(configs@ =~= cs.skip(0));
    }
    while configs.len() > 0
        invariant
            0 <= k <= cs.len(),
            configs@ == cs.skip(k),
            groups_from(cs, 0, Seq::empty()) == groups_from(cs, k, groups_view(groups@)),
        decreases configs@.len(),
    {
        let c = configs.remove(0);
        assert(c == cs[k]);
        let ghost gv = groups_view(groups@);
        let port = c.listen;
        let gi = find_group(&groups, port);
        if gi < groups.len() {
            let mut grp: Vec<ServerConfig> = Vec::new();
            groups.set_and_swap(gi, &mut grp);
            grp.push(c);
            groups.set(gi, grp);
            assert(groups_view(groups@) =~~= add_to_groups(gv, cs[k]));
        } else {
            let mut grp: Vec<ServerConfig> = Vec::new();
            grp.push(c);
            groups.push(grp);
            assert(groups_view(groups@) =~~= add_to_groups(gv, cs[k]));
        }
        proof {
            k = k + 1;
            assert(configs@ =~= cs.skip(k));
        }
    }
    proof {
        lemma_groups_from_wf(cs, 0, Seq::empty());
    }
    groups
}

} // verus!
