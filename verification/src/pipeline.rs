//! The request pipeline: an ordered, short-circuiting sequence of policy
//! checks — method allow-list, `Host` presence, basic authentication,
//! rewrite rules, traversal rejection — followed by resource resolution.
//! Filesystem probes and socket writes happen outside; this module makes
//! every decision and builds every response, so each step is a function
//! from plain values to plain values with an exact contract.

use vstd::prelude::*;
use vstd::string::StrSliceExecFns;
use vstd::string::StringSliceAdditionalSpecFns;
use vstd::string::StringExecFns;
use crate::config::{Header, Rewrite, RewriteType, ServerConfig};
use crate::headers::map_get;
use crate::paths::{Fallback, fallback_candidates, fill_path, get_extension, spec_fill_path};
use crate::paths::{contains_dotdot, has_dotdot, has_extension, spec_extension};
use crate::request::Request;
use crate::response::{Response, StatusCode};
use crate::response::{base_entries, frame_bytes, gzip_bytes_of, mime_of};
use crate::headers::map_insert;
use crate::text::{contains_str, dec_chars, find2_in, find_two, in_str_list, str_eq};
use vstd::utf8::encode_utf8;

verus! {

/// A finished response: its wire bytes, the status for the log line, and
/// which sink the log line goes to.
pub struct Reply {
    pub bytes: Vec<u8>,
    pub status: u16,
    pub log_error: bool,
}

/// What the policy checks decided: answer immediately, or probe the
/// filesystem path the request resolves to.
pub enum Step {
    Reply(Reply),
    Probe { fs_path: String },
}

/// What a filesystem probe of the candidate path found.
pub enum Probe {
    Directory,
    File,
    Missing,
}

/// What resource resolution decided.
pub enum Action {
    Reply(Reply),
    /// Try to open the directory's configured index file.
    TryIndex { path: String, ext: String },
    /// Render a directory listing with the given optional columns.
    Listing { time: bool, size: bool },
    /// Open and serve the probed file itself.
    ServeFile { ext: String, gzip: bool },
    /// Try the fallback candidates in order; an empty list means the path
    /// already carries an extension and falls through to the 404 flow.
    Fallbacks { candidates: Vec<Fallback> },
    /// Enter the 404 flow.
    NotFound,
}

/// How an error response is produced: read a configured body file first,
/// or answer with the plain-text body at once.
pub enum ErrorStep {
    ReadFile { path: String, ext: String },
    Reply(Reply),
}

/// The request's method is in the allow-list.
pub open spec fn spec_method_ok(c: ServerConfig, r: Request) -> bool {
    in_str_list(c.methods@, r.method@)
}

/// The request carries a `Host` header.
pub open spec fn spec_has_host(r: Request) -> bool {
    map_get(r.headers.entries(), ("host")@) is Some
}

/// Authentication passes: no credential is configured, or the request's
/// `Authorization` header is byte-equal to the configured one.
pub open spec fn spec_auth_ok(c: ServerConfig, r: Request) -> bool {
    match c.auth {
        Some(a) => map_get(r.headers.entries(), ("authorization")@) == Some(a@),
        None => true,
    }
}

/// All three policy guards pass.
pub open spec fn spec_guards_ok(c: ServerConfig, r: Request) -> bool {
    spec_method_ok(c, r) && spec_has_host(r) && spec_auth_ok(c, r)
}

/// The first rewrite rule whose path equals `p`, at or after `i`.
pub open spec fn rewrite_index_from(rs: Seq<(String, Rewrite)>, p: Seq<char>, i: int) -> int
    decreases rs.len() - i when 0 <= i <= rs.len()
{
    if i >= rs.len() {
        rs.len() as int
    } else if rs[i].0@ == p {
        i
    } else {
        rewrite_index_from(rs, p, i + 1)
    }
}

pub open spec fn rewrite_index(rs: Seq<(String, Rewrite)>, p: Seq<char>) -> int {
    rewrite_index_from(rs, p, 0)
}

/// An applicable redirect rule: a rule matches the path and is not the
/// inert `Path` kind.
pub open spec fn spec_redirected(c: ServerConfig, r: Request) -> bool {
    rewrite_index(c.rewrite@, r.path@) < c.rewrite@.len() && !(c.rewrite@[rewrite_index(
        c.rewrite@,
        r.path@,
    )].1.status is Path)
}

/// The bytes of a plain-text response with the configured headers.
pub open spec fn spec_text_reply(hs: Seq<Header>, code: u16, body: Seq<char>) -> Seq<u8> {
    frame_bytes(
        code,
        map_insert(
            map_insert(base_entries(hs), ("Content-Type")@, ("text/plain")@),
            ("Content-Length")@,
            dec_chars(encode_utf8(body).len()),
        ),
        encode_utf8(body),
    )
}

/// The bytes of the 401 response: a `WWW-Authenticate` challenge and the
/// plain-text body.
pub open spec fn spec_auth_reply(hs: Seq<Header>) -> Seq<u8> {
    frame_bytes(
        401,
        map_insert(
            map_insert(
                map_insert(
                    base_entries(hs),
                    ("WWW-Authenticate")@,
                    ("Basic realm=\"User Visible Realm\"")@,
                ),
                ("Content-Type")@,
                ("text/plain")@,
            ),
            ("Content-Length")@,
            dec_chars(encode_utf8(("401")@).len()),
        ),
        encode_utf8(("401")@),
    )
}

/// The bytes of a redirect: a `location` header and no body.
pub open spec fn spec_redirect_reply(hs: Seq<Header>, code: u16, loc: Seq<char>) -> Seq<u8> {
    frame_bytes(code, map_insert(base_entries(hs), ("location")@, loc), Seq::empty())
}

/// The candidate filesystem path: the configured root joined with `.`
/// followed by the request path.
pub open spec fn spec_fs_path(c: ServerConfig, r: Request) -> Seq<char> {
    spec_fill_path(c.root@, seq!['.'] + r.path@)
}

/// The position of the first rewrite rule for `p`, or `rs.len()`.
fn find_rewrite(rs: &Vec<(String, Rewrite)>, p: &str) -> (r: usize)
    ensures
        r == rewrite_index(rs@, p@),
        r <= rs@.len(),
{
    let n = rs.len();
    let mut i: usize = 0;
    while i < n
        invariant
            i <= n,
            n == rs@.len(),
            rewrite_index(rs@, p@) == rewrite_index_from(rs@, p@, i as int),
        decreases n - i,
    {
        if str_eq(rs[i].0.as_str(), p) {
            return i;
        }
        i = i + 1;
    }
    n
}

/// Runs the policy checks in their fixed order. A method outside the
/// allow-list is answered 405 whatever the path names and whether any
/// resource exists; a missing `Host` header 400; failed authentication
/// 401; a matching redirect rule 301 or 302 with its target as location;
/// a path holding a `..` segment is rejected 404 before any filesystem
/// access. Only then is the filesystem path probed.
pub fn plan(config: &ServerConfig, req: &Request) -> (r: Step)
    ensures
        !spec_method_ok(*config, *req) ==> (r matches Step::Reply(rep) && rep.bytes@
            == spec_text_reply(config.headers@, 405, ("405")@) && rep.status == 405
            && rep.log_error),
        spec_method_ok(*config, *req) && !spec_has_host(*req) ==> (r matches Step::Reply(rep)
            && rep.bytes@ == spec_text_reply(config.headers@, 400, ("400")@) && rep.status == 400
            && rep.log_error),
        spec_method_ok(*config, *req) && spec_has_host(*req) && !spec_auth_ok(*config, *req)
            ==> (r matches Step::Reply(rep) && rep.bytes@ == spec_auth_reply(config.headers@)
            && rep.status == 401 && rep.log_error),
        spec_guards_ok(*config, *req) && spec_redirected(*config, *req) ==> ({
            let rule = config.rewrite@[rewrite_index(config.rewrite@, req.path@)].1;
            let code: u16 = if rule.status is _301 {
                301u16
            } else {
                302u16
            };
            r matches Step::Reply(rep) && rep.bytes@ == spec_redirect_reply(
                config.headers@,
                code,
                rule.url@,
            ) && rep.status == code && !rep.log_error
        }),
        spec_guards_ok(*config, *req) && !spec_redirected(*config, *req) && has_dotdot(req.path@)
            ==> (r matches Step::Reply(rep) && rep.bytes@ == spec_text_reply(
            config.headers@,
            404,
            ("404")@,
        ) && rep.status == 404 && rep.log_error),
        spec_guards_ok(*config, *req) && !spec_redirected(*config, *req) && !has_dotdot(req.path@)
            ==> (r matches Step::Probe { fs_path } && fs_path@ == spec_fs_path(*config, *req)),
{
    if !contains_str(&config.methods, req.method.as_str()) {
        let bytes = Response::new(StatusCode::_405, &config.headers).text("405");
        return Step::Reply(Reply { bytes, status: 405, log_error: true });
    }
    if req.headers.get("host").is_none() {
        let bytes = Response::new(StatusCode::_400, &config.headers).text("400");
        return Step::Reply(Reply { bytes, status: 400, log_error: true });
    }
    let auth_passed = match &config.auth {
        Some(a) => match req.headers.get("authorization") {
            Some(v) => str_eq(a.as_str(), v.as_str()),
            None => false,
        },
        None => true,
    };
    if !auth_passed {
        let bytes = Response::new(StatusCode::_401, &config.headers).header(
            "WWW-Authenticate",
            "Basic realm=\"User Visible Realm\"",
        ).text("401");
        return Step::Reply(Reply { bytes, status: 401, log_error: true });
    }
    let n = config.rewrite.len();
    let ri = find_rewrite(&config.rewrite, req.path.as_str());
    if ri < n {
        let rule = &config.rewrite[ri].1;
        match rule.status {
            RewriteType::_301 => {
                let bytes = Response::new(StatusCode::_301, &config.headers).rewrite(
                    rule.url.clone(),
                );
                return Step::Reply(Reply { bytes, status: 301, log_error: false });
            },
            RewriteType::_302 => {
                let bytes = Response::new(StatusCode::_302, &config.headers).rewrite(
                    rule.url.clone(),
                );
                return Step::Reply(Reply { bytes, status: 302, log_error: false });
            },
            RewriteType::Path => {
                // An in-place rewrite has no observable effect; the
                // request continues unchanged.
            },
        }
    }
    if contains_dotdot(req.path.as_str()) {
        let bytes = Response::new(StatusCode::_404, &config.headers).text("404");
        return Step::Reply(Reply { bytes, status: 404, log_error: true });
    }
    let mut cur: String = ".".to_owned();
    cur.append(req.path.as_str());
    proof {
        reveal_strlit(".");
        assert(cur@ =~= seq!['.'] + req.path@);
    }
    let fs_path = fill_path(config.root.as_str(), cur.as_str());
    Step::Probe { fs_path }
}

/// The `Accept-Encoding` value, split on `", "`, has a token equal to
/// `gzip` at or after `from`.
pub open spec fn has_gzip_token(s: Seq<char>, from: int) -> bool
    decreases s.len() - from when 0 <= from <= s.len()
{
    let e = find2_in(s, from, s.len() as int, ',', ' ');
    if s.subrange(from, e) == ("gzip")@ {
        true
    } else if from <= e && e + 2 <= s.len() {
        has_gzip_token(s, e + 2)
    } else {
        false
    }
}

/// Scans the `Accept-Encoding` tokens for `gzip`.
fn accept_has_gzip(s: &str, from: usize) -> (r: bool)
    requires
        from <= s@.len(),
    ensures
        r == has_gzip_token(s@, from as int),
    decreases s@.len() - from,
{
    let len = s.unicode_len();
    let e = find_two(s, from, len, ',', ' ');
    if str_eq(s.substring_char(from, e), "gzip") {
        true
    } else if e < len {
        accept_has_gzip(s, e + 2)
    } else {
        false
    }
}

/// Gzip is negotiated exactly when the extension is in the configured
/// allow-list and the request's `Accept-Encoding`, split on `", "`,
/// contains the literal token `gzip`.
pub open spec fn spec_can_use_gzip(r: Request, c: ServerConfig, ext: Seq<char>) -> bool {
    &&& match c.gzip {
        Some(list) => in_str_list(list@, ext),
        None => false,
    }
    &&& match map_get(r.headers.entries(), ("accept-encoding")@) {
        Some(v) => has_gzip_token(v, 0),
        None => false,
    }
}

/// Decides gzip eligibility for a response with the given extension.
pub fn can_use_gzip(request: &Request, config: &ServerConfig, ext: &str) -> (r: bool)
    ensures
        r == spec_can_use_gzip(*request, *config, ext@),
{
    let allowed = match &config.gzip {
        Some(list) => contains_str(list, ext),
        None => false,
    };
    if !allowed {
        return false;
    }
    match request.headers.get("accept-encoding") {
        Some(v) => accept_has_gzip(v.as_str(), 0),
        None => false,
    }
}

/// The request path ends with a slash.
pub fn path_ends_slash(p: &str) -> (r: bool)
    ensures
        r == crate::text::ends_with(p@, seq!['/']),
{
    let len = p.unicode_len();
    if len == 0 {
        return false;
    }
    let r = p.get_char(len - 1) == '/';
    proof {
        assert(p@.subrange(p@.len() - 1, p@.len() as int) =~= seq![p@[p@.len() - 1]]);
        if p@[p@.len() - 1] == '/' {
            assert(p@.subrange(p@.len() - 1, p@.len() as int) =~= seq!['/']);
        } else {
            assert(seq![p@[p@.len() - 1]] != seq!['/']) by {
                assert(seq![p@[p@.len() - 1]][0] != seq!['/'][0]);
            }
        }
    }
    r
}

/// Where a directory request without a trailing slash is redirected: the
/// path plus `/`, with the query string preserved verbatim.
pub open spec fn spec_dir_redirect_target(r: Request) -> Seq<char> {
    match r.query {
        Some(q) => r.path@ + ("/?")@ + q@,
        None => r.path@ + ("/")@,
    }
}

/// The fallback candidates match the configured extensions: none when the
/// path already has an extension, else one candidate per extension, in
/// order, appending `.ext` to the path.
pub open spec fn spec_fallbacks_ok(p: Seq<char>, exts: Seq<String>, cs: Seq<Fallback>) -> bool {
    &&& has_extension(p) ==> cs.len() == 0
    &&& !has_extension(p) ==> {
        &&& cs.len() == exts.len()
        &&& forall|i: int|
            0 <= i < cs.len() ==> (#[trigger] cs[i]).path@ == p + seq!['.'] + exts[i]@
                && cs[i].ext@ == exts[i]@
    }
}

/// Resolves a probed filesystem path. A directory without a trailing
/// slash redirects to the path plus `/`, query preserved; with a slash,
/// the configured index file is tried first, then the directory listing,
/// then the 404 flow. A regular file is served with its extension's
/// content type and the negotiated gzip flag. A missing path tries the
/// fallback extensions when configured and the path has none of its own;
/// otherwise it enters the 404 flow.
pub fn on_probe(config: &ServerConfig, req: &Request, fs_path: &str, probe: Probe) -> (r: Action)
    ensures
        probe is Directory && !crate::text::ends_with(req.path@, seq!['/']) ==> (r matches
            Action::Reply(rep) && rep.bytes@ == spec_redirect_reply(
            config.headers@,
            301,
            spec_dir_redirect_target(*req),
        ) && rep.status == 301 && !rep.log_error),
        probe is Directory && crate::text::ends_with(req.path@, seq!['/']) ==> match config.index {
            Some(idx) => r matches Action::TryIndex { path, ext } && path@ == spec_fill_path(
                fs_path@,
                idx@,
            ) && ext@ == spec_extension(idx@),
            None => match config.directory {
                Some(opt) => r == Action::Listing { time: opt.time, size: opt.size },
                None => r is NotFound,
            },
        },
        probe is File ==> (r matches Action::ServeFile { ext, gzip } && ext@ == spec_extension(
            fs_path@,
        ) && gzip == spec_can_use_gzip(*req, *config, spec_extension(fs_path@))),
        probe is Missing ==> match config.extensions {
            Some(exts) => r matches Action::Fallbacks { candidates } && spec_fallbacks_ok(
                fs_path@,
                exts@,
                candidates@,
            ),
            None => r is NotFound,
        },
{
    match probe {
        Probe::Directory => {
            if !path_ends_slash(req.path.as_str()) {
                let mut target = req.path.clone();
                match &req.query {
                    Some(q) => {
                        target.append("/?");
                        target.append(q.as_str());
                    },
                    None => {
                        target.append("/");
                    },
                }
                let bytes = Response::new(StatusCode::_301, &config.headers).rewrite(target);
                Action::Reply(Reply { bytes, status: 301, log_error: false })
            } else {
                match &config.index {
                    Some(idx) => Action::TryIndex {
                        path: fill_path(fs_path, idx.as_str()),
                        ext: get_extension(idx.as_str()).to_owned(),
                    },
                    None => match &config.directory {
                        Some(opt) => Action::Listing { time: opt.time, size: opt.size },
                        None => Action::NotFound,
                    },
                }
            }
        },
        Probe::File => {
            let ext = get_extension(fs_path).to_owned();
            let gzip = can_use_gzip(req, config, ext.as_str());
            Action::ServeFile { ext, gzip }
        },
        Probe::Missing => {
            match &config.extensions {
                Some(exts) => Action::Fallbacks {
                    candidates: fallback_candidates(fs_path, exts),
                },
                None => Action::NotFound,
            }
        },
    }
}

/// What a directory falls back to when opening its index file failed:
/// the listing when enabled, else the 404 flow.
pub fn after_index(config: &ServerConfig) -> (r: Action)
    ensures
        match config.directory {
            Some(opt) => r == Action::Listing { time: opt.time, size: opt.size },
            None => r is NotFound,
        },
{
    match &config.directory {
        Some(opt) => Action::Listing { time: opt.time, size: opt.size },
        None => Action::NotFound,
    }
}

/// Starts the 404 flow: read the configured custom body file, or answer
/// with the plain-text body at once.
pub fn not_found_step(config: &ServerConfig) -> (r: ErrorStep)
    ensures
        match config.error._404 {
            Some(p) => r matches ErrorStep::ReadFile { path, ext } && path@ == p@ && ext@
                == spec_extension(p@),
            None => r matches ErrorStep::Reply(rep) && rep.bytes@ == spec_text_reply(
                config.headers@,
                404,
                ("404")@,
            ) && rep.status == 404 && rep.log_error,
        },
{
    match &config.error._404 {
        Some(p) => ErrorStep::ReadFile {
            path: p.clone(),
            ext: get_extension(p.as_str()).to_owned(),
        },
        None => {
            let bytes = Response::new(StatusCode::_404, &config.headers).text("404");
            ErrorStep::Reply(Reply { bytes, status: 404, log_error: true })
        },
    }
}

/// Starts the 500 flow: read the configured custom body file, or answer
/// with the plain-text body at once.
pub fn server_error_step(config: &ServerConfig) -> (r: ErrorStep)
    ensures
        match config.error._500 {
            Some(p) => r matches ErrorStep::ReadFile { path, ext } && path@ == p@ && ext@
                == spec_extension(p@),
            None => r matches ErrorStep::Reply(rep) && rep.bytes@ == spec_text_reply(
                config.headers@,
                500,
                ("500")@,
            ) && rep.status == 500 && rep.log_error,
        },
{
    match &config.error._500 {
        Some(p) => ErrorStep::ReadFile {
            path: p.clone(),
            ext: get_extension(p.as_str()).to_owned(),
        },
        None => {
            let bytes = Response::new(StatusCode::_500, &config.headers).text("500");
            ErrorStep::Reply(Reply { bytes, status: 500, log_error: true })
        },
    }
}

/// The bytes of an error response carrying a custom body file.
pub open spec fn spec_custom_body_reply(
    hs: Seq<Header>,
    code: u16,
    ext: Seq<char>,
    data: Seq<u8>,
) -> Seq<u8> {
    frame_bytes(
        code,
        map_insert(
            map_insert(base_entries(hs), ("Content-Type")@, mime_of(ext)),
            ("Content-Length")@,
            dec_chars(data.len()),
        ),
        data,
    )
}

/// Finishes the 404 flow once the custom body file was read — or was not:
/// a failed read falls back to the plain-text body, as a missing
/// configuration does.
pub fn not_found_reply(config: &ServerConfig, ext: &str, data: Option<&Vec<u8>>) -> (r: Reply)
    ensures
        r.status == 404,
        r.log_error,
        match data {
            Some(d) => r.bytes@ == spec_custom_body_reply(config.headers@, 404, ext@, d@),
            None => r.bytes@ == spec_text_reply(config.headers@, 404, ("404")@),
        },
{
    match data {
        Some(d) => {
            let bytes = Response::new(StatusCode::_404, &config.headers).content_type(ext).body(
                d.as_slice(),
            );
            Reply { bytes, status: 404, log_error: true }
        },
        None => {
            let bytes = Response::new(StatusCode::_404, &config.headers).text("404");
            Reply { bytes, status: 404, log_error: true }
        },
    }
}

/// Finishes the 500 flow, like the 404 flow.
pub fn server_error_reply(config: &ServerConfig, ext: &str, data: Option<&Vec<u8>>) -> (r: Reply)
    ensures
        r.status == 500,
        r.log_error,
        match data {
            Some(d) => r.bytes@ == spec_custom_body_reply(config.headers@, 500, ext@, d@),
            None => r.bytes@ == spec_text_reply(config.headers@, 500, ("500")@),
        },
{
    match data {
        Some(d) => {
            let bytes = Response::new(StatusCode::_500, &config.headers).content_type(ext).body(
                d.as_slice(),
            );
            Reply { bytes, status: 500, log_error: true }
        },
        None => {
            let bytes = Response::new(StatusCode::_500, &config.headers).text("500");
            Reply { bytes, status: 500, log_error: true }
        },
    }
}

/// The header block announcing a streamed file: content type from the
/// extension and the file's byte length as content length. Streamed
/// deliveries bypass gzip so the announced length always matches the
/// bytes on the wire; gzip-eligible files are served buffered instead.
pub fn serve_stream_header(config: &ServerConfig, ext: &str, length: u64) -> (r: Reply)
    ensures
        r.status == 200,
        !r.log_error,
        r.bytes@ == frame_bytes(
            200,
            map_insert(
                map_insert(base_entries(config.headers@), ("Content-Type")@, mime_of(ext@)),
                ("Content-Length")@,
                dec_chars(length as nat),
            ),
            Seq::empty(),
        ),
{
    let bytes = Response::new(StatusCode::_200, &config.headers).content_type(ext).file_header(
        length,
    );
    Reply { bytes, status: 200, log_error: false }
}

/// A buffered 200 file response: gzip-encoded exactly when negotiation
/// succeeds for this request and extension.
pub fn serve_buffered(config: &ServerConfig, req: &Request, ext: &str, data: &[u8]) -> (r: Reply)
    ensures
        r.status == 200,
        !r.log_error,
        spec_can_use_gzip(*req, *config, ext@) ==> r.bytes@ == frame_bytes(
            200,
            map_insert(
                map_insert(
                    map_insert(
                        base_entries(config.headers@),
                        ("Content-Type")@,
                        mime_of(ext@),
                    ),
                    ("Content-Encoding")@,
                    ("gzip")@,
                ),
                ("Content-Length")@,
                dec_chars(gzip_bytes_of(data@).len()),
            ),
            gzip_bytes_of(data@),
        ),
        !spec_can_use_gzip(*req, *config, ext@) ==> r.bytes@ == frame_bytes(
            200,
            map_insert(
                map_insert(base_entries(config.headers@), ("Content-Type")@, mime_of(ext@)),
                ("Content-Length")@,
                dec_chars(data@.len()),
            ),
            data@,
        ),
{
    let g = can_use_gzip(req, config, ext);
    let bytes = Response::new(StatusCode::_200, &config.headers).content_type(ext).gzip(g).body(
        data,
    );
    Reply { bytes, status: 200, log_error: false }
}

/// A 200 directory-listing response carrying the rendered HTML.
pub fn listing_reply(config: &ServerConfig, html: &str) -> (r: Reply)
    ensures
        r.status == 200,
        !r.log_error,
        r.bytes@ == frame_bytes(
            200,
            map_insert(
                map_insert(
                    base_entries(config.headers@),
                    ("Content-Type")@,
                    mime_of(("html")@),
                ),
                ("Content-Length")@,
                dec_chars(html.spec_bytes().len()),
            ),
            html.spec_bytes(),
        ),
{
    let bytes = Response::new(StatusCode::_200, &config.headers).content_type("html").body(
        html.as_bytes(),
    );
    Reply { bytes, status: 200, log_error: false }
}

} // verus!
