//! The request parser: one bounded socket read, decoded to text by the
//! caller, is split into method, path, optional query string and a header
//! map with lower-cased keys where the last occurrence of a duplicate
//! header wins. Malformed header lines are skipped; a malformed request
//! line makes the whole request unparsable, and the connection is closed
//! without a response.

use vstd::prelude::*;
use vstd::string::StrSliceExecFns;
use crate::headers::{HeaderMap, map_insert};
use crate::text::{find2_in, find_in, lower_chars, lower_str};
use crate::text::{find_char_in, find_two};

verus! {

/// A parsed request.
pub struct Request {
    pub method: String,
    pub path: String,
    pub query: Option<String>,
    pub headers: HeaderMap,
}

/// Where the request line ends: the first CRLF, or the end of the input
/// for a truncated read.
pub open spec fn spec_line_end(s: Seq<char>) -> int {
    find2_in(s, 0, s.len() as int, '\r', '\n')
}

/// The first space of the request line, separating method from target.
pub open spec fn spec_sp1(s: Seq<char>) -> int {
    find_in(s, 0, spec_line_end(s), ' ')
}

/// The second space of the request line, separating target from version.
pub open spec fn spec_sp2(s: Seq<char>) -> int {
    find_in(s, spec_sp1(s) + 1, spec_line_end(s), ' ')
}

/// A request line is well-formed when it carries both separating spaces;
/// the version after the second space is accepted without validation.
pub open spec fn spec_wellformed(s: Seq<char>) -> bool {
    spec_sp1(s) < spec_line_end(s) && spec_sp2(s) < spec_line_end(s)
}

/// Where the query string starts: the first `?` inside the target.
pub open spec fn spec_qmark(s: Seq<char>) -> int {
    find_in(s, spec_sp1(s) + 1, spec_sp2(s), '?')
}

pub open spec fn spec_method(s: Seq<char>) -> Seq<char> {
    s.subrange(0, spec_sp1(s))
}

pub open spec fn spec_path(s: Seq<char>) -> Seq<char> {
    s.subrange(spec_sp1(s) + 1, spec_qmark(s))
}

pub open spec fn spec_query(s: Seq<char>) -> Option<Seq<char>> {
    if spec_qmark(s) < spec_sp2(s) {
        Some(s.subrange(spec_qmark(s) + 1, spec_sp2(s)))
    } else {
        None
    }
}

/// The header entries accumulated from the lines starting at `from`:
/// a line is closed by CRLF or by the end of the input, an empty line
/// stops the scan, a line without a `": "` separator is skipped, keys are
/// lower-cased, and inserting makes the last duplicate win.
pub open spec fn headers_map_from(
    s: Seq<char>,
    from: int,
    acc: Seq<(Seq<char>, Seq<char>)>,
) -> Seq<(Seq<char>, Seq<char>)>
    decreases s.len() - from when 0 <= from <= s.len()
{
    if from >= s.len() {
        acc
    } else {
        let e = find2_in(s, from, s.len() as int, '\r', '\n');
        if e == from {
            acc
        } else {
            let d = find2_in(s, from, e, ':', ' ');
            let acc2 = if d == e {
                acc
            } else {
                map_insert(acc, lower_chars(s.subrange(from, d)), s.subrange(d + 2, e))
            };
            if from < e && e + 2 <= s.len() {
                headers_map_from(s, e + 2, acc2)
            } else {
                acc2
            }
        }
    }
}

/// The header entries of a parsed request.
pub open spec fn spec_header_entries(s: Seq<char>) -> Seq<(Seq<char>, Seq<char>)> {
    if spec_line_end(s) < s.len() {
        headers_map_from(s, spec_line_end(s) + 2, Seq::empty())
    } else {
        Seq::empty()
    }
}

/// Scans header lines from position `p`, inserting each well-formed field.
fn parse_header_lines(raw: &str, p: usize, hm: &mut HeaderMap)
    requires
        p <= raw@.len(),
    ensures
        final(hm).entries() == headers_map_from(raw@, p as int, old(hm).entries()),
    decreases raw@.len() - p,
{
    let len = raw.unicode_len();
    if p >= len {
        return ;
    }
    let e = find_two(raw, p, len, '\r', '\n');
    if e == p {
        return ;
    }
    let d = find_two(raw, p, e, ':', ' ');
    if d < e {
        let key = lower_str(raw.substring_char(p, d));
        let value = raw.substring_char(d + 2, e).to_owned();
        hm.insert(key, value);
    }
    if e < len {
        parse_header_lines(raw, e + 2, hm);
    }
}

impl Request {
    /// Parses one request. The result is `Some` exactly when the request
    /// line carries its two separating spaces; the parsed fields are the
    /// ones the specification functions above name.
    pub fn parse(raw: &str) -> (r: Option<Request>)
        ensures
            r is Some <==> spec_wellformed(raw@),
            r matches Some(req) ==> {
                &&& req.method@ == spec_method(raw@)
                &&& req.path@ == spec_path(raw@)
                &&& match req.query {
                    Some(q) => spec_query(raw@) == Some(q@),
                    None => spec_query(raw@) is None,
                }
                &&& req.headers.entries() == spec_header_entries(raw@)
            },
    {
        let len = raw.unicode_len();
        let le = find_two(raw, 0, len, '\r', '\n');
        let s1 = find_char_in(raw, 0, le, ' ');
        if s1 >= le {
            return None;
        }
        let s2 = find_char_in(raw, s1 + 1, le, ' ');
        if s2 >= le {
            return None;
        }
        let method = raw.substring_char(0, s1).to_owned();
        let qi = find_char_in(raw, s1 + 1, s2, '?');
        let path = raw.substring_char(s1 + 1, qi).to_owned();
        let query = if qi < s2 {
            Some(raw.substring_char(qi + 1, s2).to_owned())
        } else {
            None
        };
        let mut headers = HeaderMap::new();
        if le < len {
            parse_header_lines(raw, le + 2, &mut headers);
        }
        Some(Request { method, path, query, headers })
    }
}

} // verus!
