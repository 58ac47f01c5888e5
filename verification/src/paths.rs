//! Path handling: joining configured roots with request paths, extracting
//! file extensions, fallback candidates for extensionless paths, and the
//! rejection of `..` segments before any filesystem access.

use vstd::prelude::*;
use vstd::string::StrSliceExecFns;
use vstd::string::StringExecFns;

verus! {

/// Joining `root` and `file`: an absolute `file` stands alone, an empty
/// `root` contributes nothing, and exactly one separator stands between
/// the two parts otherwise.
pub open spec fn spec_fill_path(root: Seq<char>, file: Seq<char>) -> Seq<char> {
    if file.len() > 0 && file[0] == '/' {
        file
    } else if root.len() == 0 {
        file
    } else if root[root.len() - 1] == '/' {
        root + file
    } else {
        root + ("/")@ + file
    }
}

/// Joins a root directory and a relative file path.
pub fn fill_path(root: &str, file: &str) -> (r: String)
    ensures
        r@ == spec_fill_path(root@, file@),
{
    let flen = file.unicode_len();
    if flen > 0 && file.get_char(0) == '/' {
        return file.to_owned();
    }
    let rlen = root.unicode_len();
    if rlen == 0 {
        return file.to_owned();
    }
    if root.get_char(rlen - 1) == '/' {
        let mut out = root.to_owned();
        out.append(file);
        out
    } else {
        let mut out = root.to_owned();
        out.append("/");
        out.append(file);
        out
    }
}

/// The last index `i < end` with `s[i] == c`, or `-1`.
pub open spec fn rfind(s: Seq<char>, end: int, c: char) -> int
    decreases end when end <= s.len()
{
    if end <= 0 {
        -1
    } else if s[end - 1] == c {
        end - 1
    } else {
        rfind(s, end - 1, c)
    }
}

/// Last occurrence of `c` in `s`, encoded as position plus one; `0` means
/// no occurrence.
fn rfind_char(s: &str, c: char) -> (r: usize)
    ensures
        r as int == rfind(s@, s@.len() as int, c) + 1,
        r <= s@.len(),
{
    let len = s.unicode_len();
    let mut i: usize = len;
    while i > 0
        invariant
            i <= len,
            len == s@.len(),
            rfind(s@, len as int, c) == rfind(s@, i as int, c),
        decreases i,
    {
        if s.get_char(i - 1) == c {
            return i;
        }
        i = i - 1;
    }
    0
}

/// The file name of `p` — what follows its last `/` — carries an
/// extension: a dot strictly after the name's first character.
pub open spec fn has_extension(p: Seq<char>) -> bool {
    rfind(p, p.len() as int, '.') > rfind(p, p.len() as int, '/') + 1
}

/// The extension of `p`: what follows the last dot of its file name, or
/// the empty sequence when the name has no extension. A name whose only
/// dot is its first character — a hidden file — has no extension.
pub open spec fn spec_extension(p: Seq<char>) -> Seq<char> {
    if has_extension(p) {
        p.subrange(rfind(p, p.len() as int, '.') + 1, p.len() as int)
    } else {
        Seq::empty()
    }
}

/// The extension of a file path, or the empty slice.
pub fn get_extension(path: &str) -> (r: &str)
    ensures
        r@ == spec_extension(path@),
{
    let len = path.unicode_len();
    let dot = rfind_char(path, '.');
    let slash = rfind_char(path, '/');
    if dot >= 1 && dot - 1 > slash {
        path.substring_char(dot, len)
    } else {
        proof {
            lemma_rfind_bounds(path@, path@.len() as int, '.');
        }
        path.substring_char(len, len)
    }
}

pub proof fn lemma_rfind_bounds(s: Seq<char>, end: int, c: char)
    requires
        0 <= end <= s.len(),
    ensures
        -1 <= rfind(s, end, c) < end,
    decreases end,
{
    if end > 0 && s[end - 1] != c {
        lemma_rfind_bounds(s, end - 1, c);
    }
}

/// A fallback candidate: the file path to try and the extension it adds.
pub struct Fallback {
    pub path: String,
    pub ext: String,
}

/// The fallback candidates for an extensionless path: `path` with each
/// configured extension appended in order. A path that already carries an
/// extension never triggers fallback and has no candidates.
pub fn fallback_candidates(path: &str, exts: &Vec<String>) -> (r: Vec<Fallback>)
    ensures
        has_extension(path@) ==> r@.len() == 0,
        !has_extension(path@) ==> {
            &&& r@.len() == exts@.len()
            &&& forall|i: int|
                0 <= i < r@.len() ==> (#[trigger] r@[i]).path@ == path@ + seq!['.']
                    + exts@[i]@ && r@[i].ext@ == exts@[i]@
        },
{
    let mut out: Vec<Fallback> = Vec::new();
    let len = path.unicode_len();
    let dot = rfind_char(path, '.');
    let slash = rfind_char(path, '/');
    if dot >= 1 && dot - 1 > slash {
        return out;
    }
    let n = exts.len();
    let mut i: usize = 0;
    while i < n
        invariant
            i <= n,
            n == exts@.len(),
            out@.len() == i,
            forall|j: int|
                0 <= j < i ==> (#[trigger] out@[j]).path@ == path@ + seq!['.'] + exts@[j]@
                    && out@[j].ext@ == exts@[j]@,
        decreases n - i,
    {
        let mut p = path.to_owned();
        p.append(".");
        p.append(exts[i].as_str());
        proof {
            reveal_strlit(".");
            assert(p@ =~= path@ + seq!['.'] + exts@[i as int]@);
        }
        out.push(Fallback { path: p, ext: exts[i].clone() });
        i = i + 1;
    }
    out
}

/// `p` holds a `..` path segment: `/..` followed by a `/` or the end.
/// Request paths begin with `/`, so every `..` segment matches this form.
pub open spec fn has_dotdot(p: Seq<char>) -> bool {
    exists|i: int|
        0 <= i && i + 3 <= p.len() && #[trigger] p[i] == '/' && p[i + 1] == '.' && p[i + 2] == '.'
            && (i + 3 == p.len() || p[i + 3] == '/')
}

/// Scans for a `..` path segment.
pub fn contains_dotdot(p: &str) -> (r: bool)
    ensures
        r == has_dotdot(p@),
{
    let len = p.unicode_len();
    if len < 3 {
        return false;
    }
    let mut i: usize = 0;
    while i < len - 2
        invariant
            3 <= len,
            i <= len - 2,
            len == p@.len(),
            forall|j: int|
                0 <= j < i ==> !(#[trigger] p@[j] == '/' && p@[j + 1] == '.' && p@[j + 2] == '.'
                    && (j + 3 == p@.len() || p@[j + 3] == '/')),
        decreases len - i,
    {
        if p.get_char(i) == '/' && p.get_char(i + 1) == '.' && p.get_char(i + 2) == '.' {
            if i + 3 == len || p.get_char(i + 3) == '/' {
                return true;
            }
        }
        i = i + 1;
    }
    false
}

} // verus!
