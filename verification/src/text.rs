//! Character-level helpers: equality, search, suffix tests, ASCII
//! lower-casing and decimal rendering, each tied to a spec function.

use vstd::prelude::*;
use vstd::string::StrSliceExecFns;
use vstd::string::StringExecFns;

verus! {

/// The lower-case form of an ASCII upper-case letter; other characters keep
/// their value.
pub open spec fn lower_char(c: char) -> char {
    if c == 'A' { 'a' } else if c == 'B' { 'b' } else if c == 'C' { 'c' }
    else if c == 'D' { 'd' } else if c == 'E' { 'e' } else if c == 'F' { 'f' }
    else if c == 'G' { 'g' } else if c == 'H' { 'h' } else if c == 'I' { 'i' }
    else if c == 'J' { 'j' } else if c == 'K' { 'k' } else if c == 'L' { 'l' }
    else if c == 'M' { 'm' } else if c == 'N' { 'n' } else if c == 'O' { 'o' }
    else if c == 'P' { 'p' } else if c == 'Q' { 'q' } else if c == 'R' { 'r' }
    else if c == 'S' { 's' } else if c == 'T' { 't' } else if c == 'U' { 'u' }
    else if c == 'V' { 'v' } else if c == 'W' { 'w' } else if c == 'X' { 'x' }
    else if c == 'Y' { 'y' } else if c == 'Z' { 'z' }
    else { c }
}

/// `s` with every ASCII upper-case letter replaced by its lower-case form.
pub open spec fn lower_chars(s: Seq<char>) -> Seq<char> {
    Seq::new(s.len(), |i: int| lower_char(s[i]))
}

/// The lower-case string slice for one ASCII upper-case letter.
fn lower_alpha(c: char) -> (r: &'static str)
    requires
        'A' <= c && c <= 'Z',
    ensures
        r@ == seq![lower_char(c)],
{
    proof {
        reveal_strlit("a"); reveal_strlit("b"); reveal_strlit("c");
        reveal_strlit("d"); reveal_strlit("e"); reveal_strlit("f");
        reveal_strlit("g"); reveal_strlit("h"); reveal_strlit("i");
        reveal_strlit("j"); reveal_strlit("k"); reveal_strlit("l");
        reveal_strlit("m"); reveal_strlit("n"); reveal_strlit("o");
        reveal_strlit("p"); reveal_strlit("q"); reveal_strlit("r");
        reveal_strlit("s"); reveal_strlit("t"); reveal_strlit("u");
        reveal_strlit("v"); reveal_strlit("w"); reveal_strlit("x");
        reveal_strlit("y"); reveal_strlit("z");
    }
    match c {
        'A' => "a", 'B' => "b", 'C' => "c", 'D' => "d", 'E' => "e",
        'F' => "f", 'G' => "g", 'H' => "h", 'I' => "i", 'J' => "j",
        'K' => "k", 'L' => "l", 'M' => "m", 'N' => "n", 'O' => "o",
        'P' => "p", 'Q' => "q", 'R' => "r", 'S' => "s", 'T' => "t",
        'U' => "u", 'V' => "v", 'W' => "w", 'X' => "x", 'Y' => "y",
        _ => "z",
    }
}

/// Lower-cases the ASCII letters of `s`.
pub fn lower_str(s: &str) -> (r: String)
    ensures
        r@ == lower_chars(s@),
{
    let len: usize = s.unicode_len();
    let mut out = String::new();
    let mut i: usize = 0;
    while i < len
        invariant
            i <= len,
            len == s@.len(),
            out@ =~= lower_chars(s@).subrange(0, i as int),
        decreases len - i,
    {
        let c = s.get_char(i);
        if 'A' <= c && c <= 'Z' {
            out.append(lower_alpha(c));
        } else {
            out.append(s.substring_char(i, i + 1));
        }
        assert(out@ =~= lower_chars(s@).subrange(0, i + 1));
        i = i + 1;
    }
    assert(out@ =~= lower_chars(s@));
    out
}

/// String-slice equality at the level of character sequences.
pub fn str_eq(a: &str, b: &str) -> (r: bool)
    ensures
        r == (a@ == b@),
{
    let alen: usize = a.unicode_len();
    let blen: usize = b.unicode_len();
    if alen != blen {
        return false;
    }
    let mut i: usize = 0;
    while i < alen
        invariant
            i <= alen,
            alen == a@.len(),
            alen == b@.len(),
            forall|j: int| 0 <= j < i ==> a@[j] == b@[j],
        decreases alen - i,
    {
        if a.get_char(i) != b.get_char(i) {
            return false;
        }
        i = i + 1;
    }
    proof {
        assert(a@ =~= b@);
    }
    true
}

/// The smallest index `i` with `from <= i`, `i + 2 <= end`, `s[i] == c1` and
/// `s[i + 1] == c2`, or `end` when no such pair occurs.
pub open spec fn find2_in(s: Seq<char>, from: int, end: int, c1: char, c2: char) -> int
    decreases end - from when from <= end
{
    if from + 2 > end {
        end
    } else if s[from] == c1 && s[from + 1] == c2 {
        from
    } else {
        find2_in(s, from + 1, end, c1, c2)
    }
}

/// First two-character pattern `c1 c2` in `s[from..end]`.
pub fn find_two(s: &str, from: usize, end: usize, c1: char, c2: char) -> (r: usize)
    requires
        from <= end,
        end <= s@.len(),
    ensures
        r == find2_in(s@, from as int, end as int, c1, c2),
        from <= r <= end,
        r < end ==> r + 2 <= end && s@[r as int] == c1 && s@[r + 1] == c2,
{
    proof {
        lemma_find2_in_found(s@, from as int, end as int, c1, c2);
    }
    let mut i: usize = from;
    while i < end && i + 1 < end
        invariant
            from <= i <= end,
            end <= s@.len(),
            find2_in(s@, from as int, end as int, c1, c2)
                == find2_in(s@, i as int, end as int, c1, c2),
        decreases end - i,
    {
        if s.get_char(i) == c1 && s.get_char(i + 1) == c2 {
            return i;
        }
        i = i + 1;
    }
    end
}

pub proof fn lemma_find2_in_found(s: Seq<char>, from: int, end: int, c1: char, c2: char)
    requires
        from <= end,
    ensures
        from <= find2_in(s, from, end, c1, c2) <= end,
        find2_in(s, from, end, c1, c2) < end ==> {
            let r = find2_in(s, from, end, c1, c2);
            r + 2 <= end && s[r] == c1 && s[r + 1] == c2
        },
    decreases end - from,
{
    if from + 2 <= end && !(s[from] == c1 && s[from + 1] == c2) {
        lemma_find2_in_found(s, from + 1, end, c1, c2);
    }
}

/// The smallest index `i` with `from <= i < end` and `s[i] == c`, or `end`.
pub open spec fn find_in(s: Seq<char>, from: int, end: int, c: char) -> int
    decreases end - from when from <= end
{
    if from >= end {
        end
    } else if s[from] == c {
        from
    } else {
        find_in(s, from + 1, end, c)
    }
}

/// First occurrence of `c` in `s[from..end]`.
pub fn find_char_in(s: &str, from: usize, end: usize, c: char) -> (r: usize)
    requires
        from <= end,
        end <= s@.len(),
    ensures
        r == find_in(s@, from as int, end as int, c),
        from <= r <= end,
        r < end ==> s@[r as int] == c,
{
    let mut i: usize = from;
    while i < end
        invariant
            from <= i <= end,
            end <= s@.len(),
            find_in(s@, from as int, end as int, c) == find_in(s@, i as int, end as int, c),
        decreases end - i,
    {
        if s.get_char(i) == c {
            return i;
        }
        i = i + 1;
    }
    end
}

/// `suf` is a suffix of `s`.
pub open spec fn ends_with(s: Seq<char>, suf: Seq<char>) -> bool {
    suf.len() <= s.len() && s.subrange(s.len() - suf.len(), s.len() as int) == suf
}

/// Suffix test at the level of character sequences.
pub fn str_ends_with(s: &str, suf: &str) -> (r: bool)
    ensures
        r == ends_with(s@, suf@),
{
    let slen: usize = s.unicode_len();
    let flen: usize = suf.unicode_len();
    if flen > slen {
        return false;
    }
    let tail = s.substring_char(slen - flen, slen);
    str_eq(tail, suf)
}

/// `pre` is a prefix of `s`.
pub open spec fn starts_with(s: Seq<char>, pre: Seq<char>) -> bool {
    pre.len() <= s.len() && s.subrange(0, pre.len() as int) == pre
}

/// Prefix test at the level of character sequences.
pub fn str_starts_with(s: &str, pre: &str) -> (r: bool)
    ensures
        r == starts_with(s@, pre@),
{
    let slen: usize = s.unicode_len();
    let plen: usize = pre.unicode_len();
    if plen > slen {
        return false;
    }
    let head = s.substring_char(0, plen);
    str_eq(head, pre)
}

/// `s` occurs in the list `v`.
pub open spec fn in_str_list(v: Seq<String>, s: Seq<char>) -> bool {
    exists|i: int| 0 <= i < v.len() && #[trigger] v[i]@ == s
}

/// Membership test for a list of strings.
pub fn contains_str(v: &Vec<String>, s: &str) -> (r: bool)
    ensures
        r == in_str_list(v@, s@),
{
    let n = v.len();
    let mut i: usize = 0;
    while i < n
        invariant
            i <= n,
            n == v@.len(),
            forall|j: int| 0 <= j < i ==> #[trigger] v@[j]@ != s@,
        decreases n - i,
    {
        if str_eq(v[i].as_str(), s) {
            return true;
        }
        i = i + 1;
    }
    false
}

/// The character for a decimal digit.
pub open spec fn digit_char(d: nat) -> char {
    if d == 0 { '0' } else if d == 1 { '1' } else if d == 2 { '2' }
    else if d == 3 { '3' } else if d == 4 { '4' } else if d == 5 { '5' }
    else if d == 6 { '6' } else if d == 7 { '7' } else if d == 8 { '8' }
    else { '9' }
}

/// Decimal digits of `n`, most significant first.
pub open spec fn dec_chars(n: nat) -> Seq<char>
    decreases n,
{
    if n < 10 {
        seq![digit_char(n)]
    } else {
        dec_chars(n / 10).push(digit_char(n % 10))
    }
}

/// The one-character string slice for a decimal digit.
pub fn digit_str(d: u64) -> (r: &'static str)
    requires
        d < 10,
    ensures
        r@ == seq![digit_char(d as nat)],
{
    proof {
        reveal_strlit("0"); reveal_strlit("1"); reveal_strlit("2");
        reveal_strlit("3"); reveal_strlit("4"); reveal_strlit("5");
        reveal_strlit("6"); reveal_strlit("7"); reveal_strlit("8");
        reveal_strlit("9");
    }
    match d {
        0 => "0", 1 => "1", 2 => "2", 3 => "3", 4 => "4",
        5 => "5", 6 => "6", 7 => "7", 8 => "8", _ => "9",
    }
}

/// Renders `n` in decimal.
pub fn dec_string(n: u64) -> (r: String)
    ensures
        r@ == dec_chars(n as nat),
    decreases n,
{
    if n < 10 {
        digit_str(n).to_owned()
    } else {
        let mut s = dec_string(n / 10);
        s.append(digit_str(n % 10));
        s
    }
}

} // verus!
