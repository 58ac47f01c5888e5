//! The directory listing: human-readable byte sizes, local-time stamps,
//! and the HTML index grid. The caller reads the directory and hands the
//! entries over as plain values; everything but the local-time rendering
//! is specified exactly.

use vstd::prelude::*;
use vstd::arithmetic::div_mod::lemma_div_denominator;
use vstd::arithmetic::div_mod::lemma_fundamental_div_mod;
use vstd::string::StringExecFns;
use crate::text::{dec_chars, dec_string, digit_char, digit_str};

verus! {

/// 1024 to the power `i`.
pub open spec fn pow1024(i: nat) -> nat
    decreases i,
{
    if i == 0 {
        1
    } else {
        1024 * pow1024((i - 1) as nat)
    }
}

/// The unit index of a byte count: how often it can be divided by 1024
/// before falling under 1024.
pub open spec fn unit_index(b: nat) -> nat
    decreases b,
{
    if b < 1024 {
        0
    } else {
        1 + unit_index(b / 1024)
    }
}

/// The unit name for an index, clamped to the last entry of the table.
pub open spec fn unit_name(i: nat) -> Seq<char> {
    if i == 0 { ("B")@ } else if i == 1 { ("KB")@ } else if i == 2 { ("MB")@ }
    else if i == 3 { ("GB")@ } else if i == 4 { ("TB")@ } else if i == 5 { ("PB")@ }
    else if i == 6 { ("EB")@ } else if i == 7 { ("ZB")@ } else { ("YB")@ }
}

/// The human-readable rendering of a byte count: counts of zero or one
/// render as fixed two-decimal bytes; larger counts are scaled by the
/// largest fitting power of 1024 and rendered with two decimals, rounded
/// half up, followed by the unit name.
pub open spec fn spec_size_text(b: nat) -> Seq<char> {
    if b <= 1 {
        dec_chars(b) + (".00 B")@
    } else {
        let i = unit_index(b);
        let p = pow1024(i);
        let m = (200 * b + p) / (2 * p);
        dec_chars(m / 100) + (".")@ + seq![digit_char(((m / 10) % 10) as nat)] + seq![
            digit_char((m % 10) as nat),
        ] + (" ")@ + unit_name(i)
    }
}

/// The unit name for an index.
fn unit_str(i: u64) -> (r: &'static str)
    ensures
        r@ == unit_name(i as nat),
{
    if i == 0 { "B" } else if i == 1 { "KB" } else if i == 2 { "MB" }
    else if i == 3 { "GB" } else if i == 4 { "TB" } else if i == 5 { "PB" }
    else if i == 6 { "EB" } else if i == 7 { "ZB" } else { "YB" }
}

/// When the quotient of `b` by `p` is at least 1024, `b` is at least
/// 1024 times `p`.
proof fn lemma_div_lower(b: int, p: int)
    requires
        p >= 1,
        b / p >= 1024,
    ensures
        b >= 1024 * p,
{
    lemma_fundamental_div_mod(b, p);
    assert(p * (b / p) >= p * 1024) by (nonlinear_arith)
        requires
            p >= 1,
            b / p >= 1024,
    ;
}

/// When the quotient of `b` by `p` is under 1024, `b` is under 1024
/// times `p`.
proof fn lemma_div_upper(b: int, p: int)
    requires
        p >= 1,
        b / p < 1024,
    ensures
        b < 1024 * p,
{
    lemma_fundamental_div_mod(b, p);
    vstd::arithmetic::div_mod::lemma_mod_bound(b, p);
    assert(p * (b / p) <= p * 1023) by (nonlinear_arith)
        requires
            p >= 1,
            b / p < 1024,
    ;
}

/// The rounded two-decimal magnitude stays under five digits.
proof fn lemma_magnitude_bound(b: int, p: int)
    requires
        p >= 1,
        b < 1024 * p,
    ensures
        (200 * b + p) / (2 * p) < 102401,
{
    let d = 2 * p;
    assert(200 * b + p <= 102401 * d - 1) by (nonlinear_arith)
        requires
            p >= 1,
            b < 1024 * p,
            d == 2 * p,
    ;
    assert(102401 * d - 1 == 102400 * d + (d - 1)) by (nonlinear_arith);
    vstd::arithmetic::div_mod::lemma_fundamental_div_mod_converse(
        102401 * d - 1,
        d,
        102400,
        d - 1,
    );
    vstd::arithmetic::div_mod::lemma_div_is_ordered(200 * b + p, 102401 * d - 1, d);
}

/// The unit index of `bytes`, with the matching power of 1024.
fn unit_pow(bytes: u64) -> (r: (u64, u64))
    requires
        bytes >= 2,
    ensures
        r.0 == unit_index(bytes as nat),
        r.1 == pow1024(r.0 as nat),
        1 <= r.1,
        r.1 <= bytes,
        (bytes as nat) / (r.1 as nat) < 1024,
{
    let mut i: u64 = 0;
    let mut pow: u64 = 1;
    while bytes / pow >= 1024
        invariant
            bytes >= 2,
            1 <= pow <= bytes,
            i <= 6,
            pow == pow1024(i as nat),
            unit_index(bytes as nat) == i as nat + unit_index((bytes / pow) as nat),
        decreases bytes - pow,
    {
        proof {
            lemma_div_lower(bytes as int, pow as int);
            if i == 6 {
                assert(pow1024(0) == 1);
                assert(pow1024(1) == 1024);
                assert(pow1024(2) == 1048576);
                assert(pow1024(3) == 1073741824);
                assert(pow1024(4) == 1099511627776);
                assert(pow1024(5) == 1125899906842624);
                assert(pow1024(6) == 1152921504606846976);
                assert(false);
            }
            lemma_div_denominator(bytes as int, pow as int, 1024);
            assert((bytes / pow) as nat / 1024 == bytes as nat / (pow * 1024) as nat);
            assert(unit_index((bytes / pow) as nat) == 1 + unit_index(
                (bytes as nat / (pow * 1024) as nat),
            ));
        }
        pow = pow * 1024;
        i = i + 1;
    }
    return (i, pow);
}

/// Renders a byte count as a human-readable size.
pub fn bytes_to_size(bytes: u64) -> (r: String)
    ensures
        r@ == spec_size_text(bytes as nat),
{
    if bytes <= 1 {
        let mut s = dec_string(bytes);
        s.append(".00 B");
        return s;
    }
    let (i, pow) = unit_pow(bytes);
    let b128: u128 = bytes as u128;
    let p128: u128 = pow as u128;
    let m128: u128 = (200 * b128 + p128) / (2 * p128);
    proof {
        lemma_div_upper(bytes as int, pow as int);
        lemma_magnitude_bound(bytes as int, pow as int);
        assert(m128 as int == (200 * bytes as int + pow as int) / (2 * pow as int));
    }
    let m: u64 = m128 as u64;
    let mut s = dec_string(m / 100);
    s.append(".");
    s.append(digit_str((m / 10) % 10));
    s.append(digit_str(m % 10));
    s.append(" ");
    s.append(unit_str(i));
    s
}

/// One directory entry, as the caller read it: the display name, whether
/// it is a sub-directory, the modification time in Unix seconds when it
/// was readable, and the byte size.
pub struct DirEntry {
    pub name: String,
    pub is_dir: bool,
    pub modified: Option<i64>,
    pub size: u64,
}

/// Relies on chrono's `DateTime` formatting: the given Unix time rendered
/// in the machine's local zone as year-month-day hour:minute, or empty for
/// a time chrono cannot represent. The text depends on the machine's time
/// zone, so nothing is assumed about it.
#[verifier::external_body]
fn format_local_minute(secs: i64) -> String {
    match chrono::DateTime::from_timestamp(secs, 0) {
        Some(t) => t.with_timezone(&chrono::Local).format("%Y-%m-%d %H:%M").to_string(),
        None => String::new(),
    }
}

/// The grid column template: one column per enabled optional column, and
/// a final flexible one when any is enabled.
pub open spec fn grid_main(st: bool, ss: bool) -> Seq<char> {
    if st && ss {
        ("auto auto 1fr")@
    } else if st || ss {
        ("auto 1fr")@
    } else {
        ("auto")@
    }
}

/// The grid position of the first data column.
pub open spec fn grid_first(st: bool, ss: bool) -> Seq<char> {
    if st && ss {
        ("1 / 4")@
    } else if st || ss {
        ("1 / 3")@
    } else {
        ("1 / 2")@
    }
}

fn grid_main_str(st: bool, ss: bool) -> (r: &'static str)
    ensures
        r@ == grid_main(st, ss),
{
    if st && ss {
        "auto auto 1fr"
    } else if st || ss {
        "auto 1fr"
    } else {
        "auto"
    }
}

fn grid_first_str(st: bool, ss: bool) -> (r: &'static str)
    ensures
        r@ == grid_first(st, ss),
{
    if st && ss {
        "1 / 4"
    } else if st || ss {
        "1 / 3"
    } else {
        "1 / 2"
    }
}

/// One listing row: the link, with a trailing slash for sub-directories,
/// then the optional time and size cells. The size cell is empty for
/// sub-directories.
pub open spec fn spec_row(
    name: Seq<char>,
    is_dir: bool,
    t: Seq<char>,
    size: nat,
    st: bool,
    ss: bool,
) -> Seq<char> {
    let dn = if is_dir {
        name + ("/")@
    } else {
        name
    };
    ("<a href=\"")@ + dn + ("\">")@ + dn + ("</a>")@ + (if st {
        ("<time>")@ + t + ("</time>")@
    } else {
        Seq::empty()
    }) + (if ss {
        ("<span>")@ + (if is_dir {
            Seq::empty()
        } else {
            spec_size_text(size)
        }) + ("</span>")@
    } else {
        Seq::empty()
    })
}

/// The rows for the entries from `i` on, with `ts[i]` as the time text of
/// entry `i`.
pub open spec fn rows_from(
    des: Seq<DirEntry>,
    ts: Seq<Seq<char>>,
    i: int,
    st: bool,
    ss: bool,
) -> Seq<char>
    decreases des.len() - i when 0 <= i <= des.len()
{
    if i >= des.len() {
        Seq::empty()
    } else {
        spec_row(des[i].name@, des[i].is_dir, ts[i], des[i].size as nat, st, ss) + rows_from(
            des,
            ts,
            i + 1,
            st,
            ss,
        )
    }
}

/// The whole listing page for a title, the enabled columns, the entries
/// and their time texts.
pub open spec fn spec_listing(
    title: Seq<char>,
    st: bool,
    ss: bool,
    des: Seq<DirEntry>,
    ts: Seq<Seq<char>>,
) -> Seq<char> {
    ("<!DOCTYPE html><html><head><meta charset=\"utf-8\"><title>")@ + title + (
    "</title><style>main{display:grid;grid-template-columns:")@ + grid_main(st, ss) + (
    "}main a:first-child{grid-column:")@ + grid_first(st, ss) + ("}</style></head><body><h1>")@
        + title + ("</h1><main>")@ + rows_from(des, ts, 0, st, ss) + ("</main></body></html>")@
}

/// The rendered page matches the entries: one time text per entry, empty
/// where no modification time was known, and the output is exactly the
/// page those texts give.
pub open spec fn listing_ok(
    out: Seq<char>,
    title: Seq<char>,
    st: bool,
    ss: bool,
    des: Seq<DirEntry>,
    ts: Seq<Seq<char>>,
) -> bool {
    &&& ts.len() == des.len()
    &&& forall|i: int|
        0 <= i < des.len() && (#[trigger] des[i]).modified is None ==> ts[i] == Seq::<
            char,
        >::empty()
    &&& out == spec_listing(title, st, ss, des, ts)
}

/// Renders the HTML directory index. The time texts come from the local
/// clock rendering above, so they are existentially quantified: for some
/// per-entry texts — empty wherever no time was known — the output is
/// exactly the page they give.
/// Appends one listing row to `out`.
#[verifier::rlimit(100)]
fn append_row(out: &mut String, e: &DirEntry, t: &str, st: bool, ss: bool)
    ensures
        final(out)@ == old(out)@ + spec_row(e.name@, e.is_dir, t@, e.size as nat, st, ss),
{
    let ghost out0 = out@;
    let mut dn = e.name.clone();
    if e.is_dir {
        dn.append("/");
    }
    out.append("<a href=\"");
    out.append(dn.as_str());
    out.append("\">");
    out.append(dn.as_str());
    out.append("</a>");
    if st {
        out.append("<time>");
        out.append(t);
        out.append("</time>");
    }
    if ss {
        out.append("<span>");
        if !e.is_dir {
            out.append(bytes_to_size(e.size).as_str());
        }
        out.append("</span>");
    }
    proof {
        assert(out@ =~= out0 + spec_row(e.name@, e.is_dir, t@, e.size as nat, st, ss));
    }
}

#[verifier::rlimit(100)]
pub fn response_dir_html(
    title: &str,
    show_time: bool,
    show_size: bool,
    entries: &Vec<DirEntry>,
) -> (r: String)
    ensures
        exists|ts: Seq<Seq<char>>|
            #[trigger] listing_ok(r@, title@, show_time, show_size, entries@, ts),
{
    let n = entries.len();
    let mut times: Vec<String> = Vec::new();
    let mut i: usize = 0;
    while i < n
        invariant
            i <= n,
            n == entries@.len(),
            times@.len() == i,
            forall|j: int|
                0 <= j < i && (#[trigger] entries@[j]).modified is None ==> times@[j]@ == Seq::<
                    char,
                >::empty(),
        decreases n - i,
    {
        let t = match entries[i].modified {
            Some(secs) => format_local_minute(secs),
            None => String::new(),
        };
        times.push(t);
        i = i + 1;
    }
    let ghost ts = Seq::new(entries@.len(), |j: int| times@[j]@);
    let mut out: String =
        "<!DOCTYPE html><html><head><meta charset=\"utf-8\"><title>".to_owned();
    out.append(title);
    out.append("</title><style>main{display:grid;grid-template-columns:");
    out.append(grid_main_str(show_time, show_size));
    out.append("}main a:first-child{grid-column:");
    out.append(grid_first_str(show_time, show_size));
    out.append("}</style></head><body><h1>");
    out.append(title);
    out.append("</h1><main>");
    let ghost head = out@;
    let mut k: usize = 0;
    while k < n
        invariant
            k <= n,
            n == entries@.len(),
            n == times@.len(),
            ts == Seq::new(entries@.len(), |j: int| times@[j]@),
            out@ + rows_from(entries@, ts, k as int, show_time, show_size) == head + rows_from(
                entries@,
                ts,
                0,
                show_time,
                show_size,
            ),
        decreases n - k,
    {
        let ghost out0 = out@;
        append_row(&mut out, &entries[k], times[k].as_str(), show_time, show_size);
        proof {
            assert(out@ + rows_from(entries@, ts, k + 1, show_time, show_size) =~= out0
                + rows_from(entries@, ts, k as int, show_time, show_size));
        }
        k = k + 1;
    }
    out.append("</main></body></html>");
    proof {
        assert(out@ =~= spec_listing(title@, show_time, show_size, entries@, ts));
        assert(listing_ok(out@, title@, show_time, show_size, entries@, ts));
    }
    out
}

} // verus!
