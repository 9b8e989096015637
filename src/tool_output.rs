//! Reading the text that the TLS diagnostic tool prints: whether a
//! constrained handshake went through, and which suite an unconstrained
//! handshake settled on.

use vstd::prelude::*;
use crate::names::{canonical_form, convert_openssl_to_iana};
use crate::text::{chars_of, contains_str, has_infix};

verus! {

/// Position of the first `c` in `s`, or the length of `s` if there is none.
pub open spec fn index_of(s: Seq<char>, c: char) -> nat
    decreases s.len(),
{
    if s.len() == 0 {
        0
    } else if s[0] == c {
        0
    } else {
        1 + index_of(s.drop_first(), c)
    }
}

/// The characters with the Unicode `White_Space` property.
pub open spec fn is_white_space(c: char) -> bool {
    let v = c as u32;
    (9 <= v && v <= 13) || v == 32 || v == 0x85 || v == 0xA0 || v == 0x1680 || (0x2000 <= v
        && v <= 0x200A) || v == 0x2028 || v == 0x2029 || v == 0x202F || v == 0x205F || v
        == 0x3000
}

/// `s` without its trailing white space.
pub open spec fn trim_end(s: Seq<char>) -> Seq<char>
    decreases s.len(),
{
    if s.len() > 0 && is_white_space(s.last()) {
        trim_end(s.drop_last())
    } else {
        s
    }
}

/// `s` without its leading and trailing white space.
pub open spec fn trimmed(s: Seq<char>) -> Seq<char>
    decreases s.len(),
{
    if s.len() > 0 && is_white_space(s[0]) {
        trimmed(s.drop_first())
    } else {
        trim_end(s)
    }
}

/// A line on which the tool reports the negotiated cipher.
pub open spec fn is_cipher_line(line: Seq<char>) -> bool {
    has_infix(line, "Cipher    :"@) || has_infix(line, "Cipher:"@)
}

/// The text between the first and the second `:` of a line (or its end).
pub open spec fn second_field(line: Seq<char>) -> Seq<char> {
    let rest = line.subrange(index_of(line, ':') + 1int, line.len() as int);
    rest.subrange(0, index_of(rest, ':') as int)
}

/// The cipher a single line reports: present on a cipher line whose second
/// field, trimmed, is neither empty nor `NONE`.
pub open spec fn cipher_on_line(line: Seq<char>) -> Option<Seq<char>> {
    if is_cipher_line(line) && index_of(line, ':') < line.len() {
        let c = trimmed(second_field(line));
        if c.len() > 0 && c != "NONE"@ {
            Some(c)
        } else {
            None
        }
    } else {
        None
    }
}

/// The cipher reported by the first line of `s` that reports one.
pub open spec fn reported_cipher(s: Seq<char>) -> Option<Seq<char>>
    decreases s.len(),
{
    let k = index_of(s, '\n');
    match cipher_on_line(s.subrange(0, k as int)) {
        Some(c) => Some(c),
        None => if k < s.len() {
            reported_cipher(s.subrange(k + 1int, s.len() as int))
        } else {
            None
        },
    }
}

/// The negotiated suite that the tool's output reports, in canonical form.
pub open spec fn negotiated_suite(output: Seq<char>) -> Option<Seq<char>> {
    match reported_cipher(output) {
        Some(c) => Some(canonical_form(c)),
        None => None,
    }
}

/// A constrained handshake went through: the output shows a successful
/// verification or a cipher line, or the tool itself reported success.
pub open spec fn probe_succeeded(output: Seq<char>, exit_success: bool) -> bool {
    has_infix(output, "Verify return code: 0"@) || has_infix(output, "Cipher    :"@)
        || exit_success
}

fn is_white_space_char(c: char) -> (r: bool)
    ensures
        r == is_white_space(c),
{
    let v = c as u32;
    (9 <= v && v <= 13) || v == 32 || v == 0x85 || v == 0xA0 || v == 0x1680 || (0x2000 <= v
        && v <= 0x200A) || v == 0x2028 || v == 0x2029 || v == 0x202F || v == 0x205F || v
        == 0x3000
}

/// Position of the first `c` in `t` at or after `from`, or the length of `t`.
fn find_char(t: &Vec<char>, from: usize, c: char) -> (r: usize)
    requires
        from <= t@.len(),
    ensures
        from <= r <= t@.len(),
        r == from + index_of(t@.subrange(from as int, t@.len() as int), c),
{
    let n = t.len();
    let mut i = from;
    while i < n && t[i] != c
        invariant
            n == t@.len(),
            from <= i <= n,
            index_of(t@.subrange(from as int, n as int), c) == (i - from) + index_of(
                t@.subrange(i as int, n as int),
                c,
            ),
        decreases n - i,
    {
        assert(t@.subrange(i as int, n as int).drop_first() =~= t@.subrange(i + 1, n as int));
        i += 1;
    }
    i
}

/// The characters of `t` from `lo` up to `hi`.
fn slice_chars(t: &Vec<char>, lo: usize, hi: usize) -> (r: Vec<char>)
    requires
        lo <= hi <= t@.len(),
    ensures
        r@ == t@.subrange(lo as int, hi as int),
{
    let mut r: Vec<char> = Vec::new();
    let mut i = lo;
    while i < hi
        invariant
            lo <= i <= hi,
            hi <= t@.len(),
            r@ == t@.subrange(lo as int, i as int),
        decreases hi - i,
    {
        r.push(t[i]);
        i += 1;
        assert(r@ =~= t@.subrange(lo as int, i as int));
    }
    r
}

/// Whether the characters of `t` from `lo` up to `hi` spell `p`.
fn range_spells(t: &Vec<char>, lo: usize, hi: usize, p: &str) -> (r: bool)
    requires
        lo <= hi <= t@.len(),
    ensures
        r == (t@.subrange(lo as int, hi as int) == p@),
{
    let a = slice_chars(t, lo, hi);
    let b = chars_of(p);
    if a.len() != b.len() {
        return false;
    }
    let mut i: usize = 0;
    while i < a.len()
        invariant
            a@ == t@.subrange(lo as int, hi as int),
            b@ == p@,
            a@.len() == b@.len(),
            i <= a@.len(),
            forall|k: int| 0 <= k < i ==> a@[k] == b@[k],
        decreases a@.len() - i,
    {
        if a[i] != b[i] {
            assert(a@[i as int] != b@[i as int]);
            return false;
        }
        i += 1;
    }
    assert(a@ =~= b@);
    true
}

/// The bounds, within `t`, of the characters from `from` up to `to` with
/// leading and trailing white space left out.
fn trim_span(t: &Vec<char>, from: usize, to: usize) -> (r: (usize, usize))
    requires
        from <= to <= t@.len(),
    ensures
        from <= r.0 <= r.1 <= to,
        t@.subrange(r.0 as int, r.1 as int) == trimmed(t@.subrange(from as int, to as int)),
{
    let ghost field = t@.subrange(from as int, to as int);
    let mut lo = from;
    while lo < to && is_white_space_char(t[lo])
        invariant
            from <= lo <= to <= t@.len(),
            field == t@.subrange(from as int, to as int),
            trimmed(field) == trimmed(t@.subrange(lo as int, to as int)),
        decreases to - lo,
    {
        assert(t@.subrange(lo as int, to as int).drop_first() =~= t@.subrange(
            lo + 1,
            to as int,
        ));
        lo += 1;
    }
    let mut hi = to;
    while hi > lo && is_white_space_char(t[hi - 1])
        invariant
            from <= lo <= hi <= to <= t@.len(),
            lo < to ==> !is_white_space(t@[lo as int]),
            lo < to ==> trimmed(field) == trim_end(t@.subrange(lo as int, hi as int)),
            lo == to ==> trimmed(field) == t@.subrange(lo as int, hi as int),
        decreases hi - lo,
    {
        assert(t@.subrange(lo as int, hi as int).drop_last() =~= t@.subrange(
            lo as int,
            hi - 1,
        ));
        hi -= 1;
    }
    (lo, hi)
}

/// Where on `line` the reported cipher stands, if the line reports one.
fn cipher_span(line: &Vec<char>) -> (r: Option<(usize, usize)>)
    ensures
        match cipher_on_line(line@) {
            None => r is None,
            Some(c) => r matches Some((lo, hi)) && lo <= hi <= line@.len()
                && line@.subrange(lo as int, hi as int) == c,
        },
{
    if !(contains_str(line, "Cipher    :") || contains_str(line, "Cipher:")) {
        return None;
    }
    let n = line.len();
    let p = find_char(line, 0, ':');
    assert(line@.subrange(0, n as int) =~= line@);
    if p == n {
        return None;
    }
    let q = find_char(line, p + 1, ':');
    assert(second_field(line@) =~= line@.subrange(p + 1, q as int));
    let (lo, hi) = trim_span(line, p + 1, q);
    if hi > lo && !range_spells(line, lo, hi, "NONE") {
        Some((lo, hi))
    } else {
        None
    }
}

/// The suite that an unconstrained run of the diagnostic tool reports as
/// negotiated, normalised to the canonical naming scheme; absent when no
/// line of the output reports one.
pub fn negotiated_suite_from_output(output: &str) -> (r: Option<String>)
    ensures
        match negotiated_suite(output@) {
            None => r is None,
            Some(c) => r is Some && r->0@ == c,
        },
{
    let t = chars_of(output);
    let n = t.len();
    let mut start: usize = 0;
    assert(t@.subrange(0, n as int) =~= t@);
    loop
        invariant
            n == t@.len(),
            t@ == output@,
            start <= n,
            reported_cipher(output@) == reported_cipher(t@.subrange(start as int, n as int)),
        decreases n - start,
    {
        let end = find_char(&t, start, '\n');
        let ghost rest = t@.subrange(start as int, n as int);
        let line = slice_chars(&t, start, end);
        assert(rest.subrange(0, index_of(rest, '\n') as int) =~= line@);
        match cipher_span(&line) {
            Some((lo, hi)) => {
                let cipher = output.substring_char(start + lo, start + hi);
                assert(cipher@ =~= line@.subrange(lo as int, hi as int));
                return Some(convert_openssl_to_iana(cipher));
            },
            None => {
                if end == n {
                    return None;
                }
                assert(rest.subrange(index_of(rest, '\n') + 1int, rest.len() as int)
                    =~= t@.subrange(end + 1, n as int));
                start = end + 1;
            },
        }
    }
}

/// Whether a constrained handshake through the diagnostic tool succeeded,
/// judged from its standard output and its own success signal.
pub fn cipher_probe_succeeded(output: &str, exit_success: bool) -> (r: bool)
    ensures
        r == probe_succeeded(output@, exit_success),
{
    let t = chars_of(output);
    contains_str(&t, "Verify return code: 0") || contains_str(&t, "Cipher    :") || exit_success
}

} // verus!
