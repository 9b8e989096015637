//! Display form of binary key material: uppercase hexadecimal, 32 digits
//! (16 bytes) to a line.

use vstd::prelude::*;

verus! {

/// The hexadecimal digits, by value.
pub open spec fn digits() -> Seq<char> {
    "0123456789ABCDEF"@
}

/// The two uppercase digits of a byte, high nibble first.
pub open spec fn byte_hex(b: u8) -> Seq<char> {
    seq![digits()[(b / 16) as int], digits()[(b % 16) as int]]
}

/// The uppercase digits of `b`, two per byte.
pub open spec fn hex_of(b: Seq<u8>) -> Seq<char>
    decreases b.len(),
{
    if b.len() == 0 {
        Seq::empty()
    } else {
        hex_of(b.drop_last()) + byte_hex(b.last())
    }
}

/// The number of bytes shown on one line.
pub const BYTES_PER_LINE: usize = 16;

/// The digits of `b`, 16 bytes to a line, the lines joined by newlines.
pub open spec fn hex_lines(b: Seq<u8>) -> Seq<char>
    decreases b.len(),
{
    if b.len() <= BYTES_PER_LINE {
        hex_of(b)
    } else {
        hex_of(b.subrange(0, BYTES_PER_LINE as int)) + "\n"@ + hex_lines(
            b.subrange(BYTES_PER_LINE as int, b.len() as int),
        )
    }
}

/// Appends the digits of `bytes[lo..hi]` to `out`.
fn append_hex(out: &mut String, bytes: &[u8], lo: usize, hi: usize)
    requires
        lo <= hi <= bytes@.len(),
    ensures
        final(out)@ == old(out)@ + hex_of(bytes@.subrange(lo as int, hi as int)),
{
    let table = "0123456789ABCDEF";
    proof {
        reveal_strlit("0123456789ABCDEF");
    }
    let ghost base = out@;
    let mut i = lo;
    assert(hex_of(bytes@.subrange(lo as int, lo as int)) =~= Seq::<char>::empty());
    assert(out@ =~= base + hex_of(bytes@.subrange(lo as int, lo as int)));
    while i < hi
        invariant
            lo <= i <= hi <= bytes@.len(),
            table@ == digits(),
            digits().len() == 16,
            out@ == base + hex_of(bytes@.subrange(lo as int, i as int)),
        decreases hi - i,
    {
        let b = bytes[i];
        let high = (b / 16) as usize;
        let low = (b % 16) as usize;
        out.append(table.substring_char(high, high + 1));
        out.append(table.substring_char(low, low + 1));
        let ghost s = bytes@.subrange(lo as int, i + 1);
        assert(s.drop_last() =~= bytes@.subrange(lo as int, i as int));
        assert(s.last() == b);
        assert(byte_hex(b) =~= digits().subrange(high as int, high + 1) + digits().subrange(
            low as int,
            low + 1,
        ));
        i += 1;
        assert(out@ =~= base + hex_of(bytes@.subrange(lo as int, i as int)));
    }
}

/// Formats bytes as uppercase hexadecimal, two digits per byte, with a
/// newline after every 32 digits except the last line.
pub fn format_hex(bytes: &[u8]) -> (r: String)
    ensures
        r@ == hex_lines(bytes@),
{
    let n = bytes.len();
    let mut r = String::new();
    let mut start: usize = 0;
    assert(bytes@.subrange(0, n as int) =~= bytes@);
    while start < n
        invariant
            n == bytes@.len(),
            start <= n,
            start == 0 ==> r@ == Seq::<char>::empty(),
            0 < start < n ==> hex_lines(bytes@) == r@ + "\n"@ + hex_lines(
                bytes@.subrange(start as int, n as int),
            ),
            start == n && n > 0 ==> hex_lines(bytes@) == r@,
        decreases n - start,
    {
        let ghost rest = bytes@.subrange(start as int, n as int);
        let ghost before = r@;
        if start == 0 {
            assert(rest =~= bytes@);
        }
        if start > 0 {
            r.append("\n");
        }
        let end = if n - start <= BYTES_PER_LINE {
            n
        } else {
            start + BYTES_PER_LINE
        };
        append_hex(&mut r, bytes, start, end);
        if end == n {
            assert(rest =~= bytes@.subrange(start as int, end as int));
        } else {
            assert(rest.subrange(0, BYTES_PER_LINE as int) =~= bytes@.subrange(
                start as int,
                end as int,
            ));
            assert(rest.subrange(BYTES_PER_LINE as int, rest.len() as int) =~= bytes@.subrange(
                end as int,
                n as int,
            ));
        }
        if start > 0 {
            assert(r@ =~= before + "\n"@ + hex_of(bytes@.subrange(start as int, end as int)));
        } else {
            assert(r@ =~= hex_of(bytes@.subrange(start as int, end as int)));
        }
        start = end;
    }
    if n == 0 {
        assert(hex_lines(bytes@) =~= Seq::<char>::empty());
    }
    r
}

} // verus!
