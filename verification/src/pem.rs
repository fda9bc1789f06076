//! PEM text: the base64 body of a certificate, without its armor lines and
//! line endings.

use vstd::prelude::*;
use vstd::string::StringSliceAdditionalSpecFns;

verus! {

/// The byte that ends a line.
pub const LINE_FEED: u8 = 10;

/// The byte that may precede a line feed as part of the line ending.
pub const CARRIAGE_RETURN: u8 = 13;

/// The number of bytes before the first line feed of `s`, or `s.len()` if it
/// holds none.
pub open spec fn first_line_len(s: Seq<u8>) -> int
    decreases s.len(),
{
    if s.len() == 0 || s[0] == LINE_FEED {
        0
    } else {
        1 + first_line_len(s.drop_first())
    }
}

/// The first line of `s` without its ending: a line feed, or a carriage
/// return and a line feed. A last line that no line feed ends is taken whole.
pub open spec fn first_line(s: Seq<u8>) -> Seq<u8> {
    let n = first_line_len(s);
    if n < s.len() && n > 0 && s[n - 1] == CARRIAGE_RETURN {
        s.subrange(0, n - 1)
    } else {
        s.subrange(0, n)
    }
}

/// What follows the first line of `s` and its ending.
pub open spec fn after_first_line(s: Seq<u8>) -> Seq<u8> {
    let n = first_line_len(s);
    if n < s.len() {
        s.subrange(n + 1, s.len() as int)
    } else {
        Seq::empty()
    }
}

/// The line that opens a PEM certificate block.
pub open spec fn begin_line() -> Seq<u8> {
    "-----BEGIN CERTIFICATE-----".spec_bytes()
}

/// The line that closes a PEM certificate block.
pub open spec fn end_line() -> Seq<u8> {
    "-----END CERTIFICATE-----".spec_bytes()
}

/// The base64 body of a PEM certificate: its lines joined, without line
/// endings and without the opening and closing lines.
pub open spec fn pem_body(s: Seq<u8>) -> Seq<u8>
    decreases s.len(),
    via pem_body_decreases
{
    if s.len() == 0 {
        Seq::empty()
    } else {
        let line = first_line(s);
        let kept = if line == begin_line() || line == end_line() {
            Seq::empty()
        } else {
            line
        };
        kept + pem_body(after_first_line(s))
    }
}

/// What follows the first line of a text that is not empty is shorter than
/// the text.
#[via_fn]
proof fn pem_body_decreases(s: Seq<u8>) {
    lemma_first_line_len_bounds(s);
}

/// The first line ends inside `s`, at a line feed if before the end.
pub proof fn lemma_first_line_len_bounds(s: Seq<u8>)
    ensures
        0 <= first_line_len(s) <= s.len(),
        first_line_len(s) < s.len() ==> s[first_line_len(s)] == LINE_FEED,
        forall|j: int| 0 <= j < first_line_len(s) ==> s[j] != LINE_FEED,
    decreases s.len(),
{
    if s.len() > 0 && s[0] != LINE_FEED {
        let t = s.drop_first();
        lemma_first_line_len_bounds(t);
        assert forall|j: int| 0 <= j < first_line_len(s) implies s[j] != LINE_FEED by {
            if j > 0 {
                assert(s[j] == t[j - 1]);
            }
        }
    }
}

/// The first line feed of `s` is where the first line ends.
proof fn lemma_first_line_len_is(s: Seq<u8>, k: int)
    requires
        0 <= k <= s.len(),
        forall|j: int| 0 <= j < k ==> s[j] != LINE_FEED,
        k == s.len() || s[k] == LINE_FEED,
    ensures
        first_line_len(s) == k,
    decreases s.len(),
{
    if s.len() > 0 && s[0] != LINE_FEED {
        let t = s.drop_first();
        lemma_first_line_len_is(t, k - 1);
    }
}

/// Whether the bytes of `s` from `from` up to `to` are those of `other`.
fn range_equals(s: &[u8], from: usize, to: usize, other: &[u8]) -> (r: bool)
    requires
        from <= to <= s@.len(),
    ensures
        r == (s@.subrange(from as int, to as int) == other@),
{
    if to - from != other.len() {
        return false;
    }
    let mut k: usize = 0;
    while k < other.len()
        invariant
            from <= to <= s@.len(),
            to - from == other@.len(),
            k <= other@.len(),
            forall|j: int| 0 <= j < k ==> s@[from + j] == other@[j],
        decreases other.len() - k,
    {
        if s[from + k] != other[k] {
            return false;
        }
        k += 1;
    }
    assert(s@.subrange(from as int, to as int) =~= other@);
    true
}

/// Strips a PEM certificate to its base64 body.
pub fn certificate_body(pem: &[u8]) -> (r: Vec<u8>)
    ensures
        r@ == pem_body(pem@),
{
    let begin = "-----BEGIN CERTIFICATE-----".as_bytes();
    let end = "-----END CERTIFICATE-----".as_bytes();
    let mut out: Vec<u8> = Vec::new();
    let mut pos: usize = 0;
    assert(pem@.subrange(0, pem@.len() as int) =~= pem@);
    while pos < pem.len()
        invariant
            pos <= pem@.len(),
            begin@ == begin_line(),
            end@ == end_line(),
            out@ + pem_body(pem@.subrange(pos as int, pem@.len() as int)) == pem_body(pem@),
        decreases pem.len() - pos,
    {
        let ghost rest = pem@.subrange(pos as int, pem@.len() as int);
        let ghost before = out@;
        let mut stop: usize = pos;
        while stop < pem.len() && pem[stop] != LINE_FEED
            invariant
                pos <= stop <= pem@.len(),
                forall|j: int| pos <= j < stop ==> pem@[j] != LINE_FEED,
            decreases pem.len() - stop,
        {
            stop += 1;
        }
        proof {
            lemma_first_line_len_is(rest, stop - pos);
        }
        let line_stop: usize = if stop < pem.len() && stop > pos && pem[stop - 1]
            == CARRIAGE_RETURN {
            stop - 1
        } else {
            stop
        };
        assert(pem@.subrange(pos as int, line_stop as int) =~= first_line(rest));
        let armor = range_equals(pem, pos, line_stop, begin) || range_equals(
            pem,
            pos,
            line_stop,
            end,
        );
        if !armor {
            let mut k: usize = pos;
            while k < line_stop
                invariant
                    pos <= k <= line_stop <= pem@.len(),
                    out@ == before + pem@.subrange(pos as int, k as int),
                decreases line_stop - k,
            {
                out.push(pem[k]);
                k += 1;
            }
        }
        let next: usize = if stop < pem.len() {
            stop + 1
        } else {
            stop
        };
        assert(pem@.subrange(next as int, pem@.len() as int) =~= after_first_line(rest));
        pos = next;
    }
    out
}

} // verus!
