//! Byte-level shape of one input record.
//!
//! A record is a comma-separated line of ASCII/UTF-8 text.  This module gives
//! the mathematical model of splitting such a line into fields and of
//! stripping ASCII whitespace from a field, together with verified executable
//! counterparts.
//!
//! Trimming is deliberately ASCII-only: the wire format is ASCII text, so
//! only the six ASCII whitespace bytes are stripped, and the bytes of any
//! non-ASCII whitespace character count as data.

use vstd::prelude::*;

verus! {

/// The field separator of a record: an ASCII comma.
pub const COMMA: u8 = 44;

/// Whether `b` is an ASCII whitespace byte, as `str::trim` strips them from
/// ASCII text: space, horizontal tab, line feed, vertical tab, form feed or
/// carriage return.
pub open spec fn is_ascii_space(b: u8) -> bool {
    b == 32 || (9 <= b && b <= 13)
}

/// `s` with every leading and trailing ASCII whitespace byte removed.
/// Bytes of non-ASCII whitespace characters are kept: the wire format is
/// ASCII text.
pub open spec fn trimmed(s: Seq<u8>) -> Seq<u8>
    decreases s.len(),
{
    if s.len() == 0 {
        s
    } else if is_ascii_space(s[0]) {
        trimmed(s.subrange(1, s.len() as int))
    } else if is_ascii_space(s[s.len() - 1]) {
        trimmed(s.subrange(0, s.len() - 1))
    } else {
        s
    }
}

/// The index of the first comma in `s`, or `s.len()` if `s` holds none.
pub open spec fn first_comma(s: Seq<u8>) -> nat
    decreases s.len(),
{
    if s.len() == 0 {
        0
    } else if s[0] == COMMA {
        0
    } else {
        1 + first_comma(s.subrange(1, s.len() as int))
    }
}

/// `first_comma` points at a comma when there is one, and nothing before it
/// is a comma.
pub proof fn lemma_first_comma(s: Seq<u8>)
    ensures
        first_comma(s) <= s.len(),
        forall|k: int| 0 <= k < first_comma(s) ==> s[k] != COMMA,
        first_comma(s) < s.len() ==> s[first_comma(s) as int] == COMMA,
    decreases s.len(),
{
    if s.len() == 0 {
    } else if s[0] == COMMA {
    } else {
        let rest = s.subrange(1, s.len() as int);
        lemma_first_comma(rest);
        assert forall|k: int| 0 <= k < first_comma(s) implies s[k] != COMMA by {
            if k >= 1 {
                assert(rest[k - 1] == s[k]);
            }
        }
        if first_comma(s) < s.len() {
            assert(rest[first_comma(s) - 1] == s[first_comma(s) as int]);
        }
    }
}

/// `first_comma` is pinned by a comma-free prefix followed by a comma (or by
/// the end of the record).
pub proof fn lemma_first_comma_at(s: Seq<u8>, i: int)
    requires
        0 <= i <= s.len(),
        forall|k: int| 0 <= k < i ==> s[k] != COMMA,
        i < s.len() ==> s[i] == COMMA,
    ensures
        first_comma(s) == i,
    decreases s.len(),
{
    if s.len() == 0 {
    } else if s[0] == COMMA {
        assert(i == 0);
    } else {
        let rest = s.subrange(1, s.len() as int);
        assert(i >= 1);
        assert forall|k: int| 0 <= k < i - 1 implies rest[k] != COMMA by {
            assert(rest[k] == s[k + 1]);
        }
        if i - 1 < rest.len() {
            assert(rest[i - 1] == s[i]);
        }
        lemma_first_comma_at(rest, i - 1);
    }
}

/// The comma-separated fields of `s`, in order.  A record with no comma is a
/// single field; every comma ends a field, so a trailing comma yields a final
/// empty field.
pub open spec fn split_commas(s: Seq<u8>) -> Seq<Seq<u8>>
    decreases s.len(),
{
    let i = first_comma(s);
    if i >= s.len() {
        seq![s]
    } else {
        seq![s.subrange(0, i as int)] + split_commas(s.subrange(i as int + 1, s.len() as int))
    }
}

/// A record always splits into at least one field.
pub proof fn lemma_split_commas_len(s: Seq<u8>)
    ensures
        split_commas(s).len() >= 1,
{
}

/// A record splits into a single field exactly when it holds no comma.
pub proof fn lemma_single_field(s: Seq<u8>)
    ensures
        split_commas(s).len() == 1 <==> (forall|k: int| 0 <= k < s.len() ==> s[k] != COMMA),
{
    lemma_first_comma(s);
    if first_comma(s) >= s.len() {
    } else {
        lemma_split_commas_len(s.subrange(first_comma(s) as int + 1, s.len() as int));
        assert(s[first_comma(s) as int] == COMMA);
    }
}

/// The mathematical view of each byte vector in `fs`, in order.
pub open spec fn views_of(fs: Seq<Vec<u8>>) -> Seq<Seq<u8>> {
    Seq::new(fs.len(), |i: int| fs[i]@)
}

/// Whether `b` is ASCII whitespace.
pub fn is_space(b: u8) -> (r: bool)
    ensures
        r == is_ascii_space(b),
{
    b == 32 || (9 <= b && b <= 13)
}

/// `field` with leading and trailing ASCII whitespace removed, as a fresh
/// vector.  Non-ASCII whitespace is kept, as `trimmed` says.
pub fn trim_ascii(field: &[u8]) -> (t: Vec<u8>)
    ensures
        t@ == trimmed(field@),
{
    let n = field.len();
    let mut lo: usize = 0;
    proof {
        assert(field@.subrange(0, n as int) =~= field@);
    }
    while lo < n && is_space(field[lo])
        invariant
            lo <= n,
            n == field@.len(),
            trimmed(field@) == trimmed(field@.subrange(lo as int, n as int)),
        decreases n - lo,
    {
        proof {
            let cur = field@.subrange(lo as int, n as int);
            assert(cur[0] == field@[lo as int]);
            assert(cur.subrange(1, cur.len() as int) =~= field@.subrange(
                lo as int + 1,
                n as int,
            ));
        }
        lo += 1;
    }
    let mut hi: usize = n;
    while lo < hi && is_space(field[hi - 1])
        invariant
            lo <= hi <= n,
            n == field@.len(),
            lo < n ==> !is_ascii_space(field@[lo as int]),
            trimmed(field@) == trimmed(field@.subrange(lo as int, hi as int)),
        decreases hi,
    {
        proof {
            let cur = field@.subrange(lo as int, hi as int);
            assert(cur[0] == field@[lo as int]);
            assert(cur[cur.len() - 1] == field@[hi - 1]);
            assert(cur.subrange(0, cur.len() - 1) =~= field@.subrange(
                lo as int,
                hi as int - 1,
            ));
        }
        hi -= 1;
    }
    proof {
        let cur = field@.subrange(lo as int, hi as int);
        if cur.len() > 0 {
            assert(cur[0] == field@[lo as int]);
            assert(cur[cur.len() - 1] == field@[hi - 1]);
        }
        assert(trimmed(cur) == cur);
    }
    vstd::slice::slice_to_vec(vstd::slice::slice_subrange(field, lo, hi))
}

/// The comma-separated fields of `line`, in order, each as a fresh vector.
pub fn split_fields(line: &[u8]) -> (fields: Vec<Vec<u8>>)
    ensures
        views_of(fields@) == split_commas(line@),
{
    let n = line.len();
    let mut fields: Vec<Vec<u8>> = Vec::new();
    let mut start: usize = 0;
    proof {
        assert(views_of(fields@) =~= Seq::<Seq<u8>>::empty());
        assert(line@.subrange(0, n as int) =~= line@);
        assert(Seq::<Seq<u8>>::empty() + split_commas(line@) =~= split_commas(line@));
    }
    loop
        invariant_except_break
            start <= n,
            n == line@.len(),
            split_commas(line@) == views_of(fields@) + split_commas(
                line@.subrange(start as int, n as int),
            ),
        ensures
            views_of(fields@) == split_commas(line@),
        decreases n - start,
    {
        let mut j: usize = start;
        while j < n && line[j] != COMMA
            invariant
                start <= j <= n,
                n == line@.len(),
                forall|k: int| start <= k < j ==> line@[k] != COMMA,
            decreases n - j,
        {
            j += 1;
        }
        proof {
            let rest = line@.subrange(start as int, n as int);
            assert forall|k: int| 0 <= k < j - start implies rest[k] != COMMA by {
                assert(rest[k] == line@[start + k]);
            }
            if j < n {
                assert(rest[j - start] == line@[j as int]);
            }
            lemma_first_comma_at(rest, j - start);
        }
        let piece = vstd::slice::slice_to_vec(vstd::slice::slice_subrange(line, start, j));
        let ghost old_fields = fields@;
        fields.push(piece);
        proof {
            let rest = line@.subrange(start as int, n as int);
            assert(views_of(fields@) =~= views_of(old_fields) + seq![piece@]);
            assert(rest.subrange(0, j - start) =~= line@.subrange(start as int, j as int));
        }
        if j == n {
            proof {
                let rest = line@.subrange(start as int, n as int);
                assert(split_commas(rest) =~= seq![piece@]);
                assert(views_of(fields@) =~= split_commas(line@));
            }
            break;
        }
        proof {
            let rest = line@.subrange(start as int, n as int);
            assert(rest.subrange(j - start + 1, rest.len() as int) =~= line@.subrange(
                j + 1,
                n as int,
            ));
            assert(split_commas(rest) == seq![piece@] + split_commas(
                line@.subrange(j + 1, n as int),
            ));
            assert(views_of(old_fields) + split_commas(rest) =~= views_of(fields@)
                + split_commas(line@.subrange(j + 1, n as int)));
        }
        start = j + 1;
    }
    fields
}

} // verus!
