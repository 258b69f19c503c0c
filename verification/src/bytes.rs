//! Byte-string utilities underlying the wire-protocol parsing.
//!
//! Specials arrive from the stream decoder as UTF-8 byte strings; all
//! protocol parsing in this crate works directly on those bytes.

use vstd::prelude::*;

verus! {

/// `p` is a prefix of `s`.
pub open spec fn starts_with(s: Seq<u8>, p: Seq<u8>) -> bool {
    p.len() <= s.len() && s.subrange(0, p.len() as int) == p
}

/// Whether the byte slice `s` begins with `p`.
pub fn slice_starts_with(s: &[u8], p: &[u8]) -> (r: bool)
    ensures
        r == starts_with(s@, p@),
{
    if p.len() > s.len() {
        return false;
    }
    let mut i: usize = 0;
    while i < p.len()
        invariant
            i <= p.len() <= s.len(),
            forall|j: int| 0 <= j < i ==> s@[j] == p@[j],
        decreases p.len() - i,
    {
        if s[i] != p[i] {
            assert(s@.subrange(0, p@.len() as int)[i as int] != p@[i as int]);
            return false;
        }
        i += 1;
    }
    assert(s@.subrange(0, p@.len() as int) =~= p@);
    true
}

/// If `s` begins with `p`, returns the remainder after the prefix.
pub fn strip_prefix(s: &[u8], p: &[u8]) -> (r: Option<Vec<u8>>)
    ensures
        match r {
            Some(rest) => starts_with(s@, p@) && rest@ == s@.skip(p@.len() as int),
            None => !starts_with(s@, p@),
        },
{
    if !slice_starts_with(s, p) {
        return None;
    }
    let mut rest: Vec<u8> = Vec::new();
    let mut i: usize = p.len();
    while i < s.len()
        invariant
            p.len() <= i <= s.len(),
            rest@ == s@.subrange(p@.len() as int, i as int),
        decreases s.len() - i,
    {
        rest.push(s[i]);
        assert(rest@ =~= s@.subrange(p@.len() as int, i + 1 as int));
        i += 1;
    }
    assert(rest@ =~= s@.skip(p@.len() as int));
    Some(rest)
}

/// Whether two byte slices hold the same bytes.
pub fn slices_eq(s: &[u8], t: &[u8]) -> (r: bool)
    ensures
        r == (s@ == t@),
{
    if s.len() != t.len() {
        return false;
    }
    let mut i: usize = 0;
    while i < s.len()
        invariant
            i <= s.len() == t.len(),
            forall|j: int| 0 <= j < i ==> s@[j] == t@[j],
        decreases s.len() - i,
    {
        if s[i] != t[i] {
            return false;
        }
        i += 1;
    }
    assert(s@ =~= t@);
    true
}

/// First index of `b` in `s`, or -1.
pub open spec fn find_byte(s: Seq<u8>, b: u8) -> int
    decreases s.len(),
{
    if s.len() == 0 {
        -1
    } else if s[0] == b {
        0
    } else if find_byte(s.drop_first(), b) == -1 {
        -1
    } else {
        find_byte(s.drop_first(), b) + 1
    }
}

/// Position and minimality of the first occurrence.
pub proof fn lemma_find_byte_range(s: Seq<u8>, b: u8)
    ensures
        find_byte(s, b) == -1 ==> !s.contains(b),
        find_byte(s, b) != -1 ==> {
            &&& 0 <= find_byte(s, b) < s.len()
            &&& s[find_byte(s, b)] == b
            &&& forall|j: int| 0 <= j < find_byte(s, b) ==> s[j] != b
        },
    decreases s.len(),
{
    if s.len() > 0 {
        lemma_find_byte_range(s.drop_first(), b);
        if find_byte(s, b) == -1 {
            assert forall|i: int| 0 <= i < s.len() implies s[i] != b by {
                if i > 0 {
                    assert(s.drop_first()[i - 1] == s[i]);
                    assert(!s.drop_first().contains(b));
                }
            }
        } else if s[0] != b {
            assert forall|j: int| 0 <= j < find_byte(s, b) implies s[j] != b by {
                if j > 0 {
                    assert(s.drop_first()[j - 1] == s[j]);
                    assert(s.drop_first()[j - 1] != b);
                }
            }
        }
    }
}

/// The first occurrence of `b` in `s` is where it visibly stands.
pub proof fn lemma_find_byte_at(s: Seq<u8>, b: u8, i: int)
    requires
        0 <= i < s.len(),
        s[i] == b,
        forall|j: int| 0 <= j < i ==> s[j] != b,
    ensures
        find_byte(s, b) == i,
    decreases i,
{
    if i == 0 {
    } else {
        assert(s[0] != b);
        assert(s.drop_first()[i - 1] == s[i]);
        assert(forall|j: int| 0 <= j < i - 1 ==> s.drop_first()[j] == s[j + 1]);
        lemma_find_byte_at(s.drop_first(), b, i - 1);
    }
}

/// `s` split at the first occurrence of `sep`: the part before and the
/// part after, or `None` when `sep` does not occur.
pub open spec fn spec_split_first(s: Seq<u8>, sep: u8) -> Option<(Seq<u8>, Seq<u8>)> {
    let i = find_byte(s, sep);
    if i == -1 {
        None
    } else {
        Some((s.take(i), s.skip(i + 1)))
    }
}

/// Splits `s` at the first occurrence of `sep` into the part before and
/// the part after; `None` when `sep` does not occur.
pub fn split_once(s: &[u8], sep: u8) -> (r: Option<(Vec<u8>, Vec<u8>)>)
    ensures
        match r {
            Some(parts) => {
                &&& s@ == parts.0@ + seq![sep] + parts.1@
                &&& !parts.0@.contains(sep)
                &&& spec_split_first(s@, sep) == Some((parts.0@, parts.1@))
            },
            None => !s@.contains(sep) && spec_split_first(s@, sep) is None,
        },
{
    let mut i: usize = 0;
    while i < s.len()
        invariant
            i <= s.len(),
            forall|j: int| 0 <= j < i ==> s@[j] != sep,
        decreases s.len() - i,
    {
        if s[i] == sep {
            let mut before: Vec<u8> = Vec::new();
            let mut j: usize = 0;
            while j < i
                invariant
                    j <= i < s.len(),
                    before@ == s@.subrange(0, j as int),
                decreases i - j,
            {
                before.push(s[j]);
                assert(before@ =~= s@.subrange(0, j + 1 as int));
                j += 1;
            }
            let mut after: Vec<u8> = Vec::new();
            let mut k: usize = i + 1;
            while k < s.len()
                invariant
                    i + 1 <= k <= s.len(),
                    after@ == s@.subrange(i + 1 as int, k as int),
                decreases s.len() - k,
            {
                after.push(s[k]);
                assert(after@ =~= s@.subrange(i + 1 as int, k + 1 as int));
                k += 1;
            }
            assert(s@[i as int] == sep);
            assert(s@ =~= before@ + seq![sep] + after@);
            assert(forall|j: int| 0 <= j < before@.len() ==> before@[j] != sep);
            proof {
                lemma_find_byte_at(s@, sep, i as int);
                assert(s@.take(i as int) =~= before@);
                assert(s@.skip(i as int + 1) =~= after@);
            }
            return Some((before, after));
        }
        i += 1;
    }
    proof {
        lemma_find_byte_range(s@, sep);
        if find_byte(s@, sep) != -1 {
            assert(s@[find_byte(s@, sep)] == sep);
            assert(s@.contains(sep));
        }
    }
    return None;
}

/// The decimal digits of `n`, most significant first.
pub open spec fn dec_digits(n: nat) -> Seq<u8>
    decreases n,
{
    if n < 10 {
        seq![(48 + n) as u8]
    } else {
        dec_digits(n / 10).push((48 + n % 10) as u8)
    }
}

/// Formats `n` in decimal ASCII.
pub fn format_u64(n: u64) -> (r: Vec<u8>)
    ensures
        r@ == dec_digits(n as nat),
{
    let mut rev: Vec<u8> = Vec::new();
    let mut m: u64 = n;
    loop
        invariant_except_break
            dec_digits(n as nat) == dec_digits(m as nat) + rev@.reverse(),
        ensures
            dec_digits(n as nat) == rev@.reverse(),
        decreases m,
    {
        let ghost prev = rev@;
        let d: u8 = (m % 10) as u8;
        rev.push(48 + d);
        proof {
            assert(rev@.reverse() =~= seq![(48 + (m as nat) % 10) as u8] + prev.reverse());
            if m >= 10 {
                assert(dec_digits(m as nat) == dec_digits((m as nat) / 10).push(
                    (48 + (m as nat) % 10) as u8,
                ));
                assert(dec_digits((m as nat) / 10) + rev@.reverse() =~= dec_digits(m as nat)
                    + prev.reverse());
            } else {
                assert(dec_digits(m as nat) =~= seq![(48 + (m as nat) % 10) as u8]);
                assert(dec_digits(n as nat) =~= rev@.reverse());
            }
        }
        if m < 10 {
            break;
        }
        m = m / 10;
    }
    let mut r: Vec<u8> = Vec::new();
    let mut i: usize = rev.len();
    while i > 0
        invariant
            i <= rev.len(),
            r@ == rev@.subrange(i as int, rev@.len() as int).reverse(),
        decreases i,
    {
        i -= 1;
        r.push(rev[i]);
        assert(r@ =~= rev@.subrange(i as int, rev@.len() as int).reverse());
    }
    proof {
        assert(rev@.subrange(0, rev@.len() as int) =~= rev@);
    }
    r
}

/// Last index of `b` in `s`, or -1.
pub open spec fn rfind_byte(s: Seq<u8>, b: u8) -> int
    decreases s.len(),
{
    if s.len() == 0 {
        -1
    } else if s.last() == b {
        s.len() - 1
    } else {
        rfind_byte(s.drop_last(), b)
    }
}

/// The part of `s` after its last `/`; all of `s` when it has none.
pub open spec fn basename_of(s: Seq<u8>) -> Seq<u8> {
    s.skip(rfind_byte(s, 47) + 1)
}

proof fn lemma_rfind_byte_at(s: Seq<u8>, b: u8, i: int)
    requires
        0 <= i < s.len(),
        s[i] == b,
        forall|j: int| i < j < s.len() ==> s[j] != b,
    ensures
        rfind_byte(s, b) == i,
    decreases s.len(),
{
    if i == s.len() - 1 {
    } else {
        assert(s.last() != b);
        assert(s.drop_last()[i] == s[i]);
        assert(forall|j: int| 0 <= j < s.drop_last().len() ==> s.drop_last()[j] == s[j]);
        lemma_rfind_byte_at(s.drop_last(), b, i);
    }
}

proof fn lemma_rfind_byte_none(s: Seq<u8>, b: u8)
    requires
        forall|j: int| 0 <= j < s.len() ==> s[j] != b,
    ensures
        rfind_byte(s, b) == -1,
    decreases s.len(),
{
    if s.len() > 0 {
        assert(s.last() != b);
        assert(forall|j: int| 0 <= j < s.drop_last().len() ==> s.drop_last()[j] == s[j]);
        lemma_rfind_byte_none(s.drop_last(), b);
    }
}

/// The basename of a path: what follows the last `/`, or the whole path.
pub fn basename(s: &[u8]) -> (r: Vec<u8>)
    ensures
        r@ == basename_of(s@),
{
    let mut start: usize = 0;
    let mut i: usize = s.len();
    loop
        invariant_except_break
            i <= s.len(),
            start == 0,
            forall|j: int| i <= j < s@.len() ==> s@[j] != 47,
        ensures
            start == rfind_byte(s@, 47) + 1,
            start <= s@.len(),
        decreases i,
    {
        if i == 0 {
            proof {
                lemma_rfind_byte_none(s@, 47);
            }
            break;
        }
        i -= 1;
        if s[i] == 47 {
            start = i + 1;
            proof {
                lemma_rfind_byte_at(s@, 47, i as int);
            }
            break;
        }
    }
    let mut r: Vec<u8> = Vec::new();
    let mut k: usize = start;
    proof {
        assert(r@ =~= s@.subrange(start as int, start as int));
    }
    while k < s.len()
        invariant
            start <= k <= s.len(),
            r@ == s@.subrange(start as int, k as int),
        decreases s.len() - k,
    {
        r.push(s[k]);
        assert(r@ =~= s@.subrange(start as int, k + 1 as int));
        k += 1;
    }
    proof {
        assert(r@ =~= basename_of(s@));
    }
    r
}

/// The UTF-8 encoding of one character.
pub fn encode_char(c: char) -> (r: Vec<u8>)
    ensures
        r@ == vstd::utf8::encode_scalar(c as u32),
{
    let u: u32 = c as u32;
    let r: Vec<u8>;
    if u <= 0x7F {
        r = vec![(u & 0x7F) as u8];
    } else if u <= 0x7FF {
        r = vec![0xC0u8 | ((u >> 6) & 0x1F) as u8, 0x80u8 | (u & 0x3F) as u8];
    } else if u <= 0xFFFF {
        r = vec![
            0xE0u8 | ((u >> 12) & 0x0F) as u8,
            0x80u8 | ((u >> 6) & 0x3F) as u8,
            0x80u8 | (u & 0x3F) as u8,
        ];
    } else {
        r = vec![
            0xF0u8 | ((u >> 18) & 0x7) as u8,
            0x80u8 | ((u >> 12) & 0x3F) as u8,
            0x80u8 | ((u >> 6) & 0x3F) as u8,
            0x80u8 | (u & 0x3F) as u8,
        ];
    }
    proof {
        assert(r@ =~= vstd::utf8::encode_scalar(c as u32));
    }
    r
}

} // verus!
