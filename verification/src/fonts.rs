//! Font bookkeeping: the per-run registry of stream-local font ids and the
//! dense dedup table assigning one `fd_key` per physical (file, face) pair.

use vstd::prelude::*;

use crate::bytes::dec_digits;

verus! {

/// A byte the URL encoding escapes: a C0 control, DEL, or any non-ASCII
/// byte.
pub open spec fn needs_escape(b: u8) -> bool {
    b < 0x20 || b == 0x7F || b >= 0x80
}

/// Uppercase hexadecimal digit for `n < 16`.
pub open spec fn hex_digit(n: int) -> u8 {
    if n < 10 {
        (48 + n) as u8
    } else {
        (55 + n) as u8
    }
}

/// The percent-encoding of `s` under the C0-controls set: an escaped byte
/// becomes `%` plus two uppercase hex digits, every other byte passes
/// through unchanged.
pub open spec fn percent_encoded(s: Seq<u8>) -> Seq<u8>
    decreases s.len(),
{
    if s.len() == 0 {
        Seq::empty()
    } else {
        (if needs_escape(s[0]) {
            seq![37u8, hex_digit(s[0] as int / 16), hex_digit(s[0] as int % 16)]
        } else {
            seq![s[0]]
        }) + percent_encoded(s.drop_first())
    }
}

/// Relies on `percent_encoding::percent_encode` with the `CONTROLS` set:
/// it escapes exactly the C0 controls, DEL and the non-ASCII bytes, each
/// as `%` plus two uppercase hex digits, and passes every other byte
/// through unchanged, in order.
#[verifier::external_body]
pub(crate) fn percent_encode_controls(b: &[u8]) -> (r: Vec<u8>)
    ensures
        r@ == percent_encoded(b@),
{
    percent_encoding::percent_encode(b, percent_encoding::CONTROLS).to_string().into_bytes()
}

/// Role a font plays in the document.
pub enum FontRole {
    /// The font of the running text.
    MainBody,
}

/// Metadata for one stream-local font id.
pub struct FontInfo {
    /// Role of the font.
    pub role: FontRole,
    /// Percent-encoded relative URL of the copied font file.
    pub rel_url: Vec<u8>,
    /// Dense index into the shared font-data table.
    pub fd_key: usize,
    /// Size in TeX-scaled fixed-point units.
    pub size: i32,
    /// Face index inside the font file.
    pub face_index: u32,
    /// Color override.
    pub color_rgba: Option<u32>,
    /// Extend override.
    pub extend: Option<u32>,
    /// Slant override.
    pub slant: Option<u32>,
    /// Embolden override.
    pub embolden: Option<u32>,
}

/// First `FontInfo` paired with `k` in `s`, if any.
pub open spec fn font_assoc(s: Seq<(i32, FontInfo)>, k: i32) -> Option<FontInfo>
    decreases s.len(),
{
    if s.len() == 0 {
        None
    } else if s[0].0 == k {
        Some(s[0].1)
    } else {
        font_assoc(s.drop_first(), k)
    }
}

/// Table of declared fonts, keyed by stream-local font id. An id is
/// inserted once and never overwritten.
pub struct FontRegistry {
    entries: Vec<(i32, FontInfo)>,
}

impl FontRegistry {
    /// The entries in declaration order.
    pub closed spec fn entries(&self) -> Seq<(i32, FontInfo)> {
        self.entries@
    }

    /// The info declared for font id `k`.
    pub open spec fn spec_get(&self, k: i32) -> Option<FontInfo> {
        font_assoc(self.entries(), k)
    }

    /// Whether font id `k` was declared.
    pub open spec fn contains(&self, k: i32) -> bool {
        self.spec_get(k) is Some
    }

    /// An empty registry.
    pub fn new() -> (r: Self)
        ensures
            r.entries() == Seq::<(i32, FontInfo)>::empty(),
    {
        FontRegistry { entries: Vec::new() }
    }

    /// Number of declared fonts.
    pub fn len(&self) -> (r: usize)
        ensures
            r == self.entries().len(),
    {
        self.entries.len()
    }

    /// The entry at position `i`, in declaration order.
    pub fn entry_at(&self, i: usize) -> (r: (i32, &FontInfo))
        requires
            i < self.entries().len(),
        ensures
            (r.0, *r.1) == self.entries()[i as int],
    {
        let e = &self.entries[i];
        (e.0, &e.1)
    }

    /// Looks up the info declared for `k`.
    pub fn get(&self, k: i32) -> (r: Option<&FontInfo>)
        ensures
            match r {
                Some(v) => self.spec_get(k) == Some(*v),
                None => self.spec_get(k) is None,
            },
    {
        proof {
            assert(self.entries().skip(0) =~= self.entries());
        }
        let mut i: usize = 0;
        while i < self.entries.len()
            invariant
                i <= self.entries().len(),
                font_assoc(self.entries().skip(i as int), k) == self.spec_get(k),
            decreases self.entries().len() - i,
        {
            if self.entries[i].0 == k {
                assert(self.entries().skip(i as int)[0] == self.entries()[i as int]);
                return Some(&self.entries[i].1);
            }
            proof {
                assert(self.entries().skip(i as int)[0] == self.entries()[i as int]);
                assert(self.entries().skip(i as int).drop_first() =~= self.entries().skip(
                    i + 1 as int,
                ));
            }
            i += 1;
        }
        assert(self.entries().skip(i as int) =~= Seq::<(i32, FontInfo)>::empty());
        None
    }

    /// Whether font id `k` was declared.
    pub fn contains_id(&self, k: i32) -> (r: bool)
        ensures
            r == self.contains(k),
    {
        match self.get(k) {
            Some(_) => true,
            None => false,
        }
    }

    /// Declares `info` for id `k`. The first declaration of an id wins: a
    /// re-declaration leaves the registry unchanged.
    pub fn insert_first(&mut self, k: i32, info: FontInfo)
        ensures
            old(self).contains(k) ==> final(self).entries() == old(self).entries(),
            !old(self).contains(k) ==> final(self).entries() == old(self).entries().push(
                (k, info),
            ) && final(self).spec_get(k) == Some(info),
            forall|k2: i32| k2 != k ==> final(self).spec_get(k2) == old(self).spec_get(k2),
    {
        let ghost orig = self.entries();
        if self.contains_id(k) {
            return;
        }
        self.entries.push((k, info));
        proof {
            assert(self.entries() =~= orig.push((k, info)));
            lemma_font_assoc_push(orig, k, info);
            assert forall|k2: i32| k2 != k implies self.spec_get(k2) == old(self).spec_get(
                k2,
            ) by {
                lemma_font_assoc_push_other(orig, k, info, k2);
            }
        }
    }
}

proof fn lemma_font_assoc_push(s: Seq<(i32, FontInfo)>, k: i32, v: FontInfo)
    requires
        font_assoc(s, k) is None,
    ensures
        font_assoc(s.push((k, v)), k) == Some(v),
    decreases s.len(),
{
    if s.len() == 0 {
        assert(s.push((k, v))[0] == (k, v));
    } else {
        assert(s.push((k, v))[0] == s[0]);
        assert(s.push((k, v)).drop_first() =~= s.drop_first().push((k, v)));
        lemma_font_assoc_push(s.drop_first(), k, v);
    }
}

proof fn lemma_font_assoc_push_other(s: Seq<(i32, FontInfo)>, k: i32, v: FontInfo, k2: i32)
    requires
        k2 != k,
    ensures
        font_assoc(s.push((k, v)), k2) == font_assoc(s, k2),
    decreases s.len(),
{
    if s.len() == 0 {
        assert(s.push((k, v))[0] == (k, v));
        assert(s.push((k, v)).drop_first() =~= Seq::<(i32, FontInfo)>::empty());
    } else {
        assert(s.push((k, v))[0] == s[0]);
        assert(s.push((k, v)).drop_first() =~= s.drop_first().push((k, v)));
        lemma_font_assoc_push_other(s.drop_first(), k, v, k2);
    }
}

/// Index of the pair `(name, face)` in `s`, or -1.
pub open spec fn pair_index(s: Seq<(Seq<u8>, u32)>, name: Seq<u8>, face: u32) -> int
    decreases s.len(),
{
    if s.len() == 0 {
        -1
    } else if s[0].0 == name && s[0].1 == face {
        0
    } else if pair_index(s.drop_first(), name, face) == -1 {
        -1
    } else {
        pair_index(s.drop_first(), name, face) + 1
    }
}

proof fn lemma_pair_index_range(s: Seq<(Seq<u8>, u32)>, name: Seq<u8>, face: u32)
    ensures
        pair_index(s, name, face) == -1 || (0 <= pair_index(s, name, face) < s.len() && s[
            pair_index(s, name, face)
        ] == (name, face)),
    decreases s.len(),
{
    if s.len() > 0 {
        lemma_pair_index_range(s.drop_first(), name, face);
    }
}

proof fn lemma_pair_index_first(s: Seq<(Seq<u8>, u32)>, name: Seq<u8>, face: u32, i: int)
    requires
        0 <= i < s.len(),
        s[i] == (name, face),
        forall|j: int| 0 <= j < i ==> s[j] != (name, face),
    ensures
        pair_index(s, name, face) == i,
    decreases i,
{
    if i == 0 {
        assert(s[0].0 == name && s[0].1 == face);
    } else {
        assert(s[0] != (name, face));
        assert(!(s[0].0 == name && s[0].1 == face));
        assert(s.drop_first()[i - 1] == s[i]);
        assert(forall|j: int| 0 <= j < i - 1 ==> s.drop_first()[j] == s[j + 1]);
        lemma_pair_index_first(s.drop_first(), name, face, i - 1);
    }
}

proof fn lemma_pair_index_none(s: Seq<(Seq<u8>, u32)>, name: Seq<u8>, face: u32)
    requires
        forall|j: int| 0 <= j < s.len() ==> s[j] != (name, face),
    ensures
        pair_index(s, name, face) == -1,
    decreases s.len(),
{
    if s.len() > 0 {
        assert(s[0] != (name, face));
        assert(!(s[0].0 == name && s[0].1 == face));
        assert(forall|j: int| 0 <= j < s.drop_first().len() ==> s.drop_first()[j] == s[j + 1]);
        lemma_pair_index_none(s.drop_first(), name, face);
    }
}

/// The dedup table behind `fd_key`: one dense index per (resolved font
/// file, face index) pair, in first-seen order.
pub struct FdKeyTable {
    keys: Vec<(Vec<u8>, u32)>,
}

impl FdKeyTable {
    /// The interned pairs; the `fd_key` of a pair is its position.
    pub closed spec fn keys(&self) -> Seq<(Seq<u8>, u32)> {
        self.keys@.map(|i: int, e: (Vec<u8>, u32)| (e.0@, e.1))
    }

    /// An empty table.
    pub fn new() -> (r: Self)
        ensures
            r.keys() == Seq::<(Seq<u8>, u32)>::empty(),
    {
        let r = FdKeyTable { keys: Vec::new() };
        proof {
            assert(r.keys() =~= Seq::<(Seq<u8>, u32)>::empty());
        }
        r
    }

    /// Number of distinct (file, face) pairs seen so far.
    pub fn len(&self) -> (r: usize)
        ensures
            r == self.keys().len(),
    {
        self.keys.len()
    }

    /// Returns the `fd_key` for `(name, face)`, interning the pair at the
    /// next dense index when it is new; the flag says whether it was new.
    /// Identical pairs share one key, so the underlying file is loaded
    /// exactly once.
    pub fn intern(&mut self, name: Vec<u8>, face: u32) -> (r: (usize, bool))
        ensures
            r.1 == (pair_index(old(self).keys(), name@, face) == -1),
            !r.1 ==> final(self).keys() == old(self).keys() && r.0 == pair_index(
                old(self).keys(),
                name@,
                face,
            ),
            r.1 ==> r.0 == old(self).keys().len() && final(self).keys() == old(self).keys().push(
                (name@, face),
            ),
    {
        let ghost orig = self.keys();
        let mut i: usize = 0;
        while i < self.keys.len()
            invariant
                self.keys() == orig,
                orig == old(self).keys(),
                i <= orig.len(),
                forall|j: int| 0 <= j < i ==> orig[j] != (name@, face),
            decreases orig.len() - i,
        {
            let hit = crate::bytes::slices_eq(self.keys[i].0.as_slice(), name.as_slice())
                && self.keys[i].1 == face;
            if hit {
                proof {
                    assert(orig[i as int] == (name@, face));
                    lemma_pair_index_first(orig, name@, face, i as int);
                }
                return (i, false);
            }
            proof {
                assert(orig[i as int] == (self.keys@[i as int].0@, self.keys@[i as int].1));
            }
            i += 1;
        }
        proof {
            lemma_pair_index_none(orig, name@, face);
        }
        let next = self.keys.len();
        self.keys.push((name, face));
        proof {
            assert(self.keys() =~= orig.push((name@, face)));
        }
        (next, true)
    }
}

/// Two font declarations resolving to the same (file, face) pair share
/// one `fd_key`, and the second never loads the file again: interning a
/// pair that interning just added (or that was already present) finds it
/// at the same dense index.
pub proof fn lemma_fd_key_dedup(keys: Seq<(Seq<u8>, u32)>, name: Seq<u8>, face: u32)
    ensures
        pair_index(keys, name, face) == -1 ==> pair_index(keys.push((name, face)), name, face)
            == keys.len(),
        pair_index(keys, name, face) != -1 ==> 0 <= pair_index(keys, name, face) < keys.len(),
    decreases keys.len(),
{
    lemma_pair_index_range(keys, name, face);
    if pair_index(keys, name, face) == -1 {
        lemma_pair_index_range(keys, name, face);
        assert forall|j: int| 0 <= j < keys.len() implies keys.push((name, face))[j] != (
        name,
        face,
        ) by {
            lemma_pair_index_miss(keys, name, face, j);
        }
        lemma_pair_index_first(keys.push((name, face)), name, face, keys.len() as int);
    }
}

proof fn lemma_pair_index_miss(s: Seq<(Seq<u8>, u32)>, name: Seq<u8>, face: u32, j: int)
    requires
        pair_index(s, name, face) == -1,
        0 <= j < s.len(),
    ensures
        s[j] != (name, face),
    decreases s.len(),
{
    if j == 0 {
    } else {
        assert(s.drop_first()[j - 1] == s[j]);
        assert(pair_index(s.drop_first(), name, face) == -1) by {
            if pair_index(s.drop_first(), name, face) != -1 {
                lemma_pair_index_range(s.drop_first(), name, face);
            }
        }
        lemma_pair_index_miss(s.drop_first(), name, face, j - 1);
    }
}

/// The CSS font family for `fd_key`: the fixed stem followed by the key in
/// decimal.
pub open spec fn family_name(fd_key: nat) -> Seq<u8> {
    seq![116u8, 100u8, 117u8, 120u8] + dec_digits(fd_key)
}

/// The CSS font family for alternate-map `index` of `fd_key`: the plain
/// family name, `vg`, and the index in decimal.
pub open spec fn family_vg_name(fd_key: nat, index: nat) -> Seq<u8> {
    family_name(fd_key) + seq![118u8, 103u8] + dec_digits(index)
}

/// Formats the CSS font family for `fd_key`.
pub fn font_family(fd_key: usize) -> (r: Vec<u8>)
    ensures
        r@ == family_name(fd_key as nat),
{
    let mut r: Vec<u8> = vec![116u8, 100u8, 117u8, 120u8];
    let digits = crate::bytes::format_u64(fd_key as u64);
    r.extend_from_slice(digits.as_slice());
    proof {
        assert(r@ =~= family_name(fd_key as nat));
    }
    r
}

/// Formats the CSS font family for alternate-map `index` of `fd_key`.
pub fn font_family_vg(fd_key: usize, index: usize) -> (r: Vec<u8>)
    ensures
        r@ == family_vg_name(fd_key as nat, index as nat),
{
    let mut r = font_family(fd_key);
    r.push(118);
    r.push(103);
    let digits = crate::bytes::format_u64(index as u64);
    r.extend_from_slice(digits.as_slice());
    proof {
        assert(r@ =~= family_vg_name(fd_key as nat, index as nat));
    }
    r
}

} // verus!
