//! The asset manager: destination path to origin, with last registration
//! winning, finalized once at end of run.
//!
//! Registration is pure bookkeeping; the finalizing pass either hands the
//! caller a sanitized plan to copy and write files, or folds everything
//! into the persisted manifest without touching disk.

use vstd::prelude::*;

use crate::bytes::spec_split_first;
use crate::dict::Dict;
use crate::manifest;
use crate::paths::{clean_segments, path_ok, sanitize_path};
use crate::report::{EngineError, Warning};

verus! {

/// A special routed to the asset manager by the caller.
pub enum Special {
    /// `provide file <src> <dest>`: register a copy.
    ProvideFile(Vec<u8>),
    /// `provide special <kind> <dest>`: register a generated asset.
    ProvideSpecial(Vec<u8>),
    /// Anything else; it may belong to another subsystem.
    Other,
}

/// Where a registered destination path comes from.
pub enum AssetOrigin {
    /// Copy a file from the source stack directly to the output
    /// directory.
    Copy(Vec<u8>),
    /// Emit a CSS file describing the ensemble of fonts that have been
    /// used.
    FontCss,
}

/// The asset manager: destination path mapped to origin. A duplicate
/// destination overwrites (last registration wins).
pub struct Assets {
    /// The registered destinations.
    pub paths: Dict<AssetOrigin>,
}

/// What `try_handle_special` must do to the registered paths for one
/// special: the destination and, for a copy, the source path of the new
/// entry (`None` marks a font-CSS origin).
pub open spec fn special_effect(s: Special) -> Option<(Seq<u8>, Option<Seq<u8>>)> {
    match s {
        Special::ProvideFile(spec) => match spec_split_first(spec@, 32) {
            Some(parts) => Some((parts.1, Some(parts.0))),
            None => None,
        },
        Special::ProvideSpecial(spec) => match spec_split_first(spec@, 32) {
            Some(parts) => if parts.0 == crate::protocol::spec_kind_font_css() {
                Some((parts.1, None))
            } else {
                None
            },
            None => None,
        },
        Special::Other => None,
    }
}

/// The origin registered for an effect: a copy of the named source, or
/// the font CSS.
pub open spec fn effect_origin(o: AssetOrigin, src: Option<Seq<u8>>) -> bool {
    match (src, o) {
        (Some(s), AssetOrigin::Copy(t)) => t@ == s,
        (None, AssetOrigin::FontCss) => true,
        _ => false,
    }
}

impl Assets {
    /// An empty asset manager.
    pub fn new() -> (r: Self)
        ensures
            r.paths.entries() == Seq::<(Seq<u8>, AssetOrigin)>::empty(),
            r.paths.wf(),
    {
        Assets { paths: Dict::new() }
    }

    /// Handles a provide-file or provide-special command, registering the
    /// destination; the flag says only whether the special was consumed,
    /// not whether it was well-formed.
    pub fn try_handle_special(&mut self, special: Special) -> (r: (bool, Option<Warning>))
        requires
            old(self).paths.wf(),
        ensures
            final(self).paths.wf(),
            match special_effect(special) {
                Some(entry) => {
                    &&& r.0 == true
                    &&& r.1 is None
                    &&& final(self).paths.spec_get(entry.0) matches Some(o) && effect_origin(
                        o,
                        entry.1,
                    )
                    &&& forall|k: Seq<u8>|
                        k != entry.0 ==> final(self).paths.spec_get(k) == old(
                            self,
                        ).paths.spec_get(k)
                },
                None => {
                    &&& r.0 == false
                    &&& final(self).paths.entries() == old(self).paths.entries()
                    &&& (match special {
                        Special::Other => r.1 is None,
                        Special::ProvideFile(_) => r.1 matches Some(Warning::MalformedSpecial(_)),
                        Special::ProvideSpecial(spec) => if spec_split_first(spec@, 32) is Some {
                            r.1 matches Some(Warning::UnsupportedSpecial(_))
                        } else {
                            r.1 matches Some(Warning::MalformedSpecial(_))
                        },
                    })
                },
            },
    {
        match special {
            Special::ProvideFile(spec) => {
                match crate::bytes::split_once(spec.as_slice(), 32) {
                    Some(parts) => {
                        let (src, dest) = parts;
                        self.paths.insert(dest, AssetOrigin::Copy(src));
                        (true, None)
                    },
                    None => (false, Some(Warning::MalformedSpecial(spec))),
                }
            },
            Special::ProvideSpecial(spec) => {
                match crate::bytes::split_once(spec.as_slice(), 32) {
                    Some(parts) => {
                        let (kind, dest) = parts;
                        let css_kind = crate::protocol::kind_font_css();
                        if crate::bytes::slices_eq(kind.as_slice(), css_kind.as_slice()) {
                            self.paths.insert(dest, AssetOrigin::FontCss);
                            (true, None)
                        } else {
                            (false, Some(Warning::UnsupportedSpecial(spec)))
                        }
                    },
                    None => (false, Some(Warning::MalformedSpecial(spec))),
                }
            },
            Special::Other => (false, None),
        }
    }

    /// The finalizing plan: every registered destination sanitized into
    /// its output segments, in registration order, with its origin. The
    /// first offending destination path is fatal.
    pub fn emit_plan(self) -> (r: Result<Vec<(Vec<Vec<u8>>, AssetOrigin)>, EngineError>)
        ensures
            match r {
                Ok(plan) => {
                    &&& plan@.len() == self.paths.entries().len()
                    &&& forall|i: int|
                        0 <= i < plan@.len() ==> path_ok(
                            (#[trigger] self.paths.entries()[i]).0,
                        ) && plan@[i].0.deep_view() == clean_segments(self.paths.entries()[i].0)
                            && origin_like(plan@[i].1, self.paths.entries()[i].1)
                },
                Err(e) => exists|i: int|
                    0 <= i < self.paths.entries().len() && !path_ok(
                        (#[trigger] self.paths.entries()[i]).0,
                    ),
            },
    {
        let mut plan: Vec<(Vec<Vec<u8>>, AssetOrigin)> = Vec::new();
        let n = self.paths.len();
        let mut i: usize = 0;
        while i < n
            invariant
                n == self.paths.entries().len(),
                i <= n,
                plan@.len() == i,
                forall|j: int|
                    0 <= j < i ==> path_ok((#[trigger] self.paths.entries()[j]).0) && plan@[j]
                        .0.deep_view() == clean_segments(self.paths.entries()[j].0) && origin_like(
                        plan@[j].1,
                        self.paths.entries()[j].1,
                    ),
            decreases n - i,
        {
            let (dest, origin) = self.paths.entry_at(i);
            let segs = match sanitize_path(dest.as_slice()) {
                Ok(segs) => segs,
                Err(e) => {
                    proof {
                        assert(!path_ok(self.paths.entries()[i as int].0));
                    }
                    return Err(e);
                },
            };
            let origin_copy = match origin {
                AssetOrigin::Copy(src) => AssetOrigin::Copy(
                    vstd::slice::slice_to_vec(src.as_slice()),
                ),
                AssetOrigin::FontCss => AssetOrigin::FontCss,
            };
            plan.push((segs, origin_copy));
            i += 1;
        }
        Ok(plan)
    }

    /// The alternate finalize: folds the registered destinations into the
    /// persisted manifest `base`, turning a copy into a copy origin and a
    /// font-CSS registration into a copy of the structured face data.
    pub fn into_serialize(
        self,
        base: Dict<manifest::AssetOrigin>,
        css_data: &manifest::FontEnsembleAssetData,
    ) -> (r: Dict<manifest::AssetOrigin>)
        requires
            self.paths.wf(),
            base.wf(),
        ensures
            r.wf(),
            forall|k: Seq<u8>|
                self.paths.spec_get(k) is None ==> r.spec_get(k) == base.spec_get(k),
            forall|k: Seq<u8>|
                (#[trigger] self.paths.spec_get(k)) matches Some(o) ==> serialized_like(
                    o,
                    r.spec_get(k),
                    *css_data,
                ),
    {
        let mut out = base;
        let n = self.paths.len();
        let mut i: usize = 0;
        while i < n
            invariant
                self.paths.wf(),
                n == self.paths.entries().len(),
                i <= n,
                out.wf(),
                forall|k: Seq<u8>|
                    !key_among(self.paths.entries(), k, i as int) ==> out.spec_get(k)
                        == base.spec_get(k),
                forall|j: int|
                    0 <= j < i ==> serialized_like(
                        (#[trigger] self.paths.entries()[j]).1,
                        out.spec_get(self.paths.entries()[j].0),
                        *css_data,
                    ),
            decreases n - i,
        {
            let (dest, origin) = self.paths.entry_at(i);
            let dest_copy = vstd::slice::slice_to_vec(dest.as_slice());
            let info = match origin {
                AssetOrigin::Copy(src) => manifest::AssetOrigin::Copy(
                    vstd::slice::slice_to_vec(src.as_slice()),
                ),
                AssetOrigin::FontCss => manifest::AssetOrigin::FontCss(css_data.duplicate()),
            };
            out.insert(dest_copy, info);
            proof {
                assert forall|j: int| 0 <= j < i + 1 implies serialized_like(
                    (#[trigger] self.paths.entries()[j]).1,
                    out.spec_get(self.paths.entries()[j].0),
                    *css_data,
                ) by {
                    if j < i {
                        assert(self.paths.entries()[j].0 != self.paths.entries()[i as int].0);
                    }
                }
            }
            i += 1;
        }
        proof {
            assert forall|k: Seq<u8>| self.paths.spec_get(k) is None implies out.spec_get(k)
                == base.spec_get(k) by {
                if key_among(self.paths.entries(), k, n as int) {
                    lemma_key_among_get(self.paths.entries(), k, n as int);
                }
            }
            assert forall|k: Seq<u8>| (#[trigger] self.paths.spec_get(k)) is Some implies
                serialized_like(self.paths.spec_get(k)->0, out.spec_get(k), *css_data) by {
                lemma_get_key_among(self.paths.entries(), k);
                let j = choose|j: int|
                    0 <= j < n && (#[trigger] self.paths.entries()[j]).0 == k;
                assert forall|j2: int| 0 <= j2 < j implies (#[trigger] self.paths.entries()[j2]).0
                    != k by {
                    assert(self.paths.entries()[j2].0 != self.paths.entries()[j].0);
                }
                crate::dict::lemma_assoc_at(self.paths.entries(), k, j);
            }
        }
        out
    }
}

/// The two live origins hold the same data.
pub open spec fn origin_like(a: AssetOrigin, b: AssetOrigin) -> bool {
    match (a, b) {
        (AssetOrigin::Copy(s), AssetOrigin::Copy(t)) => s@ == t@,
        (AssetOrigin::FontCss, AssetOrigin::FontCss) => true,
        _ => false,
    }
}

/// The serialized origin `m` corresponds to the live origin `o`, with the
/// font-CSS payload taken from `css`.
pub open spec fn serialized_like(
    o: AssetOrigin,
    m: Option<manifest::AssetOrigin>,
    css: manifest::FontEnsembleAssetData,
) -> bool {
    match o {
        AssetOrigin::Copy(src) => m matches Some(manifest::AssetOrigin::Copy(s)) && s@ == src@,
        AssetOrigin::FontCss => m matches Some(manifest::AssetOrigin::FontCss(e))
            && manifest::ensemble_equiv(css, e),
    }
}

/// Whether `k` is among the first `n` keys of `entries`.
pub open spec fn key_among(entries: Seq<(Seq<u8>, AssetOrigin)>, k: Seq<u8>, n: int) -> bool {
    exists|j: int| 0 <= j < n && (#[trigger] entries[j]).0 == k
}

/// A key among the entries is found by the association lookup.
proof fn lemma_key_among_get(entries: Seq<(Seq<u8>, AssetOrigin)>, k: Seq<u8>, n: int)
    requires
        n <= entries.len(),
        key_among(entries, k, n),
    ensures
        crate::dict::assoc(entries, k) is Some,
    decreases entries.len(),
{
    let j = choose|j: int| 0 <= j < n && (#[trigger] entries[j]).0 == k;
    if entries[0].0 == k {
    } else {
        assert(entries.drop_first()[j - 1] == entries[j]);
        assert(key_among(entries.drop_first(), k, n - 1));
        lemma_key_among_get(entries.drop_first(), k, n - 1);
    }
}

/// A key the association lookup finds is among the entries.
proof fn lemma_get_key_among(entries: Seq<(Seq<u8>, AssetOrigin)>, k: Seq<u8>)
    requires
        crate::dict::assoc(entries, k) is Some,
    ensures
        key_among(entries, k, entries.len() as int),
    decreases entries.len(),
{
    if entries.len() > 0 {
        if entries[0].0 == k {
            assert(key_among(entries, k, entries.len() as int));
        } else {
            lemma_get_key_among(entries.drop_first(), k);
            let j = choose|j: int|
                0 <= j < entries.drop_first().len() && (#[trigger] entries.drop_first()[j]).0 == k;
            assert(entries[j + 1] == entries.drop_first()[j]);
            assert(key_among(entries, k, entries.len() as int));
        }
    }
}

} // verus!
