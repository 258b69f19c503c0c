//! The persisted manifest: the serializable mapping from destination path
//! to tagged origin, used for carrying asset state across incremental
//! builds. A superset of what the live asset manager tracks: font files
//! with their glyph-variant maps are written by a separate emission path.

use vstd::prelude::*;

verus! {

/// The face types a font family distinguishes.
#[derive(Clone, Copy, Debug, PartialEq, Eq, Structural)]
pub enum FaceType {
    /// The regular (upright) font of a font family.
    Regular,
    /// The bold font of a family.
    Bold,
    /// The italic font of a family.
    Italic,
    /// The bold-italic font of a family.
    BoldItalic,
}

/// The character a glyph is reachable under in an alternate-mapped font
/// variant, and which variant that is.
#[derive(Clone, Copy)]
pub struct GlyphVariantMapping {
    /// The character the glyph should be mapped to.
    pub usv: char,
    /// Which alternative-mapped font to use; indices start at zero.
    pub index: usize,
}

/// An OpenType/TrueType font file plus the variant glyphs that require
/// alternate versions of it.
pub struct FontFileAssetData {
    /// The path to find the font file in the source stack.
    pub source: Vec<u8>,
    /// Variant glyphs requiring alternate versions of the font file,
    /// keyed by glyph id.
    pub vglyphs: Vec<(u16, GlyphVariantMapping)>,
}

/// Info about the font files defining one symbolic family: the output
/// path of each face.
pub struct FontFamilyAssetData {
    /// The output path of the font file providing each face type.
    pub faces: Vec<(FaceType, Vec<u8>)>,
}

/// Map from symbolic family name to info about its font files.
pub struct FontEnsembleAssetData {
    /// The families, keyed by name.
    pub families: Vec<(Vec<u8>, FontFamilyAssetData)>,
}

/// The tagged origin of one destination path in the persisted manifest.
pub enum AssetOrigin {
    /// Copy a file from the source stack directly to the output
    /// directory.
    Copy(Vec<u8>),
    /// Emit a CSS file describing the ensemble of fonts that have been
    /// used.
    FontCss(FontEnsembleAssetData),
    /// A font file with customized character map tables giving access to
    /// unusual glyphs.
    FontFile(FontFileAssetData),
}

/// The two family payloads hold the same faces.
pub open spec fn family_equiv(a: FontFamilyAssetData, b: FontFamilyAssetData) -> bool {
    &&& a.faces@.len() == b.faces@.len()
    &&& forall|i: int|
        0 <= i < a.faces@.len() ==> (#[trigger] a.faces@[i]).0 == b.faces@[i].0
            && a.faces@[i].1@ == b.faces@[i].1@
}

/// The two ensemble payloads describe the same families.
pub open spec fn ensemble_equiv(a: FontEnsembleAssetData, b: FontEnsembleAssetData) -> bool {
    &&& a.families@.len() == b.families@.len()
    &&& forall|i: int|
        0 <= i < a.families@.len() ==> (#[trigger] a.families@[i]).0@ == b.families@[i].0@
            && family_equiv(a.families@[i].1, b.families@[i].1)
}

impl FontFamilyAssetData {
    /// An equivalent copy of the family data.
    pub fn duplicate(&self) -> (r: Self)
        ensures
            family_equiv(*self, r),
    {
        let mut faces: Vec<(FaceType, Vec<u8>)> = Vec::new();
        let mut i: usize = 0;
        while i < self.faces.len()
            invariant
                i <= self.faces@.len(),
                faces@.len() == i,
                forall|j: int|
                    0 <= j < i ==> (#[trigger] faces@[j]).0 == self.faces@[j].0 && faces@[j].1@
                        == self.faces@[j].1@,
            decreases self.faces@.len() - i,
        {
            let face = self.faces[i].0;
            let path = vstd::slice::slice_to_vec(self.faces[i].1.as_slice());
            faces.push((face, path));
            i += 1;
        }
        FontFamilyAssetData { faces }
    }
}

impl FontEnsembleAssetData {
    /// An equivalent copy of the ensemble data.
    pub fn duplicate(&self) -> (r: Self)
        ensures
            ensemble_equiv(*self, r),
    {
        let mut families: Vec<(Vec<u8>, FontFamilyAssetData)> = Vec::new();
        let mut i: usize = 0;
        while i < self.families.len()
            invariant
                i <= self.families@.len(),
                families@.len() == i,
                forall|j: int|
                    0 <= j < i ==> (#[trigger] families@[j]).0@ == self.families@[j].0@
                        && family_equiv(families@[j].1, self.families@[j].1),
            decreases self.families@.len() - i,
        {
            let name = vstd::slice::slice_to_vec(self.families[i].0.as_slice());
            let data = self.families[i].1.duplicate();
            proof {
                assert(family_equiv(self.families@[i as int].1, data));
            }
            families.push((name, data));
            i += 1;
        }
        FontEnsembleAssetData { families }
    }
}

} // verus!
