//! Canvas regions: buffered glyph positions and the layout arithmetic run
//! when a region closes.
//!
//! A canvas buffers glyphs with offsets relative to its origin. On close,
//! a bounds pass unions per-glyph boxes computed from font metrics (in TeX
//! device units, all integer arithmetic), and a render pass picks each
//! glyph's character and CSS font family. Conversion of the integer
//! quantities to root-em floats is the caller's, as is every query against
//! the opaque font data.

use vstd::prelude::*;

use crate::fonts::{family_name, family_vg_name, FontRegistry};
use crate::report::EngineError;

verus! {

/// Glyph offsets fit comfortably in 33 bits: they are differences of two
/// 32-bit device coordinates.
pub open spec fn offset_in_range(v: int) -> bool {
    -0x1_0000_0000 <= v <= 0x1_0000_0000
}

/// One buffered glyph of a canvas: offset relative to the canvas origin,
/// owning font id, glyph index. Immutable once created.
#[derive(Debug)]
pub struct GlyphInfo {
    /// Horizontal offset from the canvas origin, device units.
    pub dx: i64,
    /// Vertical offset from the canvas origin, device units.
    pub dy: i64,
    /// Stream-local id of the owning font.
    pub font_num: i32,
    /// Glyph index in the font.
    pub glyph: u16,
}

impl GlyphInfo {
    /// Offsets are differences of device coordinates.
    pub open spec fn wf(&self) -> bool {
        offset_in_range(self.dx as int) && offset_in_range(self.dy as int)
    }
}

/// One nested math region and its buffered glyphs.
#[derive(Debug)]
pub struct CanvasState {
    /// Kind string of the opening special (`math`, `dmath`, other).
    pub kind: Vec<u8>,
    /// Nesting depth; the region is finalized when it reaches zero.
    pub depth: usize,
    /// Horizontal origin, device units.
    pub x0: i32,
    /// Vertical origin, device units.
    pub y0: i32,
    /// Buffered glyphs, in arrival order.
    pub glyphs: Vec<GlyphInfo>,
}

impl CanvasState {
    /// All buffered offsets are in range.
    pub open spec fn wf(&self) -> bool {
        forall|i: int| 0 <= i < self.glyphs@.len() ==> (#[trigger] self.glyphs@[i]).wf()
    }

    /// A fresh canvas at depth 1 with no glyphs.
    pub fn new(kind: Vec<u8>, x0: i32, y0: i32) -> (r: Self)
        ensures
            r.kind@ == kind@,
            r.depth == 1,
            r.x0 == x0,
            r.y0 == y0,
            r.glyphs@ == Seq::<GlyphInfo>::empty(),
            r.wf(),
    {
        let r = CanvasState { kind, depth: 1, x0, y0, glyphs: Vec::new() };
        proof {
            assert(r.glyphs@ =~= Seq::<GlyphInfo>::empty());
        }
        r
    }

    /// Buffers one glyph run (or text-and-glyphs) with offsets relative to
    /// the origin.
    pub fn buffer_glyphs(&mut self, font_num: i32, glyphs: &[u16], xs: &[i32], ys: &[i32])
        requires
            old(self).wf(),
            glyphs@.len() == xs@.len(),
            glyphs@.len() == ys@.len(),
        ensures
            final(self).kind == old(self).kind,
            final(self).depth == old(self).depth,
            final(self).x0 == old(self).x0,
            final(self).y0 == old(self).y0,
            final(self).wf(),
            final(self).glyphs@.len() == old(self).glyphs@.len() + glyphs@.len(),
            forall|i: int|
                0 <= i < old(self).glyphs@.len() ==> final(self).glyphs@[i] == old(
                    self,
                ).glyphs@[i],
            forall|i: int|
                0 <= i < glyphs@.len() ==> {
                    let g = #[trigger] final(self).glyphs@[old(self).glyphs@.len() + i];
                    &&& g.dx == xs@[i] - old(self).x0
                    &&& g.dy == ys@[i] - old(self).y0
                    &&& g.font_num == font_num
                    &&& g.glyph == glyphs@[i]
                },
    {
        let ghost orig = self.glyphs@;
        let x0: i64 = self.x0 as i64;
        let y0: i64 = self.y0 as i64;
        let mut i: usize = 0;
        while i < glyphs.len()
            invariant
                glyphs@.len() == xs@.len(),
                glyphs@.len() == ys@.len(),
                i <= glyphs@.len(),
                x0 == old(self).x0 as int,
                y0 == old(self).y0 as int,
                self.kind == old(self).kind,
                self.depth == old(self).depth,
                self.x0 == old(self).x0,
                self.y0 == old(self).y0,
                orig == old(self).glyphs@,
                old(self).wf(),
                self.glyphs@.len() == orig.len() + i,
                forall|j: int| 0 <= j < orig.len() ==> self.glyphs@[j] == orig[j],
                forall|j: int|
                    0 <= j < i ==> {
                        let g = #[trigger] self.glyphs@[orig.len() + j];
                        &&& g.dx == xs@[j] - old(self).x0
                        &&& g.dy == ys@[j] - old(self).y0
                        &&& g.font_num == font_num
                        &&& g.glyph == glyphs@[j]
                    },
            decreases glyphs@.len() - i,
        {
            let g = GlyphInfo {
                dx: xs[i] as i64 - x0,
                dy: ys[i] as i64 - y0,
                font_num,
                glyph: glyphs[i],
            };
            self.glyphs.push(g);
            i += 1;
        }
        proof {
            assert forall|j: int| 0 <= j < self.glyphs@.len() implies (
            #[trigger] self.glyphs@[j]).wf() by {
                if j < orig.len() {
                    assert(old(self).glyphs@[j].wf());
                } else {
                    let j2 = j - orig.len();
                    assert(self.glyphs@[orig.len() + j2] == self.glyphs@[j]);
                }
            }
        }
    }
}

/// Metrics of one glyph at a given size, in device units; the descent is
/// stored negative.
#[derive(Clone, Copy, Debug, PartialEq, Eq, Structural)]
pub struct GlyphMetrics {
    /// Left side bearing.
    pub lsb: i32,
    /// Horizontal advance.
    pub advance: i32,
    /// Ascent above the baseline.
    pub ascent: i32,
    /// Descent below the baseline, negative.
    pub descent: i32,
}

/// A canvas glyph with its owning font resolved: the offsets, the dense
/// font-data key, the font size, and the data a diagnostic needs.
pub struct ResolvedGlyph {
    /// Horizontal offset from the canvas origin, device units.
    pub dx: i64,
    /// Vertical offset from the canvas origin, device units.
    pub dy: i64,
    /// Glyph index in the font.
    pub glyph: u16,
    /// Dense index into the shared font-data table.
    pub fd_key: usize,
    /// Font size in TeX-scaled fixed-point units.
    pub size: i32,
    /// Percent-encoded relative URL of the font file, for diagnostics.
    pub rel_url: Vec<u8>,
    /// Face index inside the font file, for diagnostics.
    pub face_index: u32,
}

impl ResolvedGlyph {
    /// Offsets are differences of device coordinates.
    pub open spec fn wf(&self) -> bool {
        offset_in_range(self.dx as int) && offset_in_range(self.dy as int)
    }
}

/// Resolves the owning font of every buffered glyph against the registry;
/// a glyph referencing an undeclared font id is fatal.
pub fn resolve_glyphs(fonts: &FontRegistry, glyphs: &Vec<GlyphInfo>) -> (r: Result<
    Vec<ResolvedGlyph>,
    EngineError,
>)
    ensures
        match r {
            Ok(rs) => {
                &&& rs@.len() == glyphs@.len()
                &&& forall|i: int|
                    0 <= i < glyphs@.len() ==> fonts.spec_get(
                        (#[trigger] glyphs@[i]).font_num,
                    ) is Some
                &&& forall|i: int|
                    0 <= i < glyphs@.len() ==> {
                        let fi = fonts.spec_get(glyphs@[i].font_num)->0;
                        let g = #[trigger] rs@[i];
                        &&& g.dx == glyphs@[i].dx
                        &&& g.dy == glyphs@[i].dy
                        &&& g.glyph == glyphs@[i].glyph
                        &&& g.fd_key == fi.fd_key
                        &&& g.size == fi.size
                        &&& g.rel_url@ == fi.rel_url@
                        &&& g.face_index == fi.face_index
                    }
            },
            Err(e) => match e {
                EngineError::UndeclaredFont(n) => exists|i: int|
                    0 <= i < glyphs@.len() && (#[trigger] glyphs@[i]).font_num == n
                        && fonts.spec_get(n) is None,
                _ => false,
            },
        },
{
    let mut rs: Vec<ResolvedGlyph> = Vec::new();
    let mut i: usize = 0;
    while i < glyphs.len()
        invariant
            i <= glyphs@.len(),
            rs@.len() == i,
            forall|j: int|
                0 <= j < i ==> fonts.spec_get((#[trigger] glyphs@[j]).font_num) is Some,
            forall|j: int|
                0 <= j < i ==> {
                    let fi = fonts.spec_get(glyphs@[j].font_num)->0;
                    let g = #[trigger] rs@[j];
                    &&& g.dx == glyphs@[j].dx
                    &&& g.dy == glyphs@[j].dy
                    &&& g.glyph == glyphs@[j].glyph
                    &&& g.fd_key == fi.fd_key
                    &&& g.size == fi.size
                    &&& g.rel_url@ == fi.rel_url@
                    &&& g.face_index == fi.face_index
                },
        decreases glyphs@.len() - i,
    {
        let g = &glyphs[i];
        match fonts.get(g.font_num) {
            Some(fi) => {
                let url = fi.rel_url.clone();
                proof {
                    assert(url@ =~= fi.rel_url@);
                }
                let ghost urlv = url@;
                rs.push(
                    ResolvedGlyph {
                        dx: g.dx,
                        dy: g.dy,
                        glyph: g.glyph,
                        fd_key: fi.fd_key,
                        size: fi.size,
                        rel_url: url,
                        face_index: fi.face_index,
                    },
                );
                proof {
                    assert(fonts.spec_get(glyphs@[i as int].font_num) == Some(*fi));
                    assert(rs@[i as int].dx == glyphs@[i as int].dx);
                    assert(rs@[i as int].fd_key == fi.fd_key);
                    assert(rs@[i as int].rel_url@ == urlv);
                    assert(urlv == fi.rel_url@);
                }
            },
            None => {
                return Err(EngineError::UndeclaredFont(g.font_num));
            },
        }
        i += 1;
    }
    Ok(rs)
}

/// Union bounding box of the resolvable glyphs of a canvas, in device
/// units; an empty canvas yields the zero box.
#[derive(Clone, Copy, Debug, PartialEq, Eq, Structural)]
pub struct BBox {
    /// Leftmost extent.
    pub x_min: i64,
    /// Rightmost extent.
    pub x_max: i64,
    /// Topmost extent.
    pub y_min: i64,
    /// Bottommost extent.
    pub y_max: i64,
}

/// The box of one glyph given its metrics: `(x_min, x_max, y_min, y_max)`.
pub open spec fn glyph_box(dx: int, dy: int, m: GlyphMetrics) -> (int, int, int, int) {
    (dx - m.lsb, dx + m.advance, dy - m.ascent, dy - m.descent)
}

/// Union of an accumulated box and one more glyph; a glyph lacking
/// metrics is excluded.
pub open spec fn bounds_step(
    acc: Option<(int, int, int, int)>,
    g: ResolvedGlyph,
    m: Option<GlyphMetrics>,
) -> Option<(int, int, int, int)> {
    match m {
        None => acc,
        Some(mm) => {
            let b = glyph_box(g.dx as int, g.dy as int, mm);
            match acc {
                None => Some(b),
                Some(a) => Some(
                    (
                        if b.0 < a.0 {
                            b.0
                        } else {
                            a.0
                        },
                        if b.1 > a.1 {
                            b.1
                        } else {
                            a.1
                        },
                        if b.2 < a.2 {
                            b.2
                        } else {
                            a.2
                        },
                        if b.3 > a.3 {
                            b.3
                        } else {
                            a.3
                        },
                    ),
                ),
            }
        },
    }
}

/// Bounds of the first `n` glyphs; `None` before any glyph had metrics.
pub open spec fn bounds_fold(
    gs: Seq<ResolvedGlyph>,
    ms: Seq<Option<GlyphMetrics>>,
    n: int,
) -> Option<(int, int, int, int)>
    decreases n,
{
    if n <= 0 {
        None
    } else {
        bounds_step(bounds_fold(gs, ms, n - 1), gs[n - 1], ms[n - 1])
    }
}

/// The canvas bounding box: the union over all glyphs with metrics, or
/// the zero box when none has any.
pub open spec fn spec_canvas_bounds(gs: Seq<ResolvedGlyph>, ms: Seq<Option<GlyphMetrics>>) -> (
    int,
    int,
    int,
    int,
) {
    match bounds_fold(gs, ms, gs.len() as int) {
        None => (0, 0, 0, 0),
        Some(b) => b,
    }
}

/// Bound on every box component: an offset plus a 32-bit metric.
pub open spec fn box_component_in_range(v: int) -> bool {
    -0x1_8000_0000_0000 <= v <= 0x1_8000_0000_0000
}

proof fn lemma_bounds_fold_range(gs: Seq<ResolvedGlyph>, ms: Seq<Option<GlyphMetrics>>, n: int)
    requires
        n <= gs.len(),
        n <= ms.len(),
        forall|i: int| 0 <= i < gs.len() ==> (#[trigger] gs[i]).wf(),
    ensures
        match bounds_fold(gs, ms, n) {
            None => true,
            Some(a) => box_component_in_range(a.0) && box_component_in_range(a.1)
                && box_component_in_range(a.2) && box_component_in_range(a.3),
        },
    decreases n,
{
    if n > 0 {
        lemma_bounds_fold_range(gs, ms, n - 1);
        assert(gs[n - 1].wf());
    }
}

/// First pass of the canvas layout: the union bounding box of the
/// buffered glyphs from their metrics, all in integer device units.
pub fn canvas_bounds(glyphs: &Vec<ResolvedGlyph>, metrics: &Vec<Option<GlyphMetrics>>) -> (r: BBox)
    requires
        glyphs@.len() == metrics@.len(),
        forall|i: int| 0 <= i < glyphs@.len() ==> (#[trigger] glyphs@[i]).wf(),
    ensures
        (r.x_min as int, r.x_max as int, r.y_min as int, r.y_max as int) == spec_canvas_bounds(
            glyphs@,
            metrics@,
        ),
{
    let mut acc: Option<BBox> = None;
    let mut i: usize = 0;
    while i < glyphs.len()
        invariant
            glyphs@.len() == metrics@.len(),
            i <= glyphs@.len(),
            forall|j: int| 0 <= j < glyphs@.len() ==> (#[trigger] glyphs@[j]).wf(),
            match acc {
                None => bounds_fold(glyphs@, metrics@, i as int) is None,
                Some(a) => bounds_fold(glyphs@, metrics@, i as int) == Some(
                    (a.x_min as int, a.x_max as int, a.y_min as int, a.y_max as int),
                ),
            },
        decreases glyphs@.len() - i,
    {
        proof {
            lemma_bounds_fold_range(glyphs@, metrics@, i as int);
            assert(glyphs@[i as int].wf());
        }
        if let Some(m) = &metrics[i] {
            let g = &glyphs[i];
            let xmin: i64 = g.dx - m.lsb as i64;
            let xmax: i64 = g.dx + m.advance as i64;
            let ymin: i64 = g.dy - m.ascent as i64;
            let ymax: i64 = g.dy - m.descent as i64;
            acc = match acc {
                None => Some(BBox { x_min: xmin, x_max: xmax, y_min: ymin, y_max: ymax }),
                Some(a) => Some(
                    BBox {
                        x_min: if xmin < a.x_min {
                            xmin
                        } else {
                            a.x_min
                        },
                        x_max: if xmax > a.x_max {
                            xmax
                        } else {
                            a.x_max
                        },
                        y_min: if ymin < a.y_min {
                            ymin
                        } else {
                            a.y_min
                        },
                        y_max: if ymax > a.y_max {
                            ymax
                        } else {
                            a.y_max
                        },
                    },
                ),
            };
        }
        i += 1;
    }
    match acc {
        None => BBox { x_min: 0, x_max: 0, y_min: 0, y_max: 0 },
        Some(a) => a,
    }
}

/// A reverse glyph-to-character mapping reported by the font data.
pub enum MapEntry {
    /// The glyph renders as this character directly.
    Direct(char),
    /// The glyph is a sub/superscript form reached through an alternate
    /// character map.
    SubSuperScript(char),
    /// The glyph is a growing math variant reached through an alternate
    /// character map.
    MathGrowingVariant(char),
}

/// An alternate character map assignment for a glyph with no natural
/// character: the substitute character and the alternate-map index.
pub struct AlternateMapping {
    /// The character the glyph is reachable under.
    pub usv: char,
    /// Which alternative-mapped font variant to use, starting at zero.
    pub index: usize,
}

/// Second pass of the canvas layout, per glyph: the character to emit and
/// the CSS font family, `tdux<fd_key>` for a direct mapping and
/// `tdux<fd_key>vg<index>` through an alternate map.
pub fn plan_glyph(fd_key: usize, mapping: &MapEntry, alt: Option<&AlternateMapping>) -> (r: (
    char,
    Vec<u8>,
))
    requires
        !(mapping is Direct) ==> alt is Some,
    ensures
        match *mapping {
            MapEntry::Direct(c) => r.0 == c && r.1@ == family_name(fd_key as nat),
            _ => match alt {
                Some(a) => r.0 == a.usv && r.1@ == family_vg_name(fd_key as nat, a.index as nat),
                None => false,
            },
        },
{
    match mapping {
        MapEntry::Direct(c) => (*c, crate::fonts::font_family(fd_key)),
        _ => {
            let a = alt.unwrap();
            (a.usv, crate::fonts::font_family_vg(fd_key, a.index))
        },
    }
}

} // verus!
