use vstd::prelude::*;
use crate::geometry::{Bounds, Pixels, ScaleFactor};
use crate::stacking::StackingOrder;

verus! {

#[derive(Clone, Copy, Debug, PartialEq, Eq, Structural)]
pub struct FontId(pub u32);

#[derive(Clone, Copy, Debug, PartialEq, Eq, Structural)]
pub struct GlyphId(pub u32);

/// A colour as hue, saturation, lightness and alpha, each in thousandths.
#[derive(Clone, Copy, Debug, PartialEq, Eq, Structural)]
pub struct Hsla {
    pub h: u32,
    pub s: u32,
    pub l: u32,
    pub a: u32,
}

/// The key under which a rasterized glyph bitmap is cached.
#[derive(Clone, Copy, Debug, PartialEq, Eq, Structural)]
pub struct GlyphRasterizationParams {
    pub font_id: FontId,
    pub glyph_id: GlyphId,
    pub font_size: Pixels,
    pub subpixel_x: u8,
    pub subpixel_y: u8,
    pub scale_factor: ScaleFactor,
}

#[derive(Clone, Copy, Debug, PartialEq, Eq, Structural)]
pub enum GlyphError {
    /// The glyph's bitmap could not be rendered.
    RasterizeFailed,
}

/// A slot of the glyph atlas.
#[derive(Clone, Copy, Debug, PartialEq, Eq, Structural)]
pub struct AtlasTile {
    pub id: usize,
}

/// A radius for each corner of a rectangle.
#[derive(Clone, Copy, Debug, PartialEq, Eq, Structural)]
pub struct Corners {
    pub top_left: Pixels,
    pub top_right: Pixels,
    pub bottom_right: Pixels,
    pub bottom_left: Pixels,
}

#[derive(Clone, Copy, Debug, PartialEq, Eq, Structural)]
pub struct MonochromeSprite {
    pub order: u32,
    pub bounds: Bounds,
    pub clip_bounds: Bounds,
    pub clip_corner_radii: Corners,
    pub color: Hsla,
    pub tile: AtlasTile,
}

/// A draw primitive with the stacking order that was current when it was emitted.
pub struct SceneEntry {
    pub layer: StackingOrder,
    pub sprite: MonochromeSprite,
}

/// The draw primitives of one frame, in insertion order.
pub struct Scene {
    pub scale_factor: ScaleFactor,
    pub entries: Vec<SceneEntry>,
}

impl Scene {
    pub fn new(scale_factor: ScaleFactor) -> (r: Scene)
        ensures
            r.scale_factor == scale_factor,
            r.entries@.len() == 0,
    {
        Scene { scale_factor, entries: Vec::new() }
    }

    /// Appends a sprite tagged with `layer`.
    pub fn insert(&mut self, layer: StackingOrder, sprite: MonochromeSprite)
        ensures
            final(self).scale_factor == old(self).scale_factor,
            final(self).entries@.len() == old(self).entries@.len() + 1,
            final(self).entries@.drop_last() == old(self).entries@,
            final(self).entries@.last().layer@ == layer@,
            final(self).entries@.last().sprite == sprite,
    {
        self.entries.push(SceneEntry { layer, sprite });
        assert(self.entries@.drop_last() == old(self).entries@);
    }

    /// Hands out this frame's primitives and leaves an empty scene at the same scale.
    pub fn take(&mut self) -> (r: Scene)
        ensures
            r.scale_factor == old(self).scale_factor,
            r.entries@ == old(self).entries@,
            final(self).scale_factor == old(self).scale_factor,
            final(self).entries@.len() == 0,
    {
        let mut fresh = Scene::new(self.scale_factor);
        std::mem::swap(self, &mut fresh);
        fresh
    }
}

/// Rasterized glyph tiles, keyed by their rasterization parameters.
pub struct GlyphAtlas {
    entries: Vec<(GlyphRasterizationParams, AtlasTile)>,
}

impl GlyphAtlas {
    pub closed spec fn entries(&self) -> Seq<(GlyphRasterizationParams, AtlasTile)> {
        self.entries@
    }

    /// Keys are unique and each tile is numbered by its position.
    pub open spec fn wf(&self) -> bool {
        forall|i: int| 0 <= i < self.entries().len() ==> {
            &&& (#[trigger] self.entries()[i]).1.id == i
            &&& forall|j: int| 0 <= j < self.entries().len() && j != i ==> self.entries()[i].0 != (#[trigger] self.entries()[j]).0
        }
    }

    /// Whether `params` already has a tile.
    pub open spec fn contains(&self, params: GlyphRasterizationParams) -> bool {
        exists|i: int| 0 <= i < self.entries().len() && (#[trigger] self.entries()[i]).0 == params
    }

    pub fn new() -> (r: GlyphAtlas)
        ensures
            r.wf(),
            r.entries().len() == 0,
    {
        GlyphAtlas { entries: Vec::new() }
    }

    /// The tile cached for `params`. On a miss, `rasterize` is asked to
    /// render the bitmap into the next free tile, and the tile is entered
    /// only when it reports success; otherwise the atlas is unchanged and
    /// the failure is returned. The flag is true when the tile is fresh.
    pub fn get_or_insert_with<F: FnOnce(GlyphRasterizationParams, AtlasTile) -> bool>(&mut self, params: GlyphRasterizationParams, rasterize: F) -> (r: Result<(AtlasTile, bool), GlyphError>)
        requires
            old(self).wf(),
            rasterize.requires((params, AtlasTile { id: old(self).entries().len() as usize })),
        ensures
            final(self).wf(),
            r is Ok ==> final(self).contains(params) && (forall|i: int| 0 <= i < final(self).entries().len()
                && (#[trigger] final(self).entries()[i]).0 == params ==> final(self).entries()[i].1 == r->Ok_0.0),
            r is Err ==> r == Err::<(AtlasTile, bool), GlyphError>(GlyphError::RasterizeFailed) && *final(self) == *old(self),
            old(self).contains(params) ==> {
                &&& r is Ok
                &&& !r->Ok_0.1
                &&& *final(self) == *old(self)
                &&& forall|i: int| 0 <= i < old(self).entries().len() && (#[trigger] old(self).entries()[i]).0 == params
                    ==> r->Ok_0.0 == old(self).entries()[i].1
            },
            !old(self).contains(params) ==> {
                &&& rasterize.ensures((params, AtlasTile { id: old(self).entries().len() as usize }), r is Ok)
                &&& r is Ok ==> {
                    &&& r->Ok_0.1
                    &&& r->Ok_0.0.id == old(self).entries().len()
                    &&& final(self).entries() == old(self).entries().push((params, r->Ok_0.0))
                }
            },
    {
        let mut i: usize = 0;
        while i < self.entries.len()
            invariant
                self.wf(),
                i <= self.entries().len(),
                forall|k: int| 0 <= k < i ==> (#[trigger] self.entries()[k]).0 != params,
            decreases self.entries().len() - i,
        {
            if self.entries[i].0 == params {
                let t = self.entries[i].1;
                assert(self.entries()[i as int].0 == params);
                return Ok((t, false));
            }
            i = i + 1;
        }
        let tile = AtlasTile { id: self.entries.len() };
        if !rasterize(params, tile) {
            return Err(GlyphError::RasterizeFailed);
        }
        let ghost a0 = *self;
        self.entries.push((params, tile));
        proof {
            assert forall|i: int| 0 <= i < self.entries().len() implies {
                &&& (#[trigger] self.entries()[i]).1.id == i
                &&& forall|j: int| 0 <= j < self.entries().len() && j != i ==> self.entries()[i].0 != (#[trigger] self.entries()[j]).0
            } by {
                if i < a0.entries().len() {
                    assert(self.entries()[i] == a0.entries()[i]);
                }
                assert forall|j: int| 0 <= j < self.entries().len() && j != i implies self.entries()[i].0 != (#[trigger] self.entries()[j]).0 by {
                    if j < a0.entries().len() {
                        assert(self.entries()[j] == a0.entries()[j]);
                    }
                    if i < a0.entries().len() {
                        assert(self.entries()[i] == a0.entries()[i]);
                    }
                }
            }
            GlyphAtlas::lemma_second_lookup_hits(a0, *self, params, tile);
        }
        Ok((tile, true))
    }

    /// After a miss allocates a tile for `params`, a second lookup of the same
    /// parameters hits the cache and yields that same tile.
    pub proof fn lemma_second_lookup_hits(a0: GlyphAtlas, a1: GlyphAtlas, params: GlyphRasterizationParams, tile: AtlasTile)
        requires
            a0.wf(),
            a1.wf(),
            !a0.contains(params),
            a1.entries() == a0.entries().push((params, tile)),
        ensures
            a1.contains(params),
            forall|i: int| 0 <= i < a1.entries().len() && (#[trigger] a1.entries()[i]).0 == params ==> a1.entries()[i].1 == tile,
    {
        let n = a0.entries().len() as int;
        assert(a1.entries()[n].0 == params);
        assert forall|i: int| 0 <= i < a1.entries().len() && (#[trigger] a1.entries()[i]).0 == params implies a1.entries()[i].1 == tile by {
            if i < n {
                assert(a1.entries()[i] == a0.entries()[i]);
            }
        }
    }
}

} // verus!
