use vstd::prelude::*;

verus! {

/// Edge, in pixels, of the square tile one compute workgroup fills.
pub const TILE_SIZE: u32 = 8;

/// Pixel dimensions of the presentation surface.
#[derive(Clone, Copy, Debug, PartialEq, Eq, Structural)]
pub struct SurfaceSize {
    pub width: u32,
    pub height: u32,
}

impl SurfaceSize {
    /// A surface can be configured and drawn to only with both dimensions non-zero.
    pub open spec fn drawable(self) -> bool {
        self.width > 0 && self.height > 0
    }

    pub fn new(width: u32, height: u32) -> (s: SurfaceSize)
        ensures
            s.width == width,
            s.height == height,
    {
        SurfaceSize { width, height }
    }

    pub fn is_drawable(&self) -> (r: bool)
        ensures
            r == self.drawable(),
    {
        self.width > 0 && self.height > 0
    }
}

/// Number of whole tiles of edge `tile` along an extent of `extent` pixels.
/// The pixels past the last whole tile are left out.
pub fn tile_count(extent: u32, tile: u32) -> (n: u32)
    requires
        tile > 0,
    ensures
        n as int == extent as int / tile as int,
        n as int * tile as int <= extent,
        extent < (n as int + 1) * tile as int,
{
    let n = extent / tile;
    proof {
        lemma_tiles_cover(extent as int, tile as int);
    }
    n
}

/// Whole tiles cover all of an extent but a strip narrower than one tile.
pub proof fn lemma_tiles_cover(extent: int, tile: int)
    requires
        extent >= 0,
        tile > 0,
    ensures
        (extent / tile) * tile <= extent,
        extent < (extent / tile + 1) * tile,
        extent - (extent / tile) * tile == extent % tile,
{
    let q = extent / tile;
    let r = extent % tile;
    vstd::arithmetic::div_mod::lemma_fundamental_div_mod(extent, tile);
    vstd::arithmetic::div_mod::lemma_mod_pos_bound(extent, tile);
    assert(tile * q == q * tile) by (nonlinear_arith);
    assert((q + 1) * tile == q * tile + tile) by (nonlinear_arith);
    assert(extent == q * tile + r);
}

/// Workgroup grid that covers `size` in square tiles of edge `tile`, rounding
/// each dimension down.
pub fn workgroup_grid(size: SurfaceSize, tile: u32) -> (grid: (u32, u32))
    requires
        tile > 0,
    ensures
        grid.0 as int == size.width as int / tile as int,
        grid.1 as int == size.height as int / tile as int,
{
    (tile_count(size.width, tile), tile_count(size.height, tile))
}

} // verus!
