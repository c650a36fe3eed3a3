use vstd::prelude::*;

verus! {

/// An axis-aligned candidate face region, in pixel coordinates of the
/// frame it was computed from: origin column `x`, origin row `y`, then the
/// extent. A region is carried exactly as the detector reported it, even
/// when it lies partly or wholly outside the frame it belongs to.
#[derive(Clone, Copy, PartialEq, Eq, Structural, Debug)]
pub struct Region {
    pub x: i32,
    pub y: i32,
    pub width: i32,
    pub height: i32,
}

/// Line thickness, in samples, of the marker rectangle drawn around a
/// detected region.
pub const OUTLINE_THICKNESS: i32 = 2;

/// Whether the grid position (`px`, `py`) lies on the outline band of
/// region `r` drawn with thickness `t`: inside the region's bounding box
/// and within `t` samples of one of its four edges. The band hugs the
/// region's declared boundary; nothing here clamps to any frame.
pub open spec fn on_outline(r: Region, t: int, px: int, py: int) -> bool {
    &&& r.x <= px < r.x + r.width
    &&& r.y <= py < r.y + r.height
    &&& (px < r.x + t || px >= r.x + r.width - t || py < r.y + t || py >= r.y + r.height - t)
}

/// The painted outline sits exactly at the region's declared boundary:
/// the outermost rows and columns of the declared rectangle are on the
/// band, and no position outside the declared rectangle is.
pub proof fn lemma_outline_at_declared_boundary(r: Region, px: int, py: int)
    ensures
        r.x <= px < r.x + r.width && (py == r.y || py == r.y + r.height - 1) && r.height >= 1
            ==> on_outline(r, OUTLINE_THICKNESS as int, px, py),
        r.y <= py < r.y + r.height && (px == r.x || px == r.x + r.width - 1) && r.width >= 1
            ==> on_outline(r, OUTLINE_THICKNESS as int, px, py),
        px < r.x || px >= r.x + r.width || py < r.y || py >= r.y + r.height
            ==> !on_outline(r, OUTLINE_THICKNESS as int, px, py),
{
}

/// Runtime test matching `on_outline` for the marker thickness, in wide
/// arithmetic so any region compares with any sample position without
/// overflow.
pub fn outline_hit(r: &Region, px: i64, py: i64) -> (b: bool)
    ensures
        b == on_outline(*r, OUTLINE_THICKNESS as int, px as int, py as int),
{
    let x0: i64 = r.x as i64;
    let y0: i64 = r.y as i64;
    let x1: i64 = x0 + r.width as i64;
    let y1: i64 = y0 + r.height as i64;
    let t: i64 = OUTLINE_THICKNESS as i64;
    x0 <= px && px < x1 && y0 <= py && py < y1
        && (px < x0 + t || px >= x1 - t || py < y0 + t || py >= y1 - t)
}

} // verus!
