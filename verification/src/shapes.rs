//! Tessellation of simple shapes into vertex lists, on whole-pixel
//! coordinates.

use vstd::prelude::*;

verus! {

/// An axis-aligned rectangle: top-left corner, width and height, in whole
/// pixels.
#[derive(Debug, Clone, Copy, PartialEq)]
pub struct Rect {
    pub x: i64,
    pub y: i64,
    pub w: i64,
    pub h: i64,
}

/// The six corners, in order, of the two triangles that fill a rectangle.
pub open spec fn rect_vertices(r: Rect) -> Seq<[i64; 2]> {
    seq![
        [r.x, r.y],
        [(r.x + r.w) as i64, r.y],
        [r.x, (r.y + r.h) as i64],
        [(r.x + r.w) as i64, r.y],
        [(r.x + r.w) as i64, (r.y + r.h) as i64],
        [r.x, (r.y + r.h) as i64],
    ]
}

/// Append the two triangles that fill `rect` to a vertex list.
pub fn rect_triangles(buffer: &mut Vec<[i64; 2]>, rect: Rect)
    requires
        i64::MIN <= rect.x + rect.w <= i64::MAX,
        i64::MIN <= rect.y + rect.h <= i64::MAX,
    ensures
        final(buffer)@ == old(buffer)@ + rect_vertices(rect),
{
    let x2 = rect.x + rect.w;
    let y2 = rect.y + rect.h;
    buffer.push([rect.x, rect.y]);
    buffer.push([x2, rect.y]);
    buffer.push([rect.x, y2]);
    buffer.push([x2, rect.y]);
    buffer.push([x2, y2]);
    buffer.push([rect.x, y2]);
    proof {
        assert(buffer@ =~= old(buffer)@ + rect_vertices(rect));
    }
}

} // verus!
