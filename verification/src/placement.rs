use crate::rect::Rect;
use crate::vectors::Vec2d;
use vstd::prelude::*;

verus! {

/// Where a piece of a texture is drawn: `src` is the part taken from the
/// texture, `dest` the part of the canvas that it covers.
#[derive(Clone, Copy, Debug)]
pub struct Placement {
    pub src: Rect,
    pub dest: Rect,
}

/// The rectangle with its top-left corner at `pos`, `size.x` wide and
/// `size.y` high: what a filled rectangle or a whole texture covers on the
/// canvas.
pub fn rect_at(pos: &Vec2d<i32>, size: &Vec2d<u32>) -> (r: Rect)
    ensures
        r.is_clamp_of(pos.x as int, pos.y as int, size.x as int, size.y as int),
{
    Rect::new(pos.x, pos.y, size.x, size.y)
}

/// Where the section of a texture that starts at `src_pos` and measures
/// `src_dimensions` goes when it is drawn at `dest_pos`, stretched to
/// `dest_dimensions`.
pub fn texture_placement(
    src_pos: &Vec2d<i32>,
    src_dimensions: &Vec2d<u32>,
    dest_pos: &Vec2d<i32>,
    dest_dimensions: &Vec2d<u32>,
) -> (p: Placement)
    ensures
        p.src.is_clamp_of(
            src_pos.x as int,
            src_pos.y as int,
            src_dimensions.x as int,
            src_dimensions.y as int,
        ),
        p.dest.is_clamp_of(
            dest_pos.x as int,
            dest_pos.y as int,
            dest_dimensions.x as int,
            dest_dimensions.y as int,
        ),
{
    Placement { src: rect_at(src_pos, src_dimensions), dest: rect_at(dest_pos, dest_dimensions) }
}

} // verus!
