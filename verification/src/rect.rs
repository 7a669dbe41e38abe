use vstd::prelude::*;

verus! {

/// The largest width or height of a rectangle, and the largest coordinate of
/// its top-left corner: half of `i32::MAX`, so that the right and bottom
/// edges always fit in an `i32`.
pub const MAX_INT_VALUE: u32 = 1073741823;

/// The smallest coordinate of a rectangle's top-left corner: half of
/// `i32::MIN`.
pub const MIN_INT_VALUE: i32 = -1073741824;

/// The coordinate that a rectangle keeps when it is asked to hold `val`.
pub open spec fn clamp_position(val: int) -> int {
    if val > MAX_INT_VALUE {
        MAX_INT_VALUE as int
    } else if val < MIN_INT_VALUE {
        MIN_INT_VALUE as int
    } else {
        val
    }
}

/// The extent that a rectangle keeps when it is asked to hold `val`: never
/// zero, never above `MAX_INT_VALUE`.
pub open spec fn clamp_size(val: int) -> int {
    if val == 0 {
        1
    } else if val > MAX_INT_VALUE {
        MAX_INT_VALUE as int
    } else {
        val
    }
}

/// A rectangle that is never empty: a top-left corner and a width and height
/// of at least one, all clamped on the way in.
#[derive(Clone, Copy, Debug, PartialEq, Eq, Structural, Hash)]
pub struct Rect {
    x: i32,
    y: i32,
    w: u32,
    h: u32,
}

/// Clamps a coordinate.
fn clamped_position(val: i32) -> (r: i32)
    ensures
        r == clamp_position(val as int),
{
    if val > MAX_INT_VALUE as i32 {
        MAX_INT_VALUE as i32
    } else if val < MIN_INT_VALUE {
        MIN_INT_VALUE
    } else {
        val
    }
}

/// Clamps a width or height.
fn clamped_size(val: u32) -> (r: u32)
    ensures
        r == clamp_size(val as int),
{
    if val == 0 {
        1
    } else if val > MAX_INT_VALUE {
        MAX_INT_VALUE
    } else {
        val
    }
}

impl Rect {
    /// Every rectangle holds clamped values.
    #[verifier::type_invariant]
    pub closed spec fn is_clamped(self) -> bool {
        &&& MIN_INT_VALUE <= self.x <= MAX_INT_VALUE
        &&& MIN_INT_VALUE <= self.y <= MAX_INT_VALUE
        &&& 1 <= self.w <= MAX_INT_VALUE
        &&& 1 <= self.h <= MAX_INT_VALUE
    }

    /// The horizontal position of the rectangle.
    pub closed spec fn spec_x(&self) -> i32 {
        self.x
    }

    /// The vertical position of the rectangle.
    pub closed spec fn spec_y(&self) -> i32 {
        self.y
    }

    /// The width of the rectangle.
    pub closed spec fn spec_width(&self) -> u32 {
        self.w
    }

    /// The height of the rectangle.
    pub closed spec fn spec_height(&self) -> u32 {
        self.h
    }

    /// Whether the rectangle is the one that `x`, `y`, `width` and `height`
    /// give once each of them is clamped.
    pub open spec fn is_clamp_of(&self, x: int, y: int, width: int, height: int) -> bool {
        &&& self.x() == clamp_position(x)
        &&& self.y() == clamp_position(y)
        &&& self.width() == clamp_size(width)
        &&& self.height() == clamp_size(height)
    }

    /// Two rectangles with the same corner and the same extents are one
    /// rectangle.
    pub proof fn lemma_equal_by_parts(a: Rect, b: Rect)
        requires
            a.x() == b.x(),
            a.y() == b.y(),
            a.width() == b.width(),
            a.height() == b.height(),
        ensures
            a == b,
    {
    }

    /// Creates a rectangle from the given values, each of them clamped: a
    /// width or height of 0 becomes 1.
    pub fn new(x: i32, y: i32, width: u32, height: u32) -> (r: Rect)
        ensures
            r.is_clamp_of(x as int, y as int, width as int, height as int),
    {
        Rect {
            x: clamped_position(x),
            y: clamped_position(y),
            w: clamped_size(width),
            h: clamped_size(height),
        }
    }

    /// The horizontal position of the rectangle.
    #[verifier::when_used_as_spec(spec_x)]
    pub fn x(&self) -> (r: i32)
        ensures
            r == self.x(),
            MIN_INT_VALUE <= r <= MAX_INT_VALUE,
    {
        proof {
            use_type_invariant(self);
        }
        self.x
    }

    /// The vertical position of the rectangle.
    #[verifier::when_used_as_spec(spec_y)]
    pub fn y(&self) -> (r: i32)
        ensures
            r == self.y(),
            MIN_INT_VALUE <= r <= MAX_INT_VALUE,
    {
        proof {
            use_type_invariant(self);
        }
        self.y
    }

    /// The width of the rectangle.
    #[verifier::when_used_as_spec(spec_width)]
    pub fn width(&self) -> (r: u32)
        ensures
            r == self.width(),
            1 <= r <= MAX_INT_VALUE,
    {
        proof {
            use_type_invariant(self);
        }
        self.w
    }

    /// The height of the rectangle.
    #[verifier::when_used_as_spec(spec_height)]
    pub fn height(&self) -> (r: u32)
        ensures
            r == self.height(),
            1 <= r <= MAX_INT_VALUE,
    {
        proof {
            use_type_invariant(self);
        }
        self.h
    }

    /// Moves the rectangle to the horizontal position `x`, clamped.
    pub fn set_x(&mut self, x: i32)
        ensures
            final(self).x() == clamp_position(x as int),
            final(self).y() == old(self).y(),
            final(self).width() == old(self).width(),
            final(self).height() == old(self).height(),
    {
        proof {
            use_type_invariant(&*self);
        }
        self.x = clamped_position(x);
    }

    /// Moves the rectangle to the vertical position `y`, clamped.
    pub fn set_y(&mut self, y: i32)
        ensures
            final(self).x() == old(self).x(),
            final(self).y() == clamp_position(y as int),
            final(self).width() == old(self).width(),
            final(self).height() == old(self).height(),
    {
        proof {
            use_type_invariant(&*self);
        }
        self.y = clamped_position(y);
    }
}

} // verus!
