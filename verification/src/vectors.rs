use vstd::prelude::*;

verus! {

/// A pair of values of one type: a position, a size, a velocity or a scale.
#[derive(Clone, Copy, Debug, Default)]
pub struct Vec2d<T> {
    pub x: T,
    pub y: T,
}

impl core::ops::AddAssign for Vec2d<i32> {
    /// Adds `rhs` to the vector, component by component.
    fn add_assign(&mut self, rhs: Vec2d<i32>)
        requires
            i32::MIN <= old(self).x + rhs.x <= i32::MAX,
            i32::MIN <= old(self).y + rhs.y <= i32::MAX,
        ensures
            final(self).x == old(self).x + rhs.x,
            final(self).y == old(self).y + rhs.y,
    {
        self.x = self.x + rhs.x;
        self.y = self.y + rhs.y;
    }
}

} // verus!
