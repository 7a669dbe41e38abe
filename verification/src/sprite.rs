use crate::placement::{texture_placement, Placement};
use crate::rect::{clamp_position, Rect};
use crate::vectors::Vec2d;
use vstd::arithmetic::div_mod::{lemma_mod_self_0, lemma_small_mod};
use vstd::prelude::*;

verus! {

/// An animated sprite over a texture laid out as a grid of frames: one row
/// per animation, `frames_in_rows[r]` frames in row `r`. `drawing_rect` is
/// the part of the texture that shows the current frame.
pub struct Sprite<T> {
    pub texture: T,
    pub rows: u32,
    pub frames_in_rows: Vec<u32>,
    pub drawing_rect: Rect,
    current_frame: u32,
    current_row: u32,
}

/// What a sprite holds, as contracts see it.
pub struct SpriteView<T> {
    pub texture: T,
    pub rows: u32,
    pub frames_in_rows: Seq<u32>,
    pub drawing_rect: Rect,
    pub current_frame: u32,
    pub current_row: u32,
}

impl<T> SpriteView<T> {
    /// The frame that follows the current one: the next in the row, or the
    /// first again once the row is used up.
    pub open spec fn next_frame(self) -> u32
        recommends
            self.current_row < self.frames_in_rows.len(),
            self.current_frame < u32::MAX,
    {
        if self.current_frame + 1 >= self.frames_in_rows[self.current_row as int] {
            0
        } else {
            (self.current_frame + 1) as u32
        }
    }

    /// While the frame lies inside its row, stepping counts the frames of
    /// the row round and round.
    pub proof fn lemma_next_frame_cycles(self)
        requires
            self.current_row < self.frames_in_rows.len(),
            self.current_frame < self.frames_in_rows[self.current_row as int],
        ensures
            self.next_frame() == (self.current_frame + 1)
                % (self.frames_in_rows[self.current_row as int] as int),
    {
        let count = self.frames_in_rows[self.current_row as int] as int;
        if self.current_frame + 1 == count {
            lemma_mod_self_0(count);
        } else {
            lemma_small_mod((self.current_frame + 1) as nat, count as nat);
        }
    }

    /// Whether the animation of `row` can be started: the row times the
    /// height of a frame, both taken as `i32`, is an `i32`.
    pub open spec fn can_start_animation(self, row: u32) -> bool {
        i32::MIN <= (row as i32) * self.drawing_rect.height() <= i32::MAX
    }

    /// Whether the animation can step: its row has a count of frames, the
    /// frame can be counted up, and the next frame times the width of a
    /// frame, both taken as `i32`, is an `i32`.
    pub open spec fn can_update(self) -> bool {
        &&& self.current_row < self.frames_in_rows.len()
        &&& self.current_frame < u32::MAX
        &&& i32::MIN <= (self.next_frame() as i32) * self.drawing_rect.width() <= i32::MAX
    }

    /// Whether the current frame can be stretched by `scale`: its scaled
    /// width and height are each a `u32`.
    pub open spec fn can_place(self, scale: Vec2d<u32>) -> bool {
        &&& self.drawing_rect.width() * scale.x <= u32::MAX
        &&& self.drawing_rect.height() * scale.y <= u32::MAX
    }
}

impl<T> View for Sprite<T> {
    type V = SpriteView<T>;

    closed spec fn view(&self) -> SpriteView<T> {
        SpriteView {
            texture: self.texture,
            rows: self.rows,
            frames_in_rows: self.frames_in_rows@,
            drawing_rect: self.drawing_rect,
            current_frame: self.current_frame,
            current_row: self.current_row,
        }
    }
}

impl<T> Sprite<T> {
    /// Creates a sprite that shows the first frame of the first row, each
    /// frame `width` by `height` pixels.
    pub fn new(
        texture: T,
        rows: u32,
        frames_in_rows: Vec<u32>,
        width: u32,
        height: u32,
    ) -> (s: Self)
        ensures
            s@.texture == texture,
            s@.rows == rows,
            s@.frames_in_rows == frames_in_rows@,
            s@.drawing_rect.is_clamp_of(0, 0, width as int, height as int),
            s@.current_frame == 0,
            s@.current_row == 0,
    {
        Sprite {
            texture,
            rows,
            frames_in_rows,
            drawing_rect: Rect::new(0, 0, width, height),
            current_frame: 0,
            current_row: 0,
        }
    }

    /// The frame of the running animation that is shown.
    pub fn current_frame(&self) -> (f: u32)
        ensures
            f == self@.current_frame,
    {
        self.current_frame
    }

    /// The row of the texture that holds the running animation.
    pub fn current_row(&self) -> (r: u32)
        ensures
            r == self@.current_row,
    {
        self.current_row
    }

    /// Tells whether `placement` can stretch the current frame by `scale`.
    pub fn can_place(&self, scale: &Vec2d<u32>) -> (b: bool)
        ensures
            b == self@.can_place(*scale),
    {
        let width = self.drawing_rect.width().checked_mul(scale.x);
        let height = self.drawing_rect.height().checked_mul(scale.y);
        width.is_some() && height.is_some()
    }

    /// Tells whether `start_animation` can start the animation of `row`.
    pub fn can_start_animation(&self, row: u32) -> (b: bool)
        ensures
            b == self@.can_start_animation(row),
    {
        let height = self.drawing_rect.height() as i32;
        (#[verifier::truncate] (row as i32)).checked_mul(height).is_some()
    }

    /// Tells whether `update` can step the animation.
    pub fn can_update(&self) -> (b: bool)
        ensures
            b == self@.can_update(),
    {
        if self.current_row as usize >= self.frames_in_rows.len() {
            return false;
        }
        if self.current_frame == u32::MAX {
            return false;
        }
        let next = if self.current_frame + 1 >= self.frames_in_rows[self.current_row as usize] {
            0
        } else {
            self.current_frame + 1
        };
        let width = self.drawing_rect.width() as i32;
        (#[verifier::truncate] (next as i32)).checked_mul(width).is_some()
    }

    /// Where the current frame goes when the sprite is drawn at `position`,
    /// each pixel of the frame `scale.x` wide and `scale.y` high: the
    /// drawing rectangle is taken from the texture and stretched on the
    /// canvas.
    pub fn placement(&self, position: &Vec2d<i32>, scale: &Vec2d<u32>) -> (p: Placement)
        requires
            self@.can_place(*scale),
        ensures
            p.src == self@.drawing_rect,
            p.dest.is_clamp_of(
                position.x as int,
                position.y as int,
                self@.drawing_rect.width() * scale.x,
                self@.drawing_rect.height() * scale.y,
            ),
    {
        let src_pos = Vec2d { x: self.drawing_rect.x(), y: self.drawing_rect.y() };
        let src_dimensions = Vec2d {
            x: self.drawing_rect.width(),
            y: self.drawing_rect.height(),
        };
        let dest_dimensions = Vec2d {
            x: self.drawing_rect.width() * scale.x,
            y: self.drawing_rect.height() * scale.y,
        };
        let p = texture_placement(&src_pos, &src_dimensions, position, &dest_dimensions);
        proof {
            Rect::lemma_equal_by_parts(p.src, self.drawing_rect);
        }
        p
    }

    /// Starts the animation of `row` at its first frame and moves the
    /// drawing rectangle down to that row. The row and the rectangle's height
    /// are multiplied as `i32`, the row reinterpreted as one.
    pub fn start_animation(&mut self, row: u32)
        requires
            old(self)@.can_start_animation(row),
        ensures
            final(self)@.current_row == row,
            final(self)@.current_frame == 0,
            final(self)@.drawing_rect.x() == old(self)@.drawing_rect.x(),
            final(self)@.drawing_rect.y() == clamp_position(
                (row as i32) * old(self)@.drawing_rect.height(),
            ),
            final(self)@.drawing_rect.width() == old(self)@.drawing_rect.width(),
            final(self)@.drawing_rect.height() == old(self)@.drawing_rect.height(),
            final(self)@.texture == old(self)@.texture,
            final(self)@.rows == old(self)@.rows,
            final(self)@.frames_in_rows == old(self)@.frames_in_rows,
    {
        self.current_row = row;
        self.current_frame = 0;
        let height = self.drawing_rect.height() as i32;
        self.drawing_rect.set_y(#[verifier::truncate] (row as i32) * height);
    }

    /// Steps the animation to the next frame of its row and moves the
    /// drawing rectangle to it. The frame and the rectangle's width are
    /// multiplied as `i32`, the frame reinterpreted as one.
    pub fn update(&mut self)
        requires
            old(self)@.can_update(),
        ensures
            final(self)@.current_frame == old(self)@.next_frame(),
            final(self)@.current_frame == 0
                || final(self)@.current_frame < old(self)@.frames_in_rows[old(self)@.current_row as int],
            final(self)@.current_row == old(self)@.current_row,
            final(self)@.drawing_rect.x() == clamp_position(
                (old(self)@.next_frame() as i32) * old(self)@.drawing_rect.width(),
            ),
            final(self)@.drawing_rect.y() == old(self)@.drawing_rect.y(),
            final(self)@.drawing_rect.width() == old(self)@.drawing_rect.width(),
            final(self)@.drawing_rect.height() == old(self)@.drawing_rect.height(),
            final(self)@.texture == old(self)@.texture,
            final(self)@.rows == old(self)@.rows,
            final(self)@.frames_in_rows == old(self)@.frames_in_rows,
    {
        self.current_frame = self.current_frame + 1;
        if self.current_frame >= self.frames_in_rows[self.current_row as usize] {
            self.current_frame = 0;
        }
        let width = self.drawing_rect.width() as i32;
        self.drawing_rect.set_x(#[verifier::truncate] (self.current_frame as i32) * width);
    }
}

} // verus!
