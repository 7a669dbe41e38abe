use crate::rect::{clamp_position, Rect};
use vstd::arithmetic::mul::lemma_mul_inequality;
use vstd::prelude::*;

verus! {

/// The grid that cuts a texture into equal cells, `columns` to a row,
/// numbered row by row from the top left. The texture's pixels stay with the
/// caller, who hands them in to draw.
pub struct Spritesheet {
    rows: u32,
    columns: u32,
    rect_width: u32,
    rect_height: u32,
}

/// What a sprite sheet holds, as contracts see it.
pub struct SpritesheetView {
    pub rows: u32,
    pub columns: u32,
    pub rect_width: u32,
    pub rect_height: u32,
}

/// The geometry of one copy of a block of pixels, four bytes each, between
/// two buffers whose lines are `pitch` bytes long: the corner of the block
/// in the source and its corner in the destination. A corner's coordinates
/// count as `usize`, reinterpreted.
pub struct Transfer {
    pub src_x: i32,
    pub src_y: i32,
    pub dest_x: i32,
    pub dest_y: i32,
    pub pitch: usize,
}

/// The byte at which the pixel `row` lines below and `col` pixels right of
/// the corner (`x`, `y`) starts.
pub open spec fn pixel_start(x: i32, y: i32, pitch: usize, row: int, col: int) -> int {
    ((y as usize) + row) * pitch + ((x as usize) + col) * 4
}

/// Whether the pixel at (`row`, `col`) from the corner (`x`, `y`) can be
/// addressed in a buffer of `len` bytes: its line number fits in a `usize`
/// and its four bytes lie inside the buffer.
pub open spec fn pixel_fits(x: i32, y: i32, pitch: usize, row: int, col: int, len: int) -> bool {
    &&& (y as usize) + row <= usize::MAX
    &&& pixel_start(x, y, pitch, row, col) + 4 <= len
}

/// `buf` with the four bytes from `to` on replaced by the four bytes of
/// `pixels` from `from` on.
pub open spec fn copy_pixel(buf: Seq<u8>, pixels: Seq<u8>, from: int, to: int) -> Seq<u8> {
    Seq::new(
        buf.len(),
        |p: int|
            if to <= p < to + 4 {
                pixels[from + (p - to)]
            } else {
                buf[p]
            },
    )
}

impl Transfer {
    /// Where the pixel (`row`, `col`) of the block starts in the source.
    pub open spec fn src_start(self, row: int, col: int) -> int {
        pixel_start(self.src_x, self.src_y, self.pitch, row, col)
    }

    /// Where the pixel (`row`, `col`) of the block starts in the
    /// destination.
    pub open spec fn dest_start(self, row: int, col: int) -> int {
        pixel_start(self.dest_x, self.dest_y, self.pitch, row, col)
    }

    /// Whether the pixel (`row`, `col`) of the block can be read from a
    /// source of `src_len` bytes and written to a destination of `dest_len`
    /// bytes.
    pub open spec fn fits(self, row: int, col: int, src_len: int, dest_len: int) -> bool {
        &&& pixel_fits(self.src_x, self.src_y, self.pitch, row, col, src_len)
        &&& pixel_fits(self.dest_x, self.dest_y, self.pitch, row, col, dest_len)
    }

    /// `buf` after the first `cols` pixels of line `row` of the block have
    /// been copied from `pixels`, left to right.
    pub open spec fn copy_line(self, buf: Seq<u8>, pixels: Seq<u8>, row: int, cols: nat) -> Seq<u8>
        decreases cols,
    {
        if cols == 0 {
            buf
        } else {
            copy_pixel(
                self.copy_line(buf, pixels, row, (cols - 1) as nat),
                pixels,
                self.src_start(row, cols - 1),
                self.dest_start(row, cols - 1),
            )
        }
    }

    /// `buf` after the first `rows` lines of the block, each `width` pixels
    /// long, have been copied from `pixels`, top to bottom.
    pub open spec fn copy_block(
        self,
        buf: Seq<u8>,
        pixels: Seq<u8>,
        width: nat,
        rows: nat,
    ) -> Seq<u8>
        decreases rows,
    {
        if rows == 0 {
            buf
        } else {
            self.copy_line(
                self.copy_block(buf, pixels, width, (rows - 1) as nat),
                pixels,
                rows - 1,
                width,
            )
        }
    }

    /// Whether the pixel (`row`, `col`) of the block is written over byte `p`
    /// of the destination.
    pub open spec fn covers(self, row: int, col: int, p: int) -> bool {
        self.dest_start(row, col) <= p < self.dest_start(row, col) + 4
    }

    /// Copying part of a line leaves the buffer as long as it was.
    pub proof fn lemma_copy_line_len(self, buf: Seq<u8>, pixels: Seq<u8>, row: int, cols: nat)
        ensures
            self.copy_line(buf, pixels, row, cols).len() == buf.len(),
        decreases cols,
    {
        if cols > 0 {
            self.lemma_copy_line_len(buf, pixels, row, (cols - 1) as nat);
        }
    }

    /// Copying lines of a block leaves the buffer as long as it was.
    pub proof fn lemma_copy_block_len(self, buf: Seq<u8>, pixels: Seq<u8>, width: nat, rows: nat)
        ensures
            self.copy_block(buf, pixels, width, rows).len() == buf.len(),
        decreases rows,
    {
        if rows > 0 {
            self.lemma_copy_block_len(buf, pixels, width, (rows - 1) as nat);
            self.lemma_copy_line_len(
                self.copy_block(buf, pixels, width, (rows - 1) as nat),
                pixels,
                rows - 1,
                width,
            );
        }
    }

    /// A byte that none of the first `cols` pixels of a line is written over
    /// keeps its value when these are copied.
    pub proof fn lemma_copy_line_outside(
        self,
        buf: Seq<u8>,
        pixels: Seq<u8>,
        row: int,
        cols: nat,
        p: int,
    )
        requires
            0 <= p < buf.len(),
            forall|c: int| 0 <= c < cols ==> !self.covers(row, c, p),
        ensures
            self.copy_line(buf, pixels, row, cols)[p] == buf[p],
        decreases cols,
    {
        if cols > 0 {
            self.lemma_copy_line_outside(buf, pixels, row, (cols - 1) as nat, p);
            self.lemma_copy_line_len(buf, pixels, row, (cols - 1) as nat);
            assert(!self.covers(row, cols - 1, p));
        }
    }

    /// A byte that no pixel of the block is written over keeps its value
    /// when the block is copied.
    pub proof fn lemma_copy_block_outside(
        self,
        buf: Seq<u8>,
        pixels: Seq<u8>,
        width: nat,
        rows: nat,
        p: int,
    )
        requires
            0 <= p < buf.len(),
            forall|r: int, c: int| 0 <= r < rows && 0 <= c < width ==> !self.covers(r, c, p),
        ensures
            self.copy_block(buf, pixels, width, rows)[p] == buf[p],
        decreases rows,
    {
        if rows > 0 {
            let base = self.copy_block(buf, pixels, width, (rows - 1) as nat);
            self.lemma_copy_block_outside(buf, pixels, width, (rows - 1) as nat, p);
            self.lemma_copy_block_len(buf, pixels, width, (rows - 1) as nat);
            let last = rows - 1;
            assert forall|c: int| 0 <= c < width implies !self.covers(last, c, p) by {}
            self.lemma_copy_line_outside(base, pixels, last, width, p);
        }
    }

    /// A byte of the destination that pixel `col` of a line is written
    /// over, and no pixel further right in the line, holds the matching byte
    /// of that pixel in the source once the first `cols` pixels of the line
    /// are copied.
    pub proof fn lemma_copy_line_inside(
        self,
        buf: Seq<u8>,
        pixels: Seq<u8>,
        row: int,
        cols: nat,
        col: int,
        p: int,
    )
        requires
            0 <= col < cols,
            0 <= p < buf.len(),
            self.covers(row, col, p),
            forall|c: int| col < c < cols ==> !self.covers(row, c, p),
        ensures
            self.copy_line(buf, pixels, row, cols)[p]
                == pixels[self.src_start(row, col) + (p - self.dest_start(row, col))],
        decreases cols,
    {
        self.lemma_copy_line_len(buf, pixels, row, (cols - 1) as nat);
        if col < cols - 1 {
            self.lemma_copy_line_inside(buf, pixels, row, (cols - 1) as nat, col, p);
            assert(!self.covers(row, cols - 1, p));
        }
    }

    /// A byte of the destination that pixel (`row`, `col`) is written over,
    /// and no pixel copied after it, holds the matching byte of that pixel in
    /// the source once the first `rows` lines of the block are copied.
    pub proof fn lemma_copy_block_inside(
        self,
        buf: Seq<u8>,
        pixels: Seq<u8>,
        width: nat,
        rows: nat,
        row: int,
        col: int,
        p: int,
    )
        requires
            0 <= row < rows,
            0 <= col < width,
            0 <= p < buf.len(),
            self.covers(row, col, p),
            forall|r: int, c: int|
                0 <= r < rows && 0 <= c < width && (r > row || (r == row && c > col))
                    ==> !self.covers(r, c, p),
        ensures
            self.copy_block(buf, pixels, width, rows)[p]
                == pixels[self.src_start(row, col) + (p - self.dest_start(row, col))],
        decreases rows,
    {
        let base = self.copy_block(buf, pixels, width, (rows - 1) as nat);
        self.lemma_copy_block_len(buf, pixels, width, (rows - 1) as nat);
        if row < rows - 1 {
            self.lemma_copy_block_inside(buf, pixels, width, (rows - 1) as nat, row, col, p);
            let last = rows - 1;
            assert forall|c: int| 0 <= c < width implies !self.covers(last, c, p) by {}
            self.lemma_copy_line_outside(base, pixels, last, width, p);
        } else {
            assert forall|c: int| col < c < width implies !self.covers(row, c, p) by {}
            self.lemma_copy_line_inside(base, pixels, row, width, col, p);
        }
    }

    /// Where a line holds at least `width` pixels, two pixels of a block
    /// `width` wide share no byte of the destination.
    pub proof fn lemma_pixels_apart(self, width: nat, row: int, col: int, r: int, c: int, p: int)
        requires
            self.pitch >= 4 * width,
            0 <= row,
            0 <= r,
            0 <= col < width,
            0 <= c < width,
            row != r || col != c,
            self.covers(row, col, p),
        ensures
            !self.covers(r, c, p),
    {
        let y = (self.dest_y as usize) as int;
        let pitch = self.pitch as int;
        if row < r {
            assert((y + r) * pitch - (y + row) * pitch >= pitch) by (nonlinear_arith)
                requires
                    r - row >= 1,
                    pitch >= 0,
            ;
        } else if r < row {
            assert((y + row) * pitch - (y + r) * pitch >= pitch) by (nonlinear_arith)
                requires
                    row - r >= 1,
                    pitch >= 0,
            ;
        }
    }

    /// Where a line holds at least `width` pixels, each pixel of the block
    /// arrives: byte `k` of pixel (`row`, `col`) in the destination is byte
    /// `k` of that pixel in the source.
    pub proof fn lemma_copy_block_pixel(
        self,
        buf: Seq<u8>,
        pixels: Seq<u8>,
        width: nat,
        rows: nat,
        row: int,
        col: int,
        k: int,
    )
        requires
            self.pitch >= 4 * width,
            0 <= row < rows,
            0 <= col < width,
            0 <= k < 4,
            0 <= self.dest_start(row, col),
            self.dest_start(row, col) + 4 <= buf.len(),
        ensures
            self.copy_block(buf, pixels, width, rows)[self.dest_start(row, col) + k]
                == pixels[self.src_start(row, col) + k],
    {
        let p = self.dest_start(row, col) + k;
        assert forall|r: int, c: int|
            0 <= r < rows && 0 <= c < width && (r > row || (r == row && c > col))
                implies !self.covers(r, c, p) by {
            self.lemma_pixels_apart(width, row, col, r, c, p);
        }
        self.lemma_copy_block_inside(buf, pixels, width, rows, row, col, p);
    }

    /// A pixel that lies before a pixel that fits, in its line and in its
    /// column, fits too.
    pub proof fn lemma_fits_before(
        self,
        row: int,
        col: int,
        last_row: int,
        last_col: int,
        src_len: int,
        dest_len: int,
    )
        requires
            0 <= row <= last_row,
            0 <= col <= last_col,
            self.fits(last_row, last_col, src_len, dest_len),
        ensures
            self.fits(row, col, src_len, dest_len),
    {
        lemma_mul_inequality(
            (self.src_y as usize) + row,
            (self.src_y as usize) + last_row,
            self.pitch as int,
        );
        lemma_mul_inequality(
            (self.dest_y as usize) + row,
            (self.dest_y as usize) + last_row,
            self.pitch as int,
        );
    }
}

impl SpritesheetView {
    /// The horizontal position of cell `index`: its column times the width
    /// of a cell, both taken as `i32`.
    pub open spec fn cell_x(self, index: u32) -> int {
        ((index % self.columns) as i32) * (self.rect_width as i32)
    }

    /// The vertical position of cell `index`: its row times the height of a
    /// cell, both taken as `i32`.
    pub open spec fn cell_y(self, index: u32) -> int {
        ((index / self.columns) as i32) * (self.rect_height as i32)
    }

    /// Whether the position of cell `index` can be computed in `i32`.
    pub open spec fn has_cell(self, index: u32) -> bool {
        &&& i32::MIN <= self.cell_x(index) <= i32::MAX
        &&& i32::MIN <= self.cell_y(index) <= i32::MAX
    }

    /// The copy that draws cell `index` at (`x`, `y`) in a buffer whose
    /// lines are `pitch` bytes long.
    pub open spec fn transfer(self, index: u32, x: i32, y: i32, pitch: usize) -> Transfer {
        Transfer {
            src_x: clamp_position(self.cell_x(index)) as i32,
            src_y: clamp_position(self.cell_y(index)) as i32,
            dest_x: clamp_position(x as int) as i32,
            dest_y: clamp_position(y as int) as i32,
            pitch,
        }
    }

    /// Whether cell `index` can be drawn at (`x`, `y`), `width` by `height`
    /// pixels, from a source of `src_len` bytes to a destination of
    /// `dest_len` bytes: the cell's position can be computed and, unless
    /// there is nothing to copy, the last pixel of the block fits.
    pub open spec fn can_draw(
        self,
        src_len: int,
        dest_len: int,
        pitch: usize,
        index: u32,
        x: i32,
        y: i32,
        width: u32,
        height: u32,
    ) -> bool {
        &&& self.has_cell(index)
        &&& width > 0 && height > 0 ==> self.transfer(index, x, y, pitch).fits(
            height - 1,
            width - 1,
            src_len,
            dest_len,
        )
    }
}

/// Tells whether the pixel at (`row`, `col`) from the corner (`x`, `y`) can
/// be addressed in a buffer of `len` bytes.
fn pixel_in_reach(x: i32, y: i32, pitch: usize, row: u32, col: u32, len: usize) -> (b: bool)
    ensures
        b == pixel_fits(x, y, pitch, row as int, col as int, len as int),
{
    let line = match (#[verifier::truncate] (y as usize)).checked_add(row as usize) {
        Some(v) => v,
        None => { return false; },
    };
    let column = (#[verifier::truncate] (x as usize)).checked_add(col as usize);
    proof {
        assert(line * pitch >= 0) by (nonlinear_arith)
            requires
                line >= 0,
                pitch >= 0,
        ;
    }
    let line_start = match line.checked_mul(pitch) {
        Some(v) => v,
        None => { return false; },
    };
    let in_line = match column {
        Some(v) => match v.checked_mul(4) {
            Some(w) => w,
            None => { return false; },
        },
        None => { return false; },
    };
    match line_start.checked_add(in_line) {
        Some(start) => match start.checked_add(4) {
            Some(end) => end <= len,
            None => false,
        },
        None => false,
    }
}

impl View for Spritesheet {
    type V = SpritesheetView;

    closed spec fn view(&self) -> SpritesheetView {
        SpritesheetView {
            rows: self.rows,
            columns: self.columns,
            rect_width: self.rect_width,
            rect_height: self.rect_height,
        }
    }
}

impl Spritesheet {
    /// Every sheet has at least one row and one column.
    #[verifier::type_invariant]
    pub closed spec fn well_formed(self) -> bool {
        self.rows > 0 && self.columns > 0
    }

    /// Cuts a texture of `width` by `height` pixels into `rows` rows of
    /// `columns` cells each.
    pub fn new(rows: u32, columns: u32, width: u32, height: u32) -> (s: Self)
        requires
            rows > 0,
            columns > 0,
        ensures
            s@.rows == rows,
            s@.columns == columns,
            s@.rect_width == width / columns,
            s@.rect_height == height / rows,
    {
        let rect_width = width / columns;
        let rect_height = height / rows;
        Spritesheet { rows, columns, rect_width, rect_height }
    }

    /// Tells whether the position of cell `index` can be computed.
    pub fn has_cell(&self, index: u32) -> (b: bool)
        ensures
            b == self@.has_cell(index),
    {
        proof {
            use_type_invariant(self);
        }
        let row = index / self.columns;
        let column = index % self.columns;
        let x = (#[verifier::truncate] (column as i32)).checked_mul(
            #[verifier::truncate] (self.rect_width as i32),
        );
        let y = (#[verifier::truncate] (row as i32)).checked_mul(
            #[verifier::truncate] (self.rect_height as i32),
        );
        x.is_some() && y.is_some()
    }

    /// Tells whether `draw_sprite` can copy cell `index` from `pixels` to
    /// `buffer` with these arguments.
    pub fn can_draw(
        &self,
        pixels: &[u8],
        pitch: usize,
        buffer: &[u8],
        index: u32,
        x: i32,
        y: i32,
        width: u32,
        height: u32,
    ) -> (b: bool)
        ensures
            b == self@.can_draw(
                pixels@.len() as int,
                buffer@.len() as int,
                pitch,
                index,
                x,
                y,
                width,
                height,
            ),
    {
        if !self.has_cell(index) {
            return false;
        }
        if width == 0 || height == 0 {
            return true;
        }
        let src_rect = self.cell(index);
        let dest_rect = Rect::new(x, y, width, height);
        let last_row = height - 1;
        let last_col = width - 1;
        pixel_in_reach(src_rect.x(), src_rect.y(), pitch, last_row, last_col, pixels.len())
            && pixel_in_reach(dest_rect.x(), dest_rect.y(), pitch, last_row, last_col, buffer.len())
    }

    /// The part of the texture that cell `index` covers.
    pub fn cell(&self, index: u32) -> (r: Rect)
        requires
            self@.has_cell(index),
        ensures
            r.is_clamp_of(
                self@.cell_x(index),
                self@.cell_y(index),
                self@.rect_width as int,
                self@.rect_height as int,
            ),
    {
        proof {
            use_type_invariant(self);
        }
        let row = index / self.columns;
        let column = index % self.columns;
        Rect::new(
            #[verifier::truncate] (column as i32) * #[verifier::truncate] (self.rect_width as i32),
            #[verifier::truncate] (row as i32) * #[verifier::truncate] (self.rect_height as i32),
            self.rect_width,
            self.rect_height,
        )
    }

    /// Draws cell `index` at (`x`, `y`): copies a block of `width` by
    /// `height` pixels, four bytes each, from `pixels` to `buffer`, line by
    /// line. The block starts at the cell's corner in `pixels` and at
    /// (`x`, `y`), clamped, in `buffer`; both have lines of `pitch` bytes.
    pub fn draw_sprite(
        &self,
        pixels: &[u8],
        pitch: usize,
        buffer: &mut [u8],
        index: u32,
        x: i32,
        y: i32,
        width: u32,
        height: u32,
    )
        requires
            self@.can_draw(
                pixels@.len() as int,
                old(buffer)@.len() as int,
                pitch,
                index,
                x,
                y,
                width,
                height,
            ),
        ensures
            final(buffer)@.len() == old(buffer)@.len(),
            final(buffer)@ == self@.transfer(index, x, y, pitch).copy_block(
                old(buffer)@,
                pixels@,
                width as nat,
                height as nat,
            ),
    {
        let src_rect = self.cell(index);
        let dest_rect = Rect::new(x, y, width, height);
        let src_x = #[verifier::truncate] (src_rect.x() as usize);
        let src_y = #[verifier::truncate] (src_rect.y() as usize);
        let dest_x = #[verifier::truncate] (dest_rect.x() as usize);
        let dest_y = #[verifier::truncate] (dest_rect.y() as usize);
        let ghost t = self@.transfer(index, x, y, pitch);
        let ghost before = buffer@;
        proof {
            vstd::slice::axiom_spec_len(pixels);
            vstd::slice::axiom_spec_len(buffer);
        }
        let mut row: u32 = 0;
        while row < height
            invariant
                row <= height,
                t == self@.transfer(index, x, y, pitch),
                t.pitch == pitch,
                src_x == t.src_x as usize,
                src_y == t.src_y as usize,
                dest_x == t.dest_x as usize,
                dest_y == t.dest_y as usize,
                buffer@.len() == before.len(),
                before.len() <= usize::MAX,
                pixels@.len() <= usize::MAX,
                width > 0 && height > 0 ==> t.fits(
                    height - 1,
                    width - 1,
                    pixels@.len() as int,
                    before.len() as int,
                ),
                buffer@ == t.copy_block(before, pixels@, width as nat, row as nat),
            decreases height - row,
        {
            let ghost line = buffer@;
            let mut col: u32 = 0;
            while col < width
                invariant
                    row < height,
                    col <= width,
                    t.pitch == pitch,
                    src_x == t.src_x as usize,
                    src_y == t.src_y as usize,
                    dest_x == t.dest_x as usize,
                    dest_y == t.dest_y as usize,
                    buffer@.len() == before.len(),
                    line.len() == before.len(),
                    before.len() <= usize::MAX,
                    pixels@.len() <= usize::MAX,
                    width > 0 && height > 0 ==> t.fits(
                        height - 1,
                        width - 1,
                        pixels@.len() as int,
                        before.len() as int,
                    ),
                    buffer@ == t.copy_line(line, pixels@, row as int, col as nat),
                decreases width - col,
            {
                proof {
                    t.lemma_fits_before(
                        row as int,
                        col as int,
                        height - 1,
                        width - 1,
                        pixels@.len() as int,
                        before.len() as int,
                    );
                    assert(((src_y as int) + row) * pitch >= 0) by (nonlinear_arith)
                        requires
                            (src_y as int) + row >= 0,
                            pitch >= 0,
                    ;
                    assert(((dest_y as int) + row) * pitch >= 0) by (nonlinear_arith)
                        requires
                            (dest_y as int) + row >= 0,
                            pitch >= 0,
                    ;
                }
                let src_index = (src_y + row as usize) * pitch + (src_x + col as usize) * 4;
                let dest_index = (dest_y + row as usize) * pitch + (dest_x + col as usize) * 4;
                let ghost prev = buffer@;
                buffer[dest_index] = pixels[src_index];
                buffer[dest_index + 1] = pixels[src_index + 1];
                buffer[dest_index + 2] = pixels[src_index + 2];
                buffer[dest_index + 3] = pixels[src_index + 3];
                assert(buffer@ =~= copy_pixel(prev, pixels@, src_index as int, dest_index as int));
                col = col + 1;
            }
            row = row + 1;
        }
    }
}

} // verus!
