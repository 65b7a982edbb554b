//! The frame that the picture processing unit draws, one color per screen pixel.
use crate::ppu::misc::ColoredPixel;
use crate::ppu::{SCREEN_HEIGHT, SCREEN_WIDTH};
use vstd::prelude::*;

verus! {

/// The number of pixels of a frame.
pub const FRAME_PIXELS: usize = 23040;

/// The frame `frame` with row `row` replaced by the colors of `line`.
pub open spec fn with_row(frame: Seq<ColoredPixel>, row: int, line: Seq<ColoredPixel>) -> Seq<
    ColoredPixel,
> {
    Seq::new(frame.len(), |i: int| if i / 160 == row { line[i % 160] } else { frame[i] })
}

/// Frame buffer to store the current screen state, row by row from the top.
#[derive(Copy, Clone, Debug)]
pub struct FrameBuffer {
    pub buffer: [ColoredPixel; 23040],
}

impl FrameBuffer {
    /// A buffer holds one color for each of the 160 × 144 pixels.
    pub open spec fn wf(self) -> bool {
        self.buffer@.len() == FRAME_PIXELS
    }

    /// A white frame.
    pub fn new() -> (r: Self)
        ensures
            r.wf(),
            forall|i: int| 0 <= i < FRAME_PIXELS ==> r.buffer@[i] == ColoredPixel::White,
    {
        broadcast use vstd::array::group_array_axioms;

        Self { buffer: [ColoredPixel::White; 23040] }
    }

    /// Returns the width of the frame buffer image in pixels.
    pub fn width(&self) -> (r: usize)
        ensures
            r == SCREEN_WIDTH,
    {
        SCREEN_WIDTH as usize
    }

    /// Returns the height of the frame buffer image in pixels.
    pub fn height(&self) -> (r: usize)
        ensures
            r == SCREEN_HEIGHT,
    {
        SCREEN_HEIGHT as usize
    }

    /// Writes a colored pixel to the buffer.
    pub fn write_pixel(&mut self, x: u8, y: u8, color: ColoredPixel)
        requires
            x < SCREEN_WIDTH,
            y < SCREEN_HEIGHT,
        ensures
            final(self).buffer@ == old(self).buffer@.update(y * 160 + x, color),
    {
        broadcast use vstd::array::group_array_axioms;

        let index = y as usize * SCREEN_WIDTH as usize + x as usize;
        self.buffer[index] = color;
    }

    /// Replaces row `row` of the frame by the 160 colors of `line`.
    pub fn write_line(&mut self, row: u8, line: &Vec<ColoredPixel>)
        requires
            row < SCREEN_HEIGHT,
            line@.len() == 160,
        ensures
            final(self).buffer@ == with_row(old(self).buffer@, row as int, line@),
    {
        broadcast use vstd::array::group_array_axioms;

        let row_start = row as usize * 160;
        let mut c: usize = 0;
        while c < 160
            invariant
                c <= 160,
                row < SCREEN_HEIGHT,
                row_start == row * 160,
                line@.len() == 160,
                forall|i: int| #![trigger self.buffer@[i]] 0 <= i < 23040 ==> self.buffer@[i] == if row_start
                    <= i < row_start + c {
                    line@[i - row_start]
                } else {
                    old(self).buffer@[i]
                },
            decreases 160 - c,
        {
            self.buffer[row_start + c] = line[c];
            c = c + 1;
        }
        assert(self.buffer@ =~= with_row(old(self).buffer@, row as int, line@));
    }

    /// Consumes the frame buffer and returns its colors, row by row.
    pub fn into_vec(self) -> (r: Vec<ColoredPixel>)
        ensures
            r@ == self.buffer@,
    {
        broadcast use vstd::array::group_array_axioms;

        let mut r: Vec<ColoredPixel> = Vec::new();
        let mut i: usize = 0;
        while i < FRAME_PIXELS
            invariant
                i <= FRAME_PIXELS,
                r@ == self.buffer@.take(i as int),
            decreases FRAME_PIXELS - i,
        {
            r.push(self.buffer[i]);
            i = i + 1;
            assert(r@ =~= self.buffer@.take(i as int));
        }
        assert(self.buffer@.take(FRAME_PIXELS as int) =~= self.buffer@);
        r
    }
}

} // verus!
