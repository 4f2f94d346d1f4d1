//! The framebuffer of the display, the composition of bitmaps onto it, and
//! the hand-over of a frame to the streaming engine.

use vstd::prelude::*;
use crate::bus::{DmaStatus, Plan};
use crate::dma_buff::CAPACITY;
use crate::dma_stream::{DmaStream, StreamState};
use crate::error::Error;
use crate::sequencer::{frame_records, init_commands, init_records, row_commands, row_record};

verus! {

/// Number of rows of the display.
pub const ROWS: usize = 8;

/// The display's framebuffer: eight rows of 32 pixels.
///
/// The origin is the top-left corner. Row 0 is the top row, and bit 31 of a
/// row is its leftmost pixel (column 0); columns grow towards bit 0.
pub struct Matrix {
    video_ram: [u32; 8],
}

impl View for Matrix {
    type V = Seq<u32>;

    /// The rows of the framebuffer, top row first.
    closed spec fn view(&self) -> Seq<u32> {
        self.video_ram@
    }
}

/// The framebuffer with every pixel off.
pub open spec fn blank() -> Seq<u32> {
    Seq::new(ROWS as nat, |r: int| 0u32)
}

/// The width that a draw works with: the declared width, or 8 where more
/// was declared.
pub open spec fn clamped_width(width: u32) -> u32 {
    if width <= 8 {
        width
    } else {
        8
    }
}

/// The low `clamped_width(width)` bits set: the part of a bitmap byte that
/// belongs to the bitmap.
pub open spec fn width_mask(width: u32) -> u32 {
    ((1u32 << clamped_width(width)) - 1) as u32
}

/// How far a bitmap byte moves to the left so that its leftmost pixel lands
/// in column `px`. Negative where the bitmap reaches past the right edge.
pub open spec fn placement_shift(px: int, width: u32) -> int {
    31 - px - clamped_width(width) + 1
}

/// The pixels that one bitmap byte sets in a row when it is drawn at column
/// `px`: the byte, cut to its width and moved to its place. Pixels that
/// fall off either edge of the row are dropped.
pub open spec fn placed(line: u8, px: int, width: u32) -> u32 {
    let bits = (line as u32) & width_mask(width);
    let shift = placement_shift(px, width);
    if 0 <= shift < 32 {
        bits << (shift as u32)
    } else if -32 < shift < 0 {
        bits >> ((-shift) as u32)
    } else {
        0
    }
}

/// Whether the pixel in `column` of the row `pat` is on. Column 0 is the
/// highest bit of the row.
pub open spec fn pixel(pat: u32, column: int) -> bool
    recommends
        0 <= column < 32,
{
    (pat >> ((31 - column) as u32)) & 1 == 1
}

/// Whether the pixel at position `k` of a bitmap row is on, counted from
/// the left in a bitmap of the declared `width`: the leftmost pixel is bit
/// `clamped_width(width) - 1` of the byte.
pub open spec fn bitmap_pixel(line: u8, width: u32, k: int) -> bool
    recommends
        0 <= k < clamped_width(width),
{
    ((line as u32) >> ((clamped_width(width) - 1 - k) as u32)) & 1 == 1
}

/// The frame after `bitmap` was drawn onto `frame` with its top-left corner
/// at column `px`, row `py`. Row `py + k` gains the pixels of `bitmap[k]`,
/// and keeps those it had. Bitmap rows that would land below the last row
/// of the frame are dropped.
pub open spec fn drawn(frame: Seq<u32>, px: int, py: int, width: u32, bitmap: Seq<u8>) -> Seq<
    u32,
> {
    Seq::new(
        frame.len(),
        |r: int|
            if py <= r < py + bitmap.len() {
                frame[r] | placed(bitmap[r - py], px, width)
            } else {
                frame[r]
            },
    )
}

/// Computes `placed`.
fn place(line: u8, px: i32, width: u32) -> (bits: u32)
    ensures
        bits == placed(line, px as int, width),
{
    let w: u32 = if width <= 8 {
        width
    } else {
        8
    };
    assert(1 <= (1u32 << w)) by (bit_vector)
        requires
            w <= 8,
    ;
    let mask: u32 = (1u32 << w) - 1;
    let shift: i64 = 31 - (px as i64) - (w as i64) + 1;
    let bits: u32 = (line as u32) & mask;
    if 0 <= shift && shift < 32 {
        bits << (shift as u32)
    } else if -32 < shift && shift < 0 {
        bits >> ((-shift) as u32)
    } else {
        0
    }
}

impl Matrix {
    /// A framebuffer always has eight rows.
    pub proof fn lemma_rows(&self)
        ensures
            self@.len() == ROWS,
    {
    }

    /// A framebuffer with every pixel off.
    pub fn new() -> (led: Matrix)
        ensures
            led@ == blank(),
    {
        let led = Matrix { video_ram: [0u32; 8] };
        assert(led@ =~= blank());
        led
    }

    /// Switches every pixel off.
    pub fn clear(&mut self)
        ensures
            final(self)@ == blank(),
    {
        let mut y: usize = 0;
        while y < 8
            invariant
                y <= 8,
                forall|r: int| 0 <= r < y ==> self.video_ram@[r] == 0u32,
            decreases 8 - y,
        {
            self.video_ram[y] = 0;
            y += 1;
        }
        assert(self@ =~= blank());
    }

    /// Draws `bitmap` with its top-left corner at column `px`, row `py`.
    ///
    /// Each byte of `bitmap` is one row of pixels, top row first, held in
    /// the low `width` bits of the byte with the leftmost pixel in the
    /// highest of them. A width above 8 counts as 8. The pixels are added
    /// to what the framebuffer already shows: a draw never switches a pixel
    /// off. What falls outside the display is dropped, so `px` may be
    /// negative or beyond the right edge, and `py` may be any row.
    pub fn draw_bitmap(&mut self, px: i32, py: u32, width: u32, bitmap: &[u8])
        ensures
            final(self)@ == drawn(old(self)@, px as int, py as int, width, bitmap@),
            py >= ROWS ==> final(self)@ == old(self)@,
    {
        if py >= 8 {
            assert(self@ =~= drawn(self@, px as int, py as int, width, bitmap@));
            return ;
        }
        let mut y: usize = py as usize;
        let mut k: usize = 0;
        while k < bitmap.len() && y < 8
            invariant
                y == py + k,
                k <= bitmap.len(),
                y <= 8,
                forall|r: int|
                    0 <= r < 8 ==> self.video_ram@[r] == (if py <= r < y {
                        old(self).video_ram@[r] | placed(bitmap@[r - py], px as int, width)
                    } else {
                        old(self).video_ram@[r]
                    }),
            decreases bitmap.len() - k,
        {
            let bits = place(bitmap[k], px, width);
            self.video_ram[y] = self.video_ram[y] | bits;
            y += 1;
            k += 1;
        }
        assert(self@ =~= drawn(old(self)@, px as int, py as int, width, bitmap@));
    }

    /// Stages the record that sets row `line_num` of the display to what
    /// the framebuffer holds for it. Fails as `DmaStream::add_buff` does,
    /// and then changes nothing.
    pub fn send_oneline_mat_led(
        &self,
        stream: &mut DmaStream,
        device: &DmaStatus,
        line_num: usize,
    ) -> (res: Result<(), Error>)
        requires
            line_num < ROWS,
        ensures
            device.stream_enabled ==> res == Err::<(), Error>(Error::Busy) && final(stream)@
                == old(stream)@,
            !device.stream_enabled && old(stream)@.queue.len() >= CAPACITY ==> res == Err::<(), Error>(
                Error::Overflow,
            ) && final(stream)@ == old(stream)@,
            !device.stream_enabled && old(stream)@.queue.len() < CAPACITY ==> res == Ok::<(), Error>(())
                && final(stream)@ == (StreamState {
                queue: old(stream)@.queue.push(row_record(line_num as int, self@[line_num as int])),
                ..old(stream)@
            }),
    {
        let dat = row_commands(line_num, self.video_ram[line_num]);
        stream.add_buff(&dat, device)
    }

    /// Hands the frame to the stream: stages one record per row, top row
    /// first, marks the stream busy and returns the plan that starts the
    /// first transfer.
    ///
    /// While a frame is still being streamed, or while the transfer
    /// hardware is still switched on, the call fails with `Error::Busy`
    /// and changes nothing: the frame in flight is not disturbed, and the
    /// new one is not kept for later.
    pub fn flash_led(&self, stream: &mut DmaStream, device: &DmaStatus) -> (res: Result<
        Plan,
        Error,
    >)
        ensures
            old(stream)@.busy || device.stream_enabled ==> res == Err::<Plan, Error>(Error::Busy)
                && final(stream)@ == old(stream)@,
            !old(stream)@.busy && !device.stream_enabled ==> res == Ok::<Plan, Error>(Plan::Start)
                && final(stream)@ == (StreamState {
                busy: true,
                queue: frame_records(self@),
                cursor: old(stream)@.cursor,
            }),
    {
        match stream.acquire() {
            Err(e) => {
                return Err(e);
            },
            Ok(()) => {},
        }
        match stream.clear_buff(device) {
            Err(e) => {
                stream.release();
                return Err(e);
            },
            Ok(()) => {},
        }
        let mut x: usize = 0;
        while x < 8
            invariant
                x <= 8,
                !device.stream_enabled,
                stream@.busy,
                stream@.cursor == old(stream)@.cursor,
                stream@.queue.len() == x,
                forall|r: int| 0 <= r < x ==> stream@.queue[r] == row_record(r, self@[r]),
            decreases 8 - x,
        {
            match self.send_oneline_mat_led(stream, device, x) {
                Err(e) => {
                    stream.release();
                    return Err(e);
                },
                Ok(()) => {},
            }
            x += 1;
        }
        assert(stream@.queue =~= frame_records(self@));
        Ok(stream.send_request_to_dma())
    }

    /// Hands the bring-up sequence of the chips to the stream, as
    /// `flash_led` hands over a frame: stages its records, marks the stream
    /// busy and returns the plan that starts the first transfer.
    ///
    /// Fails with `Error::Busy`, and changes nothing, while the stream is
    /// busy or the transfer hardware is still switched on.
    pub fn init_mat_led(stream: &mut DmaStream, device: &DmaStatus) -> (res: Result<Plan, Error>)
        ensures
            old(stream)@.busy || device.stream_enabled ==> res == Err::<Plan, Error>(Error::Busy)
                && final(stream)@ == old(stream)@,
            !old(stream)@.busy && !device.stream_enabled ==> res == Ok::<Plan, Error>(Plan::Start)
                && final(stream)@ == (StreamState {
                busy: true,
                queue: init_records(),
                cursor: old(stream)@.cursor,
            }),
    {
        match stream.acquire() {
            Err(e) => {
                return Err(e);
            },
            Ok(()) => {},
        }
        match stream.clear_buff(device) {
            Err(e) => {
                stream.release();
                return Err(e);
            },
            Ok(()) => {},
        }
        let mut step: usize = 0;
        while step < 5
            invariant
                step <= 5,
                !device.stream_enabled,
                stream@.busy,
                stream@.cursor == old(stream)@.cursor,
                stream@.queue.len() == step,
                forall|i: int| 0 <= i < step ==> stream@.queue[i] == init_records()[i],
            decreases 5 - step,
        {
            let dat = init_commands(step);
            match stream.add_buff(&dat, device) {
                Err(e) => {
                    stream.release();
                    return Err(e);
                },
                Ok(()) => {},
            }
            step += 1;
        }
        assert(stream@.queue =~= init_records());
        Ok(stream.send_request_to_dma())
    }

    /// The pixels of row `y`.
    pub fn row(&self, y: usize) -> (pat: u32)
        requires
            y < ROWS,
        ensures
            pat == self@[y as int],
    {
        self.video_ram[y]
    }
}

} // verus!
