//! What holds of every draw onto the framebuffer.

use vstd::prelude::*;
use crate::matrix_led::{
    bitmap_pixel, blank, clamped_width, drawn, pixel, placed, width_mask, Matrix, ROWS,
};

verus! {

/// A draw whose top row lies below the display changes nothing.
pub proof fn lemma_draw_below_display(
    frame: Seq<u32>,
    px: int,
    py: int,
    width: u32,
    bitmap: Seq<u8>,
)
    requires
        frame.len() == ROWS,
        py >= ROWS,
    ensures
        drawn(frame, px, py, width, bitmap) == frame,
{
    assert(drawn(frame, px, py, width, bitmap) =~= frame);
}

/// The rows of a bitmap that would land below the display count for
/// nothing: the draw gives what a draw of the rows above them gives.
pub proof fn lemma_draw_drops_rows_below(
    frame: Seq<u32>,
    px: int,
    py: int,
    width: u32,
    bitmap: Seq<u8>,
)
    requires
        frame.len() == ROWS,
        0 <= py < ROWS,
        bitmap.len() > ROWS - py,
    ensures
        drawn(frame, px, py, width, bitmap) == drawn(frame, px, py, width, bitmap.take(ROWS - py)),
{
    assert(drawn(frame, px, py, width, bitmap) =~= drawn(
        frame,
        px,
        py,
        width,
        bitmap.take(ROWS - py),
    ));
}

/// A draw never switches a pixel off: every row still holds all the pixels
/// that it held before.
pub proof fn lemma_draw_keeps_pixels(
    frame: Seq<u32>,
    px: int,
    py: int,
    width: u32,
    bitmap: Seq<u8>,
)
    ensures
        drawn(frame, px, py, width, bitmap).len() == frame.len(),
        forall|r: int|
            0 <= r < frame.len() ==> (#[trigger] drawn(frame, px, py, width, bitmap)[r]) & frame[r]
                == frame[r],
{
    assert forall|r: int| 0 <= r < frame.len() implies (#[trigger] drawn(
        frame,
        px,
        py,
        width,
        bitmap,
    )[r]) & frame[r] == frame[r] by {
        let old_row = frame[r];
        if py <= r < py + bitmap.len() {
            let bits = placed(bitmap[r - py], px, width);
            assert((old_row | bits) & old_row == old_row) by (bit_vector);
        } else {
            assert(old_row & old_row == old_row) by (bit_vector);
        }
    }
}

/// Where the pixels of a bitmap byte land. Drawn at column `px`, the byte
/// sets the pixel in `column` exactly when the column lies within the
/// bitmap, that is, `px <= column < px + clamped_width(width)`, and the
/// bitmap's pixel at position `column - px` is on. Columns of the bitmap
/// that lie outside the display set nothing.
pub proof fn lemma_placed_pixels(line: u8, px: int, width: u32, column: int)
    requires
        0 <= column < 32,
    ensures
        pixel(placed(line, px, width), column) == (px <= column < px + clamped_width(width)
            && bitmap_pixel(line, width, column - px)),
{
    let w = clamped_width(width);
    let shift = 32 - px - w;
    let wide = line as u32;
    let b = (31 - column) as u32;
    if 0 <= shift < 32 {
        let s = shift as u32;
        if b >= s && b - s < w {
            let d = (b - s) as u32;
            assert(d == w - 1 - (column - px));
            assert((((wide & (((1u32 << w) - 1) as u32)) << s) >> b) & 1 == (wide >> d) & 1)
                by (bit_vector)
                requires
                    w <= 8,
                    s < 32,
                    b < 32,
                    b >= s,
                    d == b - s,
                    d < w,
            ;
        } else {
            assert((((wide & (((1u32 << w) - 1) as u32)) << s) >> b) & 1 == 0) by (bit_vector)
                requires
                    w <= 8,
                    s < 32,
                    b < 32,
                    !(b >= s && b - s < w),
            ;
        }
    } else if -32 < shift < 0 {
        let k = (-shift) as u32;
        if b + k < w {
            let d = (b + k) as u32;
            assert(d == w - 1 - (column - px));
            assert((((wide & (((1u32 << w) - 1) as u32)) >> k) >> b) & 1 == (wide >> d) & 1)
                by (bit_vector)
                requires
                    w <= 8,
                    k < 32,
                    b < 32,
                    d == b + k,
                    d < w,
            ;
        } else {
            assert((((wide & (((1u32 << w) - 1) as u32)) >> k) >> b) & 1 == 0) by (bit_vector)
                requires
                    w <= 8,
                    k < 32,
                    b < 32,
                    b + k >= w,
            ;
        }
    } else {
        assert((0u32 >> b) & 1 == 0) by (bit_vector);
    }
}

/// What a draw does to each pixel of the display. After the draw, the
/// pixel in row `r`, `column` is on exactly when it was on before or the
/// bitmap covers it with a pixel that is on.
pub proof fn lemma_drawn_pixels(
    frame: Seq<u32>,
    px: int,
    py: int,
    width: u32,
    bitmap: Seq<u8>,
    r: int,
    column: int,
)
    requires
        0 <= r < frame.len(),
        0 <= column < 32,
    ensures
        pixel(drawn(frame, px, py, width, bitmap)[r], column) == (pixel(frame[r], column) || (py
            <= r < py + bitmap.len() && px <= column < px + clamped_width(width) && bitmap_pixel(
            bitmap[r - py],
            width,
            column - px,
        ))),
{
    if py <= r < py + bitmap.len() {
        let f = frame[r];
        let bits = placed(bitmap[r - py], px, width);
        let b = (31 - column) as u32;
        lemma_placed_pixels(bitmap[r - py], px, width, column);
        assert((((f | bits) >> b) & 1 == 1) == (((f >> b) & 1 == 1) || ((bits >> b) & 1 == 1)))
            by (bit_vector);
    }
}

/// A bitmap byte that is placed wholly to the right of the display, or
/// wholly to the left of it, sets no pixel.
pub proof fn lemma_placed_off_display(line: u8, px: int, width: u32)
    requires
        px >= 32 || px + clamped_width(width) <= 0,
    ensures
        placed(line, px, width) == 0,
{
    let w = clamped_width(width);
    let shift = 32 - px - w;
    let wide = line as u32;
    if 0 <= shift < 32 {
        assert(w == 0 && shift == 0);
        assert((wide & (((1u32 << 0u32) - 1) as u32)) << 0u32 == 0u32) by (bit_vector);
    } else if -32 < shift < 0 {
        let k = (-shift) as u32;
        assert((wide & (((1u32 << w) - 1) as u32)) >> k == 0u32) by (bit_vector)
            requires
                w <= 8,
                w <= k < 32,
        ;
    }
}

/// A draw wholly to the right of the display changes nothing.
pub proof fn lemma_draw_right_of_display(
    frame: Seq<u32>,
    px: int,
    py: int,
    width: u32,
    bitmap: Seq<u8>,
)
    requires
        px >= 32,
    ensures
        drawn(frame, px, py, width, bitmap) == frame,
{
    assert forall|r: int| 0 <= r < frame.len() implies #[trigger] drawn(
        frame,
        px,
        py,
        width,
        bitmap,
    )[r] == frame[r] by {
        if py <= r < py + bitmap.len() {
            lemma_placed_off_display(bitmap[r - py], px, width);
            let f = frame[r];
            assert(f | 0u32 == f) by (bit_vector);
        }
    }
    assert(drawn(frame, px, py, width, bitmap) =~= frame);
}

/// A draw wholly to the left of the display changes nothing.
pub proof fn lemma_draw_left_of_display(
    frame: Seq<u32>,
    px: int,
    py: int,
    width: u32,
    bitmap: Seq<u8>,
)
    requires
        px + clamped_width(width) <= 0,
    ensures
        drawn(frame, px, py, width, bitmap) == frame,
{
    assert forall|r: int| 0 <= r < frame.len() implies #[trigger] drawn(
        frame,
        px,
        py,
        width,
        bitmap,
    )[r] == frame[r] by {
        if py <= r < py + bitmap.len() {
            lemma_placed_off_display(bitmap[r - py], px, width);
            let f = frame[r];
            assert(f | 0u32 == f) by (bit_vector);
        }
    }
    assert(drawn(frame, px, py, width, bitmap) =~= frame);
}

/// Drawing one bitmap and then another gives, in every row, the pixels of
/// the first draw together with those of the second: the bitwise OR of
/// what each draw alone makes of the frame. The second draw overwrites
/// nothing of the first, and the order of the two does not matter.
pub proof fn lemma_draw_twice(
    frame: Seq<u32>,
    px_a: int,
    py_a: int,
    width_a: u32,
    bitmap_a: Seq<u8>,
    px_b: int,
    py_b: int,
    width_b: u32,
    bitmap_b: Seq<u8>,
)
    ensures
        forall|r: int|
            0 <= r < frame.len() ==> (#[trigger] drawn(
                drawn(frame, px_a, py_a, width_a, bitmap_a),
                px_b,
                py_b,
                width_b,
                bitmap_b,
            )[r]) == drawn(frame, px_a, py_a, width_a, bitmap_a)[r] | drawn(
                frame,
                px_b,
                py_b,
                width_b,
                bitmap_b,
            )[r],
        drawn(drawn(frame, px_a, py_a, width_a, bitmap_a), px_b, py_b, width_b, bitmap_b) == drawn(
            drawn(frame, px_b, py_b, width_b, bitmap_b),
            px_a,
            py_a,
            width_a,
            bitmap_a,
        ),
{
    let after_a = drawn(frame, px_a, py_a, width_a, bitmap_a);
    let after_b = drawn(frame, px_b, py_b, width_b, bitmap_b);
    let a_then_b = drawn(after_a, px_b, py_b, width_b, bitmap_b);
    let b_then_a = drawn(after_b, px_a, py_a, width_a, bitmap_a);
    assert forall|r: int| 0 <= r < frame.len() implies #[trigger] a_then_b[r] == after_a[r]
        | after_b[r] && a_then_b[r] == b_then_a[r] by {
        let f = frame[r];
        let a = if py_a <= r < py_a + bitmap_a.len() {
            placed(bitmap_a[r - py_a], px_a, width_a)
        } else {
            0u32
        };
        let b = if py_b <= r < py_b + bitmap_b.len() {
            placed(bitmap_b[r - py_b], px_b, width_b)
        } else {
            0u32
        };
        assert(f | 0u32 == f) by (bit_vector);
        assert((f | a) | 0u32 == f | a) by (bit_vector);
        assert((f | b) | 0u32 == f | b) by (bit_vector);
        assert(after_a[r] == f | a);
        assert(after_b[r] == f | b);
        assert(a_then_b[r] == (f | a) | b);
        assert(b_then_a[r] == (f | b) | a);
        assert((f | a) | b == (f | a) | (f | b)) by (bit_vector);
        assert((f | a) | b == (f | b) | a) by (bit_vector);
    }
    assert(a_then_b =~= b_then_a);
}

/// A draw onto a framebuffer that was cleared gives what the same draw
/// gives on a new framebuffer, whatever was shown before the clear: in both,
/// the rows that the bitmap reaches hold its pixels and nothing else.
pub proof fn lemma_draw_after_clear(
    cleared: Matrix,
    fresh: Matrix,
    px: int,
    py: int,
    width: u32,
    bitmap: Seq<u8>,
)
    requires
        cleared@ == blank(),
        fresh@ == blank(),
    ensures
        drawn(cleared@, px, py, width, bitmap) == drawn(fresh@, px, py, width, bitmap),
        forall|r: int|
            0 <= r < ROWS ==> (#[trigger] drawn(cleared@, px, py, width, bitmap)[r]) == (if py <= r
                < py + bitmap.len() {
                placed(bitmap[r - py], px, width)
            } else {
                0u32
            }),
{
    assert forall|r: int| 0 <= r < ROWS implies (#[trigger] drawn(
        cleared@,
        px,
        py,
        width,
        bitmap,
    )[r]) == (if py <= r < py + bitmap.len() {
        placed(bitmap[r - py], px, width)
    } else {
        0u32
    }) by {
        if py <= r < py + bitmap.len() {
            let bits = placed(bitmap[r - py], px, width);
            assert(0u32 | bits == bits) by (bit_vector);
        }
    }
}

/// With a declared width above 8 a draw does what it does with width 8,
/// and then it uses each byte of the bitmap whole.
pub proof fn lemma_draw_width_above_eight(
    frame: Seq<u32>,
    px: int,
    py: int,
    width: u32,
    bitmap: Seq<u8>,
)
    requires
        width > 8,
    ensures
        clamped_width(width) == 8,
        drawn(frame, px, py, width, bitmap) == drawn(frame, px, py, 8, bitmap),
        forall|line: u8| (line as u32) & width_mask(width) == #[trigger] (line as u32),
{
    assert(((1u32 << 8u32) - 1) as u32 == 0xffu32) by (bit_vector);
    assert(width_mask(width) == 0xffu32);
    assert forall|line: u8| (line as u32) & width_mask(width) == #[trigger] (line as u32) by {
        let wide = line as u32;
        assert(wide & 0xffu32 == wide) by (bit_vector)
            requires
                wide <= 0xffu32,
        ;
    }
    assert(drawn(frame, px, py, width, bitmap) =~= drawn(frame, px, py, 8, bitmap));
}

} // verus!
