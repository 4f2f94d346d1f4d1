//! The display used as a one-line character display.
//!
//! Characters are gathered until a line ends. Then the line is drawn, one
//! glyph per character, and is ready to be handed to the streaming engine.
//! The glyphs come from a font that the caller supplies: a table with one
//! bitmap of eight rows for each of the 256 character codes.

use vstd::prelude::*;
use crate::bus::{DmaStatus, Plan};
use crate::dma_stream::{DmaStream, StreamState};
use crate::draw_laws::lemma_draw_right_of_display;
use crate::error::Error;
use crate::matrix_led::{blank, drawn, Matrix};
use crate::sequencer::frame_records;

verus! {

/// Number of characters that a line can hold.
pub const TEXT_CAPACITY: usize = 50;

/// Number of columns that a character takes.
pub const GLYPH_WIDTH: u32 = 4;

/// Control characters are not displayed. The end of a line is one of them.
pub open spec fn is_control(c: char) -> bool {
    (c as u32) < 0x20 || (c as u32) == 0x7f
}

/// The code under which a character is looked up in the font: the low
/// eight bits of its number.
pub open spec fn char_code(c: char) -> u8 {
    ((c as u32) % 0x100) as u8
}

/// The codes of the characters of `s` that are displayed, in their order.
pub open spec fn printable_codes(s: Seq<char>) -> Seq<u8> {
    s.filter(|c: char| !is_control(c)).map_values(|c: char| char_code(c))
}

/// The first `TEXT_CAPACITY` items of `text`, or all of it if it has
/// fewer.
pub open spec fn fitted(text: Seq<u8>) -> Seq<u8> {
    if text.len() > TEXT_CAPACITY {
        text.take(TEXT_CAPACITY as int)
    } else {
        text
    }
}

/// The line after the characters of `s` were written behind `text`: the
/// displayed characters of `s` are added as long as there is room, the
/// others are dropped.
pub open spec fn accumulated(text: Seq<u8>, s: Seq<char>) -> Seq<u8> {
    fitted(text + printable_codes(s))
}

/// The glyphs of the characters of `text`, as `font` has them.
pub open spec fn glyphs_of(text: Seq<u8>, font: Seq<[u8; 8]>) -> Seq<[u8; 8]> {
    Seq::new(text.len(), |i: int| font[text[i] as int])
}

/// The frame after the first `count` of `glyphs` were drawn onto `frame`,
/// side by side from the left edge, each `GLYPH_WIDTH` columns wide.
pub open spec fn composed(frame: Seq<u32>, glyphs: Seq<[u8; 8]>, count: nat) -> Seq<u32>
    decreases count,
{
    if count == 0 {
        frame
    } else {
        drawn(
            composed(frame, glyphs, (count - 1) as nat),
            GLYPH_WIDTH * (count - 1),
            0,
            GLYPH_WIDTH,
            glyphs[count - 1]@,
        )
    }
}

/// The frame that shows `glyphs` and nothing else.
pub open spec fn rendered(glyphs: Seq<[u8; 8]>) -> Seq<u32> {
    composed(blank(), glyphs, glyphs.len())
}

/// Writing one more character: it is added to the displayed ones unless it
/// is a control character.
proof fn lemma_printable_push(s: Seq<char>, c: char)
    ensures
        printable_codes(s.push(c)) == (if is_control(c) {
            printable_codes(s)
        } else {
            printable_codes(s).push(char_code(c))
        }),
{
    let keep = |c: char| !is_control(c);
    reveal(Seq::filter);
    assert(s.push(c).drop_last() =~= s);
    assert(s.push(c).filter(keep) == (if keep(c) {
        s.filter(keep).push(c)
    } else {
        s.filter(keep)
    }));
    assert(printable_codes(s.push(c)) =~= (if is_control(c) {
        printable_codes(s)
    } else {
        printable_codes(s).push(char_code(c))
    }));
}

/// The display driver for text.
pub struct DisplayLed {
    led: Matrix,
    buff: [u8; 50],
    buff_len: usize,
}

impl DisplayLed {
    /// The frame that the driver has composed.
    pub closed spec fn frame(&self) -> Seq<u32> {
        self.led@
    }

    /// The codes of the characters gathered for the line.
    pub closed spec fn text(&self) -> Seq<u8> {
        let count = if self.buff_len <= TEXT_CAPACITY {
            self.buff_len
        } else {
            TEXT_CAPACITY
        };
        self.buff@.take(count as int)
    }

    /// A line never holds more than `TEXT_CAPACITY` characters.
    pub proof fn lemma_text_fits(&self)
        ensures
            self.text().len() <= TEXT_CAPACITY,
    {
    }

    /// A driver with a blank frame and an empty line.
    pub fn new() -> (display: DisplayLed)
        ensures
            display.frame() == blank(),
            display.text() == Seq::<u8>::empty(),
    {
        let mut display = DisplayLed { led: Matrix::new(), buff: [0u8; 50], buff_len: 0 };
        display.led.clear();
        assert(display.text() =~= Seq::<u8>::empty());
        display
    }

    /// Switches every pixel of the frame off. The gathered line stays.
    pub fn clear(&mut self)
        ensures
            final(self).frame() == blank(),
            final(self).text() == old(self).text(),
    {
        self.led.clear();
    }

    /// The number of characters gathered for the line.
    pub fn buff_len(&self) -> (n: usize)
        ensures
            n == self.text().len(),
    {
        if self.buff_len <= 50 {
            self.buff_len
        } else {
            50
        }
    }

    /// The code of the character at position `i` of the line.
    pub fn char_at(&self, i: usize) -> (code: u8)
        requires
            i < self.text().len(),
        ensures
            code == self.text()[i as int],
    {
        self.buff[i]
    }

    /// The pixels of row `y` of the frame.
    pub fn row(&self, y: usize) -> (pat: u32)
        requires
            y < 8,
        ensures
            pat == self.frame()[y as int],
    {
        self.led.row(y)
    }

    /// Writes the characters of `s` to the line, and shows the line if `s`
    /// ends it, that is, holds a newline anywhere.
    ///
    /// Control characters are dropped, and so is every character for which
    /// the line has no room left. If `s` holds no newline, nothing else
    /// happens. If it does, the frame is composed anew of the glyphs that
    /// `font` has for the characters of the line, and the line is emptied
    /// for the next one. The result tells whether that happened: the frame
    /// is then due to be handed to the stream with `flash_led`.
    pub fn write_str(&mut self, s: &str, font: &[[u8; 8]; 256]) -> (is_output: bool)
        ensures
            is_output == s@.contains('\n'),
            !is_output ==> final(self).text() == accumulated(old(self).text(), s@)
                && final(self).frame() == old(self).frame(),
            is_output ==> final(self).text() == Seq::<u8>::empty() && final(self).frame()
                == rendered(glyphs_of(accumulated(old(self).text(), s@), font@)),
    {
        let mut is_output = false;
        assert(s@.take(0) =~= Seq::<char>::empty());
        assert(old(self).text() + printable_codes(Seq::<char>::empty()) =~= old(self).text());
        for c in chars: s.chars()
            invariant
                chars.seq() == s@,
                self.led == old(self).led,
                self.text() == accumulated(old(self).text(), s@.take(chars.index() as int)),
                is_output == s@.take(chars.index() as int).contains('\n'),
        {
            let ghost seen = s@.take(chars.index() as int);
            let ghost written = old(self).text() + printable_codes(seen);
            proof {
                assert(s@.take(chars.index() + 1) =~= seen.push(c));
                lemma_printable_push(seen, c);
                assert(seen.push(c).contains('\n') == (seen.contains('\n') || c == '\n')) by {
                    if seen.contains('\n') {
                        let j = choose|j: int| 0 <= j < seen.len() && seen[j] == '\n';
                        assert(seen.push(c)[j] == '\n');
                    }
                    if c == '\n' {
                        assert(seen.push(c)[seen.len() as int] == '\n');
                    }
                }
                if !is_control(c) {
                    assert(old(self).text() + printable_codes(seen.push(c)) =~= written.push(
                        char_code(c),
                    ));
                    assert(fitted(written.push(char_code(c))) =~= (if written.len()
                        < TEXT_CAPACITY {
                        written.push(char_code(c))
                    } else {
                        fitted(written)
                    }));
                }
            }
            let number: u32 = c as u32;
            if c == '\n' {
                is_output = true;
            } else if number < 0x20 || number == 0x7f {
            } else if self.buff_len < 50 {
                let ghost before = self.text();
                self.buff[self.buff_len] = (number % 0x100) as u8;
                self.buff_len += 1;
                assert(self.text() =~= before.push(char_code(c)));
            }
        }
        assert(s@.take(s@.len() as int) =~= s@);
        if is_output {
            self.flush(font);
        }
        is_output
    }

    /// Shows the line: composes the frame anew of the glyphs that `font`
    /// has for the characters of the line, and empties the line.
    ///
    /// The glyph of the character at position `i` is drawn `GLYPH_WIDTH`
    /// columns wide from column `GLYPH_WIDTH * i`, top row first. Glyphs
    /// beyond the right edge of the display are not seen. What the frame
    /// showed before is gone.
    pub fn flush(&mut self, font: &[[u8; 8]; 256])
        ensures
            final(self).frame() == rendered(glyphs_of(old(self).text(), font@)),
            final(self).text() == Seq::<u8>::empty(),
    {
        let ghost glyphs = glyphs_of(self.text(), font@);
        let count = self.buff_len();
        self.led.clear();
        let mut i: usize = 0;
        while i < count
            invariant
                i <= count,
                count == self.text().len(),
                self.text() == old(self).text(),
                glyphs == glyphs_of(self.text(), font@),
                self.led@ == composed(blank(), glyphs, i as nat),
            decreases count - i,
        {
            if i < 8 {
                let px: i32 = (i * 4) as i32;
                let code = self.char_at(i);
                self.led.draw_bitmap(px, 0, 4, font[code as usize].as_slice());
            } else {
                proof {
                    lemma_draw_right_of_display(
                        self.led@,
                        GLYPH_WIDTH * i,
                        0,
                        GLYPH_WIDTH,
                        glyphs[i as int]@,
                    );
                }
            }
            i += 1;
        }
        self.buff_len = 0;
        assert(self.text() =~= Seq::<u8>::empty());
    }

    /// Hands the frame to the stream, as `Matrix::flash_led` does.
    ///
    /// While a frame is still being streamed, or while the transfer
    /// hardware is still switched on, the call fails with `Error::Busy`
    /// and changes nothing. A caller that wants the line shown calls again
    /// until the frame is accepted.
    pub fn flash_led(&self, stream: &mut DmaStream, device: &DmaStatus) -> (res: Result<
        Plan,
        Error,
    >)
        ensures
            old(stream)@.busy || device.stream_enabled ==> res == Err::<Plan, Error>(Error::Busy)
                && final(stream)@ == old(stream)@,
            !old(stream)@.busy && !device.stream_enabled ==> res == Ok::<Plan, Error>(Plan::Start)
                && final(stream)@ == (StreamState {
                busy: true,
                queue: frame_records(self.frame()),
                cursor: old(stream)@.cursor,
            }),
    {
        self.led.flash_led(stream, device)
    }
}

} // verus!
