//! The command words that go over the wire.
//!
//! The display is a cascade of `CHIPS` driver chips on one serial bus. Each
//! chip shows eight columns of every row. A command is one half-word per
//! chip: its high byte is the register to write, its low byte the value.
//! The half-word for the leftmost chip goes first.

use vstd::prelude::*;

verus! {

/// Number of cascaded chips.
pub const CHIPS: usize = 4;

/// Number of commands that bring the chips up.
pub const INIT_STEPS: usize = 5;

/// The place value, within a row, of the rightmost column that `chip`
/// shows. Chip 0 shows the eight leftmost columns, the highest byte.
pub open spec fn chip_weight(chip: int) -> int {
    if chip == 0 {
        0x100_0000
    } else if chip == 1 {
        0x1_0000
    } else if chip == 2 {
        0x100
    } else {
        1
    }
}

/// The eight pixels of the row `pat` that `chip` shows.
pub open spec fn chip_pixels(pat: u32, chip: int) -> int {
    (pat as int / chip_weight(chip)) % 0x100
}

/// The command that sets row `line_num` of `chip` to its part of `pat`.
/// The high byte is the chip's address of the row, which counts from 1; the
/// low byte holds the pixels.
pub open spec fn command_word(line_num: int, pat: u32, chip: int) -> u16 {
    ((line_num + 1) * 0x100 + chip_pixels(pat, chip)) as u16
}

/// The record that sets row `line_num` of the display to `pat`: one command
/// per chip, leftmost chip first.
pub open spec fn row_record(line_num: int, pat: u32) -> Seq<u16> {
    Seq::new(CHIPS as nat, |chip: int| command_word(line_num, pat, chip))
}

/// The records that show `frame`: one per row, top row first.
pub open spec fn frame_records(frame: Seq<u32>) -> Seq<Seq<u16>> {
    Seq::new(frame.len(), |r: int| row_record(r, frame[r]))
}

/// The commands that bring a chip up, in the order in which the chip must
/// get them: leave test mode, take the pixels as they are (no digit
/// decoding), set the brightness, scan all eight rows, leave shutdown.
pub open spec fn init_words() -> Seq<u16> {
    seq![0x0F00u16, 0x0900u16, 0x0A02u16, 0x0B07u16, 0x0C01u16]
}

/// The records that bring the display up: each command of `init_words`,
/// once for every chip.
pub open spec fn init_records() -> Seq<Seq<u16>> {
    Seq::new(INIT_STEPS as nat, |step: int| Seq::new(CHIPS as nat, |chip: int| init_words()[step]))
}

/// The record that sets row `line_num` of the display to `pat`.
pub fn row_commands(line_num: usize, pat: u32) -> (dat: [u16; 4])
    requires
        line_num < 8,
    ensures
        dat@ == row_record(line_num as int, pat),
{
    let row: u16 = line_num as u16 + 1;
    let digi_code: u16 = row << 8;
    let b0: u16 = ((pat >> 24) & 0x00FF) as u16;
    let b1: u16 = ((pat >> 16) & 0x00FF) as u16;
    let b2: u16 = ((pat >> 8) & 0x00FF) as u16;
    let b3: u16 = (pat & 0x00FF) as u16;
    assert(((pat >> 24) & 0x00FF) == (pat / 0x100_0000) % 0x100) by (bit_vector);
    assert(((pat >> 16) & 0x00FF) == (pat / 0x1_0000) % 0x100) by (bit_vector);
    assert(((pat >> 8) & 0x00FF) == (pat / 0x100) % 0x100) by (bit_vector);
    assert((pat & 0x00FF) == (pat / 1) % 0x100) by (bit_vector);
    assert(digi_code == row * 0x100) by (bit_vector)
        requires
            digi_code == row << 8,
            row <= 8,
    ;
    assert(forall|low: u16| low < 0x100 ==> (digi_code | low) == #[trigger] (digi_code + low))
        by (bit_vector)
        requires
            digi_code == row << 8,
            row <= 8,
    ;
    let dat: [u16; 4] = [digi_code | b0, digi_code | b1, digi_code | b2, digi_code | b3];
    assert(dat@ =~= row_record(line_num as int, pat));
    dat
}

/// The record that gives every chip the command at position `step` of the
/// bring-up sequence.
pub fn init_commands(step: usize) -> (dat: [u16; 4])
    requires
        step < INIT_STEPS,
    ensures
        dat@ == init_records()[step as int],
{
    let pat: u16 = if step == 0 {
        0x0F00
    } else if step == 1 {
        0x0900
    } else if step == 2 {
        0x0A02
    } else if step == 3 {
        0x0B07
    } else {
        0x0C01
    };
    let dat: [u16; 4] = [pat; 4];
    assert(dat@ =~= init_records()[step as int]);
    dat
}

} // verus!
