use matrixled::matrix_led::Matrix;

fn rows(led: &Matrix) -> [u32; 8] {
    let mut out = [0u32; 8];
    for y in 0..8 {
        out[y] = led.row(y);
    }
    out
}

#[test]
fn new_framebuffer_is_blank() {
    let led = Matrix::new();
    assert_eq!(rows(&led), [0u32; 8]);
}

#[test]
fn clear_zeroes_every_row() {
    let mut led = Matrix::new();
    led.draw_bitmap(0, 0, 8, &[0xFF; 8]);
    led.draw_bitmap(24, 0, 8, &[0xFF; 8]);
    assert_eq!(rows(&led), [0xFF00_00FFu32; 8]);
    led.clear();
    assert_eq!(rows(&led), [0u32; 8]);
}

#[test]
fn draw_places_byte_at_left_edge() {
    let mut led = Matrix::new();
    led.draw_bitmap(0, 0, 8, &[0xFF, 0, 0, 0, 0, 0, 0, 0]);
    assert_eq!(rows(&led), [0xFF00_0000, 0, 0, 0, 0, 0, 0, 0]);
}

#[test]
fn draw_places_each_column_by_its_shift() {
    let mut led = Matrix::new();
    // shift = 31 - 8 - 8 + 1 = 16
    led.draw_bitmap(8, 0, 8, &[0xA5]);
    // shift = 31 - 24 - 8 + 1 = 0
    led.draw_bitmap(24, 1, 8, &[0xA5]);
    // shift = 31 - 31 - 1 + 1 = 0, one pixel in the last column
    led.draw_bitmap(31, 2, 1, &[0x01]);
    // shift = 31 - 0 - 1 + 1 = 31, one pixel in the first column
    led.draw_bitmap(0, 3, 1, &[0x01]);
    assert_eq!(rows(&led), [0x00A5_0000, 0x0000_00A5, 0x0000_0001, 0x8000_0000, 0, 0, 0, 0]);
}

#[test]
fn draw_uses_only_the_declared_width() {
    let mut led = Matrix::new();
    // width 4: only the low nibble counts; shift = 31 - 4 - 4 + 1 = 24
    led.draw_bitmap(4, 2, 4, &[0xFF]);
    // width 3: mask 0b111; shift = 31 - 0 - 3 + 1 = 29
    led.draw_bitmap(0, 3, 3, &[0xFD]);
    assert_eq!(rows(&led), [0, 0, 0x0F00_0000, 0xA000_0000, 0, 0, 0, 0]);
}

#[test]
fn draw_with_width_zero_sets_nothing() {
    let mut led = Matrix::new();
    led.draw_bitmap(0, 0, 0, &[0xFF; 8]);
    led.draw_bitmap(32, 0, 0, &[0xFF; 8]);
    assert_eq!(rows(&led), [0u32; 8]);
}

#[test]
fn draw_width_above_eight_counts_as_eight() {
    let mut wide = Matrix::new();
    wide.draw_bitmap(0, 0, 12, &[0xAB, 0xFF]);
    let mut eight = Matrix::new();
    eight.draw_bitmap(0, 0, 8, &[0xAB, 0xFF]);
    assert_eq!(rows(&wide), rows(&eight));
    assert_eq!(rows(&wide), [0xAB00_0000, 0xFF00_0000, 0, 0, 0, 0, 0, 0]);

    let mut huge = Matrix::new();
    huge.draw_bitmap(16, 4, u32::MAX, &[0x81]);
    assert_eq!(rows(&huge), [0, 0, 0, 0, 0x0000_8100, 0, 0, 0]);
}

#[test]
fn draw_below_the_display_changes_nothing() {
    let mut led = Matrix::new();
    led.draw_bitmap(3, 1, 8, &[0x5A, 0xC3]);
    let before = rows(&led);
    led.draw_bitmap(0, 8, 8, &[0xFF; 8]);
    led.draw_bitmap(0, 9, 8, &[0xFF]);
    led.draw_bitmap(-4, u32::MAX, 8, &[0xFF; 3]);
    assert_eq!(rows(&led), before);
}

#[test]
fn draw_drops_bitmap_rows_below_the_last_row() {
    let mut led = Matrix::new();
    led.draw_bitmap(0, 6, 8, &[0x11, 0x22, 0x33, 0x44]);
    assert_eq!(rows(&led), [0, 0, 0, 0, 0, 0, 0x1100_0000, 0x2200_0000]);

    let mut long = Matrix::new();
    long.draw_bitmap(24, 0, 8, &[1, 2, 3, 4, 5, 6, 7, 8, 9, 10, 11, 12]);
    assert_eq!(rows(&long), [1, 2, 3, 4, 5, 6, 7, 8]);
}

#[test]
fn draw_of_empty_bitmap_changes_nothing() {
    let mut led = Matrix::new();
    led.draw_bitmap(0, 0, 8, &[0x80]);
    led.draw_bitmap(0, 0, 8, &[]);
    assert_eq!(rows(&led), [0x8000_0000, 0, 0, 0, 0, 0, 0, 0]);
}

#[test]
fn draw_is_a_bitwise_or() {
    let mut led = Matrix::new();
    led.draw_bitmap(0, 0, 8, &[0xF0, 0x0F]);
    led.draw_bitmap(0, 0, 8, &[0x3C, 0x00]);
    assert_eq!(rows(&led), [0xFC00_0000, 0x0F00_0000, 0, 0, 0, 0, 0, 0]);

    // The same pixels come out whichever bitmap is drawn first.
    let mut other = Matrix::new();
    other.draw_bitmap(0, 0, 8, &[0x3C, 0x00]);
    other.draw_bitmap(0, 0, 8, &[0xF0, 0x0F]);
    assert_eq!(rows(&other), rows(&led));

    // And they are the OR of what each draw alone gives.
    let mut a = Matrix::new();
    a.draw_bitmap(0, 0, 8, &[0xF0, 0x0F]);
    let mut b = Matrix::new();
    b.draw_bitmap(0, 0, 8, &[0x3C, 0x00]);
    for y in 0..8 {
        assert_eq!(led.row(y), a.row(y) | b.row(y));
    }
}

#[test]
fn draw_never_switches_a_pixel_off() {
    let mut led = Matrix::new();
    led.draw_bitmap(0, 0, 8, &[0xFF; 8]);
    led.draw_bitmap(0, 0, 8, &[0x00; 8]);
    assert_eq!(rows(&led), [0xFF00_0000u32; 8]);
}

#[test]
fn clear_then_draw_equals_draw_on_new_framebuffer() {
    let mut used = Matrix::new();
    used.draw_bitmap(5, 0, 8, &[0xFF; 8]);
    used.draw_bitmap(-3, 2, 7, &[0x55; 8]);
    used.clear();
    used.draw_bitmap(10, 1, 6, &[0x2A, 0x15, 0x3F]);

    let mut fresh = Matrix::new();
    fresh.draw_bitmap(10, 1, 6, &[0x2A, 0x15, 0x3F]);

    assert_eq!(rows(&used), rows(&fresh));
    // shift = 31 - 10 - 6 + 1 = 16
    assert_eq!(rows(&fresh), [0, 0x002A_0000, 0x0015_0000, 0x003F_0000, 0, 0, 0, 0]);
}

#[test]
fn draw_left_of_the_display_clips() {
    // Columns -4..=3: the high nibble falls off the left edge.
    let mut led = Matrix::new();
    led.draw_bitmap(-4, 0, 8, &[0xF0]);
    assert_eq!(rows(&led), [0u32; 8]);

    led.draw_bitmap(-4, 0, 8, &[0x0F]);
    assert_eq!(rows(&led), [0xF000_0000, 0, 0, 0, 0, 0, 0, 0]);

    let mut both = Matrix::new();
    both.draw_bitmap(-4, 1, 8, &[0xA5]);
    assert_eq!(rows(&both), [0, 0x5000_0000, 0, 0, 0, 0, 0, 0]);

    let mut one = Matrix::new();
    one.draw_bitmap(-7, 0, 8, &[0xFF]);
    assert_eq!(rows(&one), [0x8000_0000, 0, 0, 0, 0, 0, 0, 0]);
}

#[test]
fn draw_right_of_the_display_clips() {
    // Columns 28..=35: the low nibble falls off the right edge.
    let mut led = Matrix::new();
    led.draw_bitmap(28, 0, 8, &[0xFF]);
    assert_eq!(rows(&led), [0x0000_000F, 0, 0, 0, 0, 0, 0, 0]);

    let mut one = Matrix::new();
    one.draw_bitmap(31, 0, 8, &[0x80, 0x7F]);
    assert_eq!(rows(&one), [0x0000_0001, 0, 0, 0, 0, 0, 0, 0]);
}

#[test]
fn draw_far_off_the_display_changes_nothing() {
    let mut led = Matrix::new();
    led.draw_bitmap(0, 0, 8, &[0x42]);
    let before = rows(&led);
    led.draw_bitmap(-8, 0, 8, &[0xFF; 8]);
    led.draw_bitmap(-9, 0, 8, &[0xFF; 8]);
    led.draw_bitmap(-40, 0, 8, &[0xFF; 8]);
    led.draw_bitmap(32, 0, 8, &[0xFF; 8]);
    led.draw_bitmap(56, 0, 8, &[0xFF; 8]);
    led.draw_bitmap(57, 0, 8, &[0xFF; 8]);
    led.draw_bitmap(i32::MAX, 0, 8, &[0xFF; 8]);
    led.draw_bitmap(i32::MIN, 0, 8, &[0xFF; 8]);
    led.draw_bitmap(i32::MIN, 0, 0, &[0xFF; 8]);
    led.draw_bitmap(i32::MAX, 0, 0, &[0xFF; 8]);
    assert_eq!(rows(&led), before);
}
