use car_ctrl::view::{ana, ana_photo, threshold_pixel, LUMA_CUTOFF, SHARP};

#[test]
fn test_threshold_pixel() {
    // At the cutoff a pixel still counts as line; above it, background.
    assert_eq!(threshold_pixel(LUMA_CUTOFF), 255);
    assert_eq!(threshold_pixel(LUMA_CUTOFF + 1), 0);
    assert_eq!(threshold_pixel(0), 255);
    assert_eq!(threshold_pixel(255), 0);
}

#[test]
fn test_ana_all_background() {
    let pixels = vec![255u8; SHARP * SHARP];
    assert_eq!(ana(&pixels), (0, 0));
}

#[test]
fn test_ana_all_line() {
    // Every cell counts: each column sums the weights 15 down to 1, that
    // is 120; seven columns on the left, eight on the right.
    let pixels = vec![0u8; SHARP * SHARP];
    assert_eq!(ana(&pixels), (7 * 120, 8 * 120));
}

#[test]
fn test_ana_single_pixels() {
    // One line pixel at the top-left corner weighs the full 15 on the
    // left.
    let mut pixels = vec![255u8; SHARP * SHARP];
    pixels[0] = 0;
    assert_eq!(ana(&pixels), (15, 0));

    // One line pixel in the bottom row weighs 1; column 7 belongs to the
    // right half.
    let mut pixels = vec![255u8; SHARP * SHARP];
    pixels[14 * SHARP + 7] = 0;
    assert_eq!(ana(&pixels), (0, 1));

    // Column 6 is the last left column; row 2 weighs 13.
    let mut pixels = vec![255u8; SHARP * SHARP];
    pixels[2 * SHARP + 6] = 0;
    assert_eq!(ana(&pixels), (13, 0));
}

#[test]
fn test_ana_photo_uniform() {
    // A uniformly bright photograph shrinks to a uniformly bright
    // thumbnail: nothing scores.
    let pixels = vec![255u8; 30 * 30];
    assert_eq!(ana_photo(&pixels, 30, 30), (0, 0));
    // A uniformly dark one scores every cell.
    let pixels = vec![0u8; 30 * 30];
    assert_eq!(ana_photo(&pixels, 30, 30), (7 * 120, 8 * 120));
}

#[test]
fn test_ana_photo_shrinks() {
    // A photograph whose top half is dark and bottom half bright shrinks
    // to a thumbnail whose top eight rows count as line (the boundary row
    // averages mid-gray, still under the cutoff): each column weighs
    // 15 + 14 + ... + 8 = 92. Were the pixels scored without shrinking,
    // the first 225 of them — all dark — would score every cell instead.
    let mut pixels = vec![255u8; 30 * 30];
    for p in pixels.iter_mut().take(15 * 30) {
        *p = 0;
    }
    assert_eq!(ana_photo(&pixels, 30, 30), (7 * 92, 8 * 92));
}

#[test]
fn test_ana_balanced_row() {
    // A full dark row weighs its row weight once per column.
    let mut pixels = vec![255u8; SHARP * SHARP];
    for col in 0..SHARP {
        pixels[5 * SHARP + col] = 100;
    }
    // Row 5 weighs 10: seven left columns and eight right columns.
    assert_eq!(ana(&pixels), (70, 80));
}
