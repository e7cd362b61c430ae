//! Scoring half of the camera line analysis.
//!
//! The camera pipeline shrinks a photograph to a small grayscale thumbnail;
//! this module thresholds its pixels and weighs the dark ones into a left
//! score and a right score, from which a caller derives a steering
//! correction. Taking the photograph and loading it stay with the caller.

use vstd::prelude::*;

verus! {

/// Side length of the analysed thumbnail, in pixels.
pub const SHARP: usize = 15;

/// Luma value above which a pixel counts as background rather than line.
pub const LUMA_CUTOFF: u8 = 170;

/// Whether a pixel is dark enough to belong to the line.
pub open spec fn is_line(p: u8) -> bool {
    p <= LUMA_CUTOFF
}

/// Threshold one pixel: line pixels become white (255), background black (0).
pub fn threshold_pixel(p: u8) -> (r: u8)
    ensures
        is_line(p) ==> r == 255,
        !is_line(p) ==> r == 0,
{
    if p > LUMA_CUTOFF {
        0
    } else {
        255
    }
}

/// The score one cell contributes: a line pixel at the given column and
/// row weighs `SHARP - row`, so upper rows weigh most; background weighs
/// nothing. The thumbnail is stored row-major.
pub open spec fn cell_weight(pix: Seq<u8>, col: int, row: int) -> nat {
    if is_line(pix[row * (SHARP as int) + col]) {
        (SHARP as int - row) as nat
    } else {
        0
    }
}

/// The score of one column over the rows below `upto_row`.
pub open spec fn col_score(pix: Seq<u8>, col: int, upto_row: int) -> nat
    decreases upto_row,
{
    if upto_row <= 0 {
        0
    } else {
        col_score(pix, col, upto_row - 1) + cell_weight(pix, col, upto_row - 1)
    }
}

/// The score of the columns in `[from_col, upto_col)`, each over all rows.
pub open spec fn band_score(pix: Seq<u8>, from_col: int, upto_col: int) -> nat
    decreases upto_col - from_col,
{
    if upto_col <= from_col {
        0
    } else {
        band_score(pix, from_col, upto_col - 1) + col_score(pix, upto_col - 1, SHARP as int)
    }
}

/// Sum the scores of the columns in `[from_col, upto_col)`.
fn band(pixels: &Vec<u8>, from_col: usize, upto_col: usize) -> (score: u32)
    requires
        pixels@.len() == SHARP * SHARP,
        from_col <= upto_col <= SHARP,
    ensures
        score == band_score(pixels@, from_col as int, upto_col as int),
{
    let mut total: u32 = 0;
    let mut col: usize = from_col;
    while col < upto_col
        invariant
            from_col <= col <= upto_col <= SHARP,
            pixels@.len() == SHARP * SHARP,
            total == band_score(pixels@, from_col as int, col as int),
            total <= 225 * (col - from_col),
        decreases upto_col - col,
    {
        let mut cs: u32 = 0;
        let mut row: usize = 0;
        while row < SHARP
            invariant
                row <= SHARP,
                col < SHARP,
                pixels@.len() == SHARP * SHARP,
                cs == col_score(pixels@, col as int, row as int),
                cs <= 15 * row,
            decreases SHARP - row,
        {
            if pixels[row * SHARP + col] <= LUMA_CUTOFF {
                cs = cs + (SHARP - row) as u32;
            }
            row = row + 1;
        }
        total = total + cs;
        col = col + 1;
    }
    total
}

/// Weigh the thresholded thumbnail into a left score and a right score:
/// the left half of the columns against the rest. The caller steers
/// towards the lighter side.
pub fn ana(pixels: &Vec<u8>) -> (scores: (u32, u32))
    requires
        pixels@.len() == SHARP * SHARP,
    ensures
        scores.0 == band_score(pixels@, 0, SHARP as int / 2),
        scores.1 == band_score(pixels@, SHARP as int / 2, SHARP as int),
{
    let left = band(pixels, 0, SHARP / 2);
    let right = band(pixels, SHARP / 2, SHARP);
    (left, right)
}

/// What the thumbnail resampling makes of a grayscale image: the
/// `SHARP`-by-`SHARP` pixel block it shrinks to.
pub uninterp spec fn thumb_of(pix: Seq<u8>, width: u32, height: u32) -> Seq<u8>;

/// Relies on image::imageops::thumbnail: shrinking a grayscale image to
/// `SHARP` by `SHARP` yields exactly `SHARP * SHARP` pixels, and the
/// result depends on the input pixels and dimensions alone.
#[verifier::external_body]
fn shrink_to_thumbnail(pixels: &Vec<u8>, width: u32, height: u32) -> (thumb: Vec<u8>)
    requires
        pixels@.len() == width * height,
    ensures
        thumb@ == thumb_of(pixels@, width, height),
        thumb@.len() == SHARP * SHARP,
{
    let full = image::GrayImage::from_vec(width, height, pixels.clone()).unwrap();
    image::imageops::thumbnail(&full, SHARP as u32, SHARP as u32).into_vec()
}

/// Shrink a photograph's grayscale pixels to the analysis thumbnail and
/// weigh that into the left and right line scores.
pub fn ana_photo(pixels: &Vec<u8>, width: u32, height: u32) -> (scores: (u32, u32))
    requires
        pixels@.len() == width * height,
    ensures
        scores.0 == band_score(thumb_of(pixels@, width, height), 0, SHARP as int / 2),
        scores.1 == band_score(thumb_of(pixels@, width, height), SHARP as int / 2, SHARP as int),
{
    let thumb = shrink_to_thumbnail(pixels, width, height);
    ana(&thumb)
}

} // verus!
