//! Packaging of the pixel rows into the encoded image that the host displays.
use vstd::prelude::*;
use base64::Engine;
use crate::grid::{Rgba, rows_view, is_grid, pixel_bytes, concat_rows, flatten_pixels, lemma_buffer_size};

verus! {

/// A rendered image: the RGBA bytes, row-major with the top row first,
/// in standard padded base64, with the size and the configured iteration cap.
pub struct JuliaResult {
    pub image_data: String,
    pub width: u32,
    pub height: u32,
    pub iterations_used: u32,
}

/// The standard padded base64 text of a byte sequence.
pub uninterp spec fn base64_standard(bytes: Seq<u8>) -> Seq<char>;

/// Length of the padded base64 text of `n` bytes: four characters for each
/// started group of three bytes.
pub open spec fn base64_len(n: nat) -> nat {
    4 * ((n + 2) / 3)
}

/// The bytes of an image given by its rows.
pub open spec fn image_bytes(rows: Seq<Seq<Rgba>>) -> Seq<u8> {
    pixel_bytes(rows.flatten())
}

/// Whether the encoded image of a `width` by `height` grid has a length that
/// fits in `usize`.
pub open spec fn image_fits_spec(width: u32, height: u32) -> bool {
    base64_len(4 * width as nat * height as nat) <= usize::MAX
}

/// Relies on base64's `Engine::encode` with the `STANDARD` engine: padded
/// output of `encoded_len` characters, four per started group of three bytes;
/// it panics where that length overflows `usize`.
#[verifier::external_body]
fn encode_base64(bytes: &Vec<u8>) -> (r: String)
    requires
        base64_len(bytes@.len()) <= usize::MAX,
    ensures
        r@ == base64_standard(bytes@),
        r@.len() == base64_len(bytes@.len()),
{
    base64::engine::general_purpose::STANDARD.encode(bytes)
}

/// Whether an image of this size can be packaged.
pub fn image_fits(width: u32, height: u32) -> (r: bool)
    ensures
        r == image_fits_spec(width, height),
{
    assert((width as int) * (height as int) <= 0xffff_ffff_ffff_ffff) by (nonlinear_arith)
        requires 0 <= width <= 0xffff_ffff, 0 <= height <= 0xffff_ffff;
    let pixels: u128 = (width as u128) * (height as u128);
    let bytes: u128 = 4 * pixels;
    let encoded: u128 = 4 * ((bytes + 2) / 3);
    assert(4 * width * height == bytes) by (nonlinear_arith)
        requires bytes == 4 * pixels, pixels == width * height;
    encoded <= usize::MAX as u128
}

/// Joins the rows in order, lays the pixels out as bytes and encodes them.
/// The size is echoed, and so is the iteration cap.
pub fn assemble_result(rows: &Vec<Vec<Rgba>>, width: u32, height: u32, max_iter: u32) -> (r: JuliaResult)
    requires
        is_grid(rows_view(rows@), width as nat, height as nat),
        image_fits_spec(width, height),
    ensures
        image_bytes(rows_view(rows@)).len() == width * height * 4,
        r.image_data@ == base64_standard(image_bytes(rows_view(rows@))),
        r.image_data@.len() == base64_len(4 * width as nat * height as nat),
        r.width == width,
        r.height == height,
        r.iterations_used == max_iter,
{
    let pixels = concat_rows(rows);
    let bytes = flatten_pixels(&pixels);
    proof {
        lemma_buffer_size(rows_view(rows@), width as nat, height as nat);
        assert(4 * width * height == width * height * 4) by (nonlinear_arith);
    }
    let image_data = encode_base64(&bytes);
    JuliaResult { image_data, width, height, iterations_used: max_iter }
}

/// The packaged image is a function of the rows' pixels alone: rows with the
/// same pixels give the same bytes and the same encoded text.
pub proof fn lemma_image_deterministic(a: Seq<Seq<Rgba>>, b: Seq<Seq<Rgba>>)
    requires
        a == b,
    ensures
        image_bytes(a) == image_bytes(b),
        base64_standard(image_bytes(a)) == base64_standard(image_bytes(b)),
{
}

} // verus!
