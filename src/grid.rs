//! Row-major assembly of a pixel grid and its byte layout.
use vstd::prelude::*;

verus! {

/// A pixel: red, green, blue and alpha channels.
pub type Rgba = [u8; 4];

/// The pixels of each row, as sequences.
pub open spec fn rows_view(rows: Seq<Vec<Rgba>>) -> Seq<Seq<Rgba>> {
    rows.map_values(|r: Vec<Rgba>| r@)
}

/// There are `height` rows and each holds `width` pixels.
pub open spec fn is_grid(rows: Seq<Seq<Rgba>>, width: nat, height: nat) -> bool {
    &&& rows.len() == height
    &&& forall|i: int| 0 <= i < rows.len() ==> (#[trigger] rows[i]).len() == width
}

/// The bytes of a pixel sequence: four per pixel, in R, G, B, A order.
pub open spec fn pixel_bytes(pixels: Seq<Rgba>) -> Seq<u8> {
    Seq::new(4 * pixels.len(), |j: int| pixels[j / 4][j % 4])
}

/// Joins the rows in index order, row 0 first.
pub fn concat_rows(rows: &Vec<Vec<Rgba>>) -> (r: Vec<Rgba>)
    ensures
        r@ == rows_view(rows@).flatten(),
{
    let ghost rv = rows_view(rows@);
    let mut out: Vec<Rgba> = Vec::new();
    let mut i: usize = 0;
    while i < rows.len()
        invariant
            i <= rows@.len(),
            rv == rows_view(rows@),
            out@ == rv.subrange(0, i as int).flatten_alt(),
        decreases rows@.len() - i,
    {
        let row = &rows[i];
        let ghost before = out@;
        let mut j: usize = 0;
        while j < row.len()
            invariant
                j <= row@.len(),
                out@ == before + row@.subrange(0, j as int),
            decreases row@.len() - j,
        {
            out.push(row[j]);
            j = j + 1;
            assert(out@ =~= before + row@.subrange(0, j as int));
        }
        proof {
            let next = rv.subrange(0, i + 1);
            assert(next.drop_last() =~= rv.subrange(0, i as int));
            assert(next.last() == row@);
            assert(row@.subrange(0, j as int) =~= row@);
        }
        i = i + 1;
    }
    proof {
        assert(rv.subrange(0, i as int) =~= rv);
        rv.lemma_flatten_and_flatten_alt_are_equivalent();
    }
    out
}

/// Lays the pixels out as bytes, four per pixel in R, G, B, A order.
pub fn flatten_pixels(pixels: &Vec<Rgba>) -> (r: Vec<u8>)
    ensures
        r@ == pixel_bytes(pixels@),
{
    let mut out: Vec<u8> = Vec::new();
    let mut i: usize = 0;
    while i < pixels.len()
        invariant
            i <= pixels@.len(),
            out@ == pixel_bytes(pixels@.subrange(0, i as int)),
        decreases pixels@.len() - i,
    {
        let p = pixels[i];
        out.push(p[0]);
        out.push(p[1]);
        out.push(p[2]);
        out.push(p[3]);
        proof {
            let prev = pixels@.subrange(0, i as int);
            let next = pixels@.subrange(0, i + 1);
            assert forall|j: int| 0 <= j < 4 * next.len() implies #[trigger] out@[j] == next[j / 4][j % 4] by {
                if j < 4 * i {
                    assert(j / 4 < i) by (nonlinear_arith)
                        requires 0 <= j < 4 * i;
                    assert(out@[j] == prev[j / 4][j % 4]);
                } else {
                    assert(j / 4 == i && j % 4 == j - 4 * i) by (nonlinear_arith)
                        requires 4 * i <= j < 4 * i + 4;
                }
            }
            assert(out@ =~= pixel_bytes(next));
        }
        i = i + 1;
    }
    proof {
        assert(pixels@.subrange(0, i as int) =~= pixels@);
    }
    out
}

/// A grid of `height` rows of `width` pixels joins into `width * height` pixels.
pub proof fn lemma_grid_len(rows: Seq<Seq<Rgba>>, width: nat, height: nat)
    requires
        is_grid(rows, width, height),
    ensures
        rows.flatten().len() == width * height,
    decreases height,
{
    if height > 0 {
        assert(is_grid(rows.drop_first(), width, (height - 1) as nat));
        lemma_grid_len(rows.drop_first(), width, (height - 1) as nat);
        assert(width * height == width + width * (height - 1)) by (nonlinear_arith);
    }
}

/// In the joined grid, the pixel of column `px` in row `py` stands at
/// `py * width + px`.
pub proof fn lemma_row_major(rows: Seq<Seq<Rgba>>, width: nat, height: nat, px: nat, py: nat)
    requires
        is_grid(rows, width, height),
        px < width,
        py < height,
    ensures
        py * width + px < rows.flatten().len(),
        rows.flatten()[(py * width + px) as int] == rows[py as int][px as int],
    decreases py,
{
    lemma_grid_len(rows, width, height);
    assert(py * width + px < width * height) by (nonlinear_arith)
        requires px < width, py < height;
    if py > 0 {
        let rest = rows.drop_first();
        assert(is_grid(rest, width, (height - 1) as nat));
        lemma_row_major(rest, width, (height - 1) as nat, px, (py - 1) as nat);
        assert(py * width + px == width + ((py - 1) * width + px)) by (nonlinear_arith)
            requires py > 0;
    }
}

/// The byte buffer of a `width` by `height` grid holds `width * height * 4`
/// bytes.
pub proof fn lemma_buffer_size(rows: Seq<Seq<Rgba>>, width: nat, height: nat)
    requires
        is_grid(rows, width, height),
    ensures
        pixel_bytes(rows.flatten()).len() == width * height * 4,
{
    lemma_grid_len(rows, width, height);
}

/// Channel `k` of the pixel at column `px`, row `py` is the byte at
/// `4 * (py * width + px) + k` of the buffer.
pub proof fn lemma_byte_layout(rows: Seq<Seq<Rgba>>, width: nat, height: nat, px: nat, py: nat, k: nat)
    requires
        is_grid(rows, width, height),
        px < width,
        py < height,
        k < 4,
    ensures
        4 * (py * width + px) + k < pixel_bytes(rows.flatten()).len(),
        pixel_bytes(rows.flatten())[(4 * (py * width + px) + k) as int] == rows[py as int][px as int][k as int],
{
    lemma_row_major(rows, width, height, px, py);
    let i = py * width + px;
    assert((4 * i + k) / 4 == i && (4 * i + k) % 4 == k) by (nonlinear_arith)
        requires k < 4;
}

} // verus!
