//! The colour rule that does not depend on the gradient position.
use vstd::prelude::*;
use crate::grid::Rgba;

verus! {

/// A colour: red, green and blue channels.
pub type Rgb = [u8; 3];

/// The colour `c` at full opacity.
pub open spec fn opaque_view(c: Rgb) -> Seq<u8> {
    seq![c@[0], c@[1], c@[2], 255u8]
}

/// Whether an escape-time outcome with this iteration count counts as inside
/// the set.
pub open spec fn is_inside(iterations: u32, max_iter: u32) -> bool {
    iterations >= max_iter
}

/// Gives `c` full opacity.
pub fn opaque(c: Rgb) -> (r: Rgba)
    ensures
        r@ == opaque_view(c),
{
    let r: Rgba = [c[0], c[1], c[2], 255];
    assert(r@ =~= opaque_view(c));
    r
}

/// The colour of an escape-time pixel that is classified inside the set:
/// `inside_color` at full opacity once the count has reached the cap, and
/// `None` for a pixel that escaped, which takes its colour from the gradient.
pub fn inside_pixel(iterations: u32, max_iter: u32, inside_color: Rgb) -> (r: Option<Rgba>)
    ensures
        is_inside(iterations, max_iter) <==> r is Some,
        r matches Some(p) ==> p@ == opaque_view(inside_color),
{
    if iterations >= max_iter {
        Some(opaque(inside_color))
    } else {
        None
    }
}

} // verus!
