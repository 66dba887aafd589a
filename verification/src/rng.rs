use vstd::prelude::*;
use rand::Rng;

verus! {

/// Relies on rand::Rng::gen_range on the thread-local generator: it returns
/// a value inside the given non-empty range, here zero to eight inclusive.
/// Nothing more is assumed of the draw.
#[verifier::external_body]
pub(crate) fn draw_below_nine() -> (r: u8)
    ensures
        r < 9,
{
    rand::thread_rng().gen_range(0u8..9u8)
}

} // verus!
