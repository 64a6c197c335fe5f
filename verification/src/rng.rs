//! The shared random source.
//!
//! Every random decision the simulation makes — which character a glyph
//! shows, when a trail restarts, how fast it fades — is one uniform draw
//! of an index below some bound.  Nothing is assumed of the value drawn
//! beyond that bound, so all logic downstream of a draw is verified for
//! every value the draw could return.

use vstd::prelude::*;

verus! {

/// Relies on `rand::Rng::gen_range` over `0..n` on the thread-local
/// generator: the result is uniform in `0..n`, so always below `n`.  The
/// call panics only on an empty range, which the precondition rules out.
#[verifier::external_body]
pub(crate) fn rand_below(n: usize) -> (r: usize)
    requires
        n >= 1,
    ensures
        r < n,
{
    rand::Rng::gen_range(&mut rand::thread_rng(), 0..n)
}

} // verus!
