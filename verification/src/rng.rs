//! The seeded pseudo-random source used to spawn erosion droplets.
//!
//! The generator state is threaded explicitly as a plain word, so every
//! draw is a function of that word alone and a whole erosion run is a
//! function of its seed.

use vstd::prelude::*;

verus! {

/// The word the WyRand generator emits when stepped once from `state`.
pub uninterp spec fn wy_value(state: u64) -> u64;

/// The state the WyRand generator holds after one step from `state`.
pub uninterp spec fn wy_state(state: u64) -> u64;

/// Relies on `fastrand::Rng`: `with_seed` stores the given word as the whole
/// generator state, `u64(..)` over the full range advances that state by one
/// WyRand step and returns the generated word, and `get_seed` reads the
/// advanced state. Both results are functions of the state word alone, so
/// they carry the names `wy_value` and `wy_state`.
#[verifier::external_body]
fn wyrand_step(state: u64) -> (r: (u64, u64))
    ensures
        r.0 == wy_value(state),
        r.1 == wy_state(state),
{
    let mut rng = fastrand::Rng::with_seed(state);
    let value: u64 = rng.u64(..);
    (value, rng.get_seed())
}

/// The spawn ordinate drawn from a random word: the word reduced to
/// `[0, span)`.
pub open spec fn spawn_coord(v: u64, span: int) -> int
    recommends
        span > 0,
{
    (v as int) % span
}

/// Draw one pseudo-random ordinate in `[0, span)` and advance the state.
pub fn next_spawn(state: u64, span: i64) -> (r: (i64, u64))
    requires
        0 < span,
    ensures
        r.0 == spawn_coord(wy_value(state), span as int),
        r.1 == wy_state(state),
        0 <= r.0 < span,
{
    let (v, s2): (u64, u64) = wyrand_step(state);
    (((v % (span as u64)) as i64), s2)
}

} // verus!
