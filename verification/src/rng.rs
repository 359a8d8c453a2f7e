//! The randomness the asteroid placement consumes.
//!
//! Placement itself is a pure function of two uniform fractions (see
//! [`crate::entities::locate_asteroid`]); this module draws those
//! fractions from the thread-local generator of the `rand` crate. Keeping
//! the draws as plain data makes every computation on them verifiable and
//! lets a test inject fixed draws.

use crate::fixed::MILLI;
use vstd::prelude::*;

verus! {

/// One pair of uniform fractions in `[0, MILLI)`: the randomness one
/// asteroid relocation consumes.
#[derive(Clone, Copy, PartialEq, Eq, Structural, Debug)]
pub struct Draw {
    pub x_frac: i64,
    pub y_frac: i64,
}

impl Draw {
    pub open spec fn wf(self) -> bool {
        &&& 0 <= self.x_frac < MILLI
        &&& 0 <= self.y_frac < MILLI
    }
}

#[verifier::external_type_specification]
#[verifier::external_body]
pub struct ExThreadRng(rand::rngs::ThreadRng);

/// Relies on rand::thread_rng: returns a handle to the lazily seeded
/// thread-local generator. Nothing is assumed of the values it will
/// produce.
#[verifier::external_body]
fn new_rng() -> rand::rngs::ThreadRng {
    rand::thread_rng()
}

/// Relies on rand::Rng::gen_range: returns a value of the given range,
/// which is nonempty here, so the call cannot panic. The draw is random:
/// nothing beyond its range is assumed.
#[verifier::external_body]
fn gen_fraction(rng: &mut rand::rngs::ThreadRng) -> (r: i64)
    ensures
        0 <= r < MILLI,
{
    rand::Rng::gen_range(rng, 0..MILLI)
}

/// Draws one pair of fractions per asteroid of a pool of `count`.
pub fn sample_draws(count: usize) -> (r: Vec<Draw>)
    ensures
        r@.len() == count,
        forall|i: int| 0 <= i < count ==> (#[trigger] r@[i]).wf(),
{
    let mut rng = new_rng();
    let mut out: Vec<Draw> = Vec::new();
    let mut i: usize = 0;
    while i < count
        invariant
            0 <= i <= count,
            out@.len() == i,
            forall|k: int| 0 <= k < i ==> (#[trigger] out@[k]).wf(),
        decreases count - i,
    {
        let x_frac = gen_fraction(&mut rng);
        let y_frac = gen_fraction(&mut rng);
        out.push(Draw { x_frac, y_frac });
        i += 1;
    }
    out
}

} // verus!
