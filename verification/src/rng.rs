//! The single source of non-determinism: randomised sign flips for the
//! ball velocity.

use vstd::prelude::*;
use crate::vec2::{Vec2, Vec2Model};

verus! {

/// Holds exactly when `v` is `m` or `-m`: a component of a randomised
/// vector built from magnitude `m`.
pub open spec fn sign_flip_of(v: int, m: int) -> bool {
    v == m || v == -m
}

/// Relies on rand::random::<bool>: draws one uniformly random boolean.
/// Nothing is promised of which value comes back.
#[verifier::external_body]
fn random_bool() -> bool {
    rand::random::<bool>()
}

/// Sets `vector` to `(±x, ±y)`, each sign chosen independently at random;
/// the component magnitudes are exactly `x` and `y`, never anything else.
pub fn randomise_vector(vector: &mut Vec2, x: i64, y: i64)
    requires
        x > i64::MIN,
        y > i64::MIN,
    ensures
        sign_flip_of(final(vector)@.x, x as int),
        sign_flip_of(final(vector)@.y, y as int),
{
    vector.x = if random_bool() {
        x
    } else {
        -x
    };
    vector.y = if random_bool() {
        y
    } else {
        -y
    };
}

} // verus!
