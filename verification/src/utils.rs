//! Small helpers: random numbers and interpolation.

use vstd::prelude::*;
use rand::Rng;
use crate::fixed::{clamp, magnitude, scale, scaled};

verus! {

/// The value a fraction `t` of the way from `a` to `b`, with `t` in
/// thousandths and limited to the range from 0 to 1000.
pub open spec fn lerped(a: int, b: int, t: int) -> int {
    a + scaled(b - a, clamp(t, 0, 1_000), 1_000)
}

/// Calls `gen_range` of rand's thread-local generator on the inclusive
/// range from `min` to `max`. The generator panics on an empty range, which
/// the precondition leaves out, and otherwise returns some member of the
/// range: nothing more is claimed. It also panics when the operating
/// system's source of randomness fails, on first use in a thread or when
/// it reseeds; no argument decides that, so no precondition can exclude it.
#[verifier::external_body]
fn thread_rng_gen_range(min: i64, max: i64) -> (r: i64)
    requires
        min <= max,
    ensures
        min <= r <= max,
{
    rand::thread_rng().gen_range(min..=max)
}

/// A random number from `min` to `max`, both included.
pub fn random_in_range(min: i64, max: i64) -> (r: i64)
    requires
        min <= max,
    ensures
        min <= r <= max,
{
    thread_rng_gen_range(min, max)
}

/// Interpolates between `a` and `b`; `t` is in thousandths, and values of
/// `t` outside 0 to 1000 count as the nearer end.
pub fn lerp(a: i64, b: i64, t: i64) -> (r: i64)
    ensures
        r == lerped(a as int, b as int, t as int),
        a <= b ==> a <= r <= b,
        b <= a ==> b <= r <= a,
        t <= 0 ==> r == a,
        t >= 1_000 ==> r == b,
{
    let fraction: u32 = if t < 0 {
        0
    } else if t > 1_000 {
        1_000
    } else {
        t as u32
    };
    let span: i128 = b as i128 - a as i128;
    let part: i128 = scale(span, fraction, 1_000);
    proof {
        assert((magnitude(span as int) * fraction) / 1_000 <= magnitude(span as int))
            by (nonlinear_arith)
            requires
                0 <= fraction <= 1_000,
        ;
    }
    (a as i128 + part) as i64
}

} // verus!
