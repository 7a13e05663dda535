//! Optimisation barriers for benchmark loops.

use vstd::prelude::*;

verus! {

/// Hands `x` through `std::hint::black_box`.
///
/// Trusted: `black_box` is documented as an identity function that only
/// hinders optimisation, so the value comes back unchanged.
#[verifier::external_body]
pub(crate) fn black_box<T>(x: T) -> (r: T)
    ensures
        r == x,
{
    std::hint::black_box(x)
}

} // verus!
