use vstd::prelude::*;

verus! {

/// The tangent construction of the dolly zoom, in exact arithmetic: the camera
/// stands at distance `d = p / q` from the centre of the unit sphere. Each
/// squared term is kept as a numerator over a denominator.
///
/// `td² = d² - 1 = (p² - q²) / q²`
pub open spec fn td_squared(p: int, q: int) -> (int, int) {
    (p * p - q * q, q * q)
}

/// `ty² = td² / d² = (p² - q²) / p²`
pub open spec fn ty_squared(p: int, q: int) -> (int, int) {
    (p * p - q * q, p * p)
}

/// `tx² = 1 - ty² = q² / p²`
pub open spec fn tx_squared(p: int, q: int) -> (int, int) {
    (p * p - ty_squared(p, q).0, p * p)
}

/// For every distance beyond the sphere's radius (`d > 1`), the terms under
/// both square roots are positive, so `td` and `tx` are real; `ty` lies
/// strictly between 0 and 1; and `tx = 1 / d` falls short of `d`, so the
/// tangent slope `ty / (tx - d)` never divides by zero.
pub proof fn lemma_tangent_terms_real(p: int, q: int)
    requires
        0 < q < p,
    ensures
        td_squared(p, q).0 > 0,
        td_squared(p, q).1 > 0,
        0 < ty_squared(p, q).0 < ty_squared(p, q).1,
        tx_squared(p, q).0 > 0,
        tx_squared(p, q).1 > 0,
        tx_squared(p, q).0 == q * q,
        q * q < p * p,
{
    assert(q * q < p * p) by (nonlinear_arith)
        requires
            0 < q < p,
    ;
    assert(q * q > 0) by (nonlinear_arith)
        requires
            0 < q,
    ;
}

} // verus!
