use vstd::prelude::*;

verus! {

/// The integer square root of `x`: the greatest `r` with `r * r <= x`.
pub open spec fn is_int_sqrt(x: int, r: int) -> bool {
    0 <= r && r * r <= x && x < (r + 1) * (r + 1)
}

/// One Newton step from an estimate `r` that is not below the root lands on an
/// estimate that is still not below the root.
proof fn lemma_newton_step_stays_above(x: int, r: int, q: int, n: int)
    requires
        0 < r,
        0 <= x,
        q == x / r,
        n == (r + q) / 2,
    ensures
        x < (n + 1) * (n + 1),
{
    // x < r * (q + 1), and 4 * r * (q + 1) <= (r + q + 1)^2 <= (2 * n + 2)^2.
    assert(x < r * (q + 1)) by (nonlinear_arith)
        requires
            0 < r,
            0 <= x,
            q == x / r,
    ;
    assert(4 * (r * (q + 1)) <= (r + q + 1) * (r + q + 1)) by (nonlinear_arith);
    assert(r + q + 1 <= 2 * n + 2);
    assert((r + q + 1) * (r + q + 1) <= (2 * n + 2) * (2 * n + 2)) by (nonlinear_arith)
        requires
            0 <= r + q + 1 <= 2 * n + 2,
    ;
    assert((2 * n + 2) * (2 * n + 2) == 4 * ((n + 1) * (n + 1))) by (nonlinear_arith);
}

/// Integer square root by Newton's iteration, rounding down.
pub fn fast_int_sqrt(x: usize) -> (r: usize)
    ensures
        is_int_sqrt(x as int, r as int),
{
    if x == 0 {
        assert(0 < (0 + 1) * (0 + 1)) by (nonlinear_arith);
        return 0;
    }
    let mut result: usize = x;
    assert((x + 1) * (x + 1) > x) by (nonlinear_arith)
        requires
            x > 0,
    ;
    while result > x / result
        invariant
            0 < result <= x,
            (x as int) < (result + 1) * (result + 1),
        decreases result,
    {
        let q: usize = x / result;
        proof {
            lemma_newton_step_stays_above(x as int, result as int, q as int, (result + q) / 2);
            assert(q >= 1) by (nonlinear_arith)
                requires
                    0 < result <= x,
                    q == x / result,
            ;
        }
        result = q + (result - q) / 2;
    }
    proof {
        let q = x as int / result as int;
        assert(result * result <= x) by (nonlinear_arith)
            requires
                0 < result,
                result <= q,
                q == x as int / result as int,
                0 <= x,
        ;
    }
    result
}

} // verus!
