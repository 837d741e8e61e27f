//! What the composition computes when its dependencies compute truly: with
//! `g = gcd(a, b)`, `q = a / g` and `q * b`, the reply is the least common
//! multiple of `a` and `b` (for `a, b >= 0`).

use vstd::prelude::*;

use crate::dependency::{CallOutcome, Dependency};
use crate::evaluation::{lcm_reply, spec_answer};
use crate::reply::Reply;
use crate::service::LcmResponse;

verus! {

/// The greatest common divisor by Euclid's algorithm, `gcd(0, 0) == 0`.
pub open spec fn gcd(a: nat, b: nat) -> nat
    decreases b,
{
    if b == 0 {
        a
    } else {
        gcd(b, a % b)
    }
}

/// The product `d * k`.
pub open spec fn times(d: int, k: int) -> int {
    d * k
}

/// `d` divides `n`: `n == d * k` for some integer `k`.
pub open spec fn divides(d: int, n: int) -> bool {
    exists|k: int| n == #[trigger] times(d, k)
}

/// `m` is the least common multiple of `a` and `b`: a non-negative common
/// multiple that divides every common multiple.
pub open spec fn is_lcm(m: int, a: int, b: int) -> bool {
    &&& m >= 0
    &&& divides(a, m)
    &&& divides(b, m)
    &&& forall|c: int| #[trigger] divides(a, c) && divides(b, c) ==> divides(m, c)
}

/// The composition's formula: `(a / gcd(a, b)) * b`, and `0` where the gcd is `0`.
pub open spec fn lcm_by_gcd(a: nat, b: nat) -> int {
    let g = gcd(a, b);
    if g == 0 {
        0
    } else {
        (a as int / g as int) * b
    }
}

proof fn lemma_mod_decomposition(a: nat, b: nat)
    requires
        b > 0,
    ensures
        a == (a / b) * b + a % b,
        a % b < b,
{
    vstd::arithmetic::div_mod::lemma_fundamental_div_mod(a as int, b as int);
    assert((a / b) * b == b * (a / b)) by (nonlinear_arith);
}

/// `gcd(a, b)` divides `a` and `b`.
proof fn lemma_gcd_divides(a: nat, b: nat)
    ensures
        divides(gcd(a, b) as int, a as int),
        divides(gcd(a, b) as int, b as int),
    decreases b,
{
    let g = gcd(a, b) as int;
    if b == 0 {
        assert(a as int == times(g, 1));
        assert(b as int == times(g, 0));
    } else {
        lemma_gcd_divides(b, a % b);
        lemma_mod_decomposition(a, b);
        let k1 = choose|k: int| b as int == times(g, k);
        let k2 = choose|k: int| (a % b) as int == times(g, k);
        let q = (a / b) as int;
        assert(a as int == g * (q * k1 + k2)) by (nonlinear_arith)
            requires
                a as int == q * (b as int) + (a % b) as int,
                b as int == g * k1,
                (a % b) as int == g * k2,
        ;
        assert(a as int == times(g, q * k1 + k2));
    }
}

/// Bezout: `gcd(a, b)` is an integer combination of `a` and `b`.
proof fn lemma_bezout(a: nat, b: nat) -> (coefficients: (int, int))
    ensures
        a * coefficients.0 + b * coefficients.1 == gcd(a, b),
    decreases b,
{
    if b == 0 {
        (1, 0)
    } else {
        let (x, y) = lemma_bezout(b, a % b);
        lemma_mod_decomposition(a, b);
        let q = (a / b) as int;
        let g = gcd(a, b) as int;
        assert(a * y + b * (x - q * y) == g) by (nonlinear_arith)
            requires
                b * x + (a % b) * y == g,
                a as int == q * (b as int) + (a % b) as int,
        ;
        (y, x - q * y)
    }
}

/// For `a, b >= 0`, `(a / gcd(a, b)) * b` (and `0` where the gcd is `0`) is the
/// least common multiple of `a` and `b`.
pub proof fn lemma_lcm_by_gcd_is_lcm(a: nat, b: nat)
    ensures
        is_lcm(lcm_by_gcd(a, b), a as int, b as int),
{
    let g = gcd(a, b) as int;
    lemma_gcd_divides(a, b);
    let ka = choose|k: int| a as int == times(g, k);
    let kb = choose|k: int| b as int == times(g, k);
    let m = lcm_by_gcd(a, b);
    if g == 0 {
        assert(a == 0 && b == 0);
        assert(m == 0);
        assert(divides(a as int, m)) by {
            assert(m == times(a as int, 0));
        }
        assert(divides(b as int, m)) by {
            assert(m == times(b as int, 0));
        }
        assert forall|c: int| #[trigger] divides(a as int, c) && divides(b as int, c) implies divides(m, c) by {
            let k = choose|k: int| c == times((a as int), k);
            assert(c == 0);
            assert(c == times(m, 0));
        }
    } else {
        assert(g > 0);
        assert(a as int / g == ka) by (nonlinear_arith)
            requires
                g > 0,
                a as int == g * ka,
        ;
        assert(m == ka * b);
        assert(divides(a as int, m)) by {
            assert(m == (a as int) * kb) by (nonlinear_arith)
                requires
                    m == ka * b,
                    a as int == g * ka,
                    b as int == g * kb,
            ;
            assert(m == times(a as int, kb));
        }
        assert(divides(b as int, m)) by {
            assert(m == (b as int) * ka) by (nonlinear_arith)
                requires
                    m == ka * b,
            ;
            assert(m == times(b as int, ka));
        }
        let (x, y) = lemma_bezout(a, b);
        assert forall|c: int| #[trigger] divides(a as int, c) && divides(b as int, c) implies divides(m, c) by {
            let s = choose|k: int| c == times((a as int), k);
            let t = choose|k: int| c == times((b as int), k);
            let (ai, bi) = (a as int, b as int);
            let ab = ai * bi;
            assert(c * g == c * (ai * x) + c * (bi * y)) by (nonlinear_arith)
                requires
                    ai * x + bi * y == g,
            ;
            assert(c * (ai * x) == ab * (t * x)) by (nonlinear_arith)
                requires
                    c == bi * t,
                    ab == ai * bi,
            ;
            assert(c * (bi * y) == ab * (s * y)) by (nonlinear_arith)
                requires
                    c == ai * s,
                    ab == ai * bi,
            ;
            assert(ab == m * g) by (nonlinear_arith)
                requires
                    m == ka * bi,
                    ai == g * ka,
                    ab == ai * bi,
            ;
            let w = t * x + s * y;
            assert(c * g == (m * w) * g) by (nonlinear_arith)
                requires
                    c * g == ab * (t * x) + ab * (s * y),
                    ab == m * g,
                    w == t * x + s * y,
            ;
            assert(c == m * w) by (nonlinear_arith)
                requires
                    c * g == (m * w) * g,
                    g > 0,
            ;
            assert(c == times(m, t * x + s * y));
        }
    }
}

/// When the dependencies compute truly on `a, b >= 0` (`srvcs-gcd` answers
/// `gcd(a, b)`, `srvcs-divide` answers `a / gcd(a, b)` and `srvcs-multiply` the
/// product of that and `b`), the evaluation replies `200` with the least common
/// multiple of `a` and `b`; where `gcd(a, b) == 0` the other two answers play
/// no part.
pub proof fn lemma_computing_dependencies_give_lcm(
    a: i64,
    b: i64,
    gcd_outcome: CallOutcome,
    divide_outcome: CallOutcome,
    multiply_outcome: CallOutcome,
)
    requires
        a >= 0,
        b >= 0,
        spec_answer(Dependency::Gcd, gcd_outcome) matches Ok(g) && g == gcd(a as nat, b as nat),
        gcd(a as nat, b as nat) != 0 ==> (spec_answer(Dependency::Divide, divide_outcome) matches Ok(q)
            && q == (a as int) / (gcd(a as nat, b as nat) as int)),
        gcd(a as nat, b as nat) != 0 ==> (spec_answer(Dependency::Multiply, multiply_outcome) matches Ok(r)
            && r == ((a as int) / (gcd(a as nat, b as nat) as int)) * b),
    ensures
        lcm_reply(a, b, gcd_outcome, divide_outcome, multiply_outcome) == Reply::Evaluated(
            LcmResponse { a, b, result: lcm_by_gcd(a as nat, b as nat) as i64 },
        ),
        is_lcm(lcm_by_gcd(a as nat, b as nat), a as int, b as int),
{
    lemma_lcm_by_gcd_is_lcm(a as nat, b as nat);
}

} // verus!
