use vstd::arithmetic::div_mod::lemma_fundamental_div_mod;
use vstd::arithmetic::div_mod::lemma_fundamental_div_mod_converse;
use vstd::prelude::*;

verus! {

/// `floor(num1 * num2 / denom)` when it is defined and fits in a `u32`.
pub open spec fn mul_div_spec(num1: u32, num2: u32, denom: u32) -> Option<u32> {
    if denom == 0 {
        None
    } else if (num1 as int * num2 as int) / (denom as int) <= u32::MAX {
        Some(((num1 as int * num2 as int) / (denom as int)) as u32)
    } else {
        None
    }
}

/// `y <= m / x` holds exactly when `x * y <= m`.
proof fn lemma_div_bound(m: int, x: int, y: int)
    requires
        m >= 0,
        x > 0,
        y >= 0,
    ensures
        (y <= m / x) <==> (x * y <= m),
{
    lemma_fundamental_div_mod(m, x);
    let q = m / x;
    let r = m % x;
    assert((y <= q) <==> (x * y <= m)) by (nonlinear_arith)
        requires
            m == x * q + r,
            0 <= r < x,
            x > 0,
    {
        if y <= q {
            assert(x * y <= x * q);
        } else {
            assert(x * y >= x * (q + 1));
        }
    }
}

/// A quotient of a product of two values below `d` is itself below `d`.
proof fn lemma_small_quotient(a: int, b: int, d: int, q: int, r: int)
    requires
        0 <= a < d,
        0 <= b < d,
        q * d + r == a * b,
        0 <= r,
    ensures
        q < d,
{
    assert(a * b < d * d) by (nonlinear_arith)
        requires
            0 <= a < d,
            0 <= b < d,
    {
        assert(a * b <= a * d);
        assert(a * d < d * d);
    }
    assert(q < d) by (nonlinear_arith)
        requires
            q * d + r == a * b,
            a * b < d * d,
            0 <= r,
            d > 0,
    {
        if q >= d {
            assert(q * d >= d * d);
        }
    }
}

/// Adds two residues modulo `denom` without overflow: returns the quotient
/// (0 or 1) and the remainder of `num1 + num2` by `denom`.
pub fn add_div(num1: u32, num2: u32, denom: u32) -> (r: (u32, u32))
    requires
        num1 < denom,
        num2 < denom,
    ensures
        r.0 as int * denom as int + r.1 as int == num1 as int + num2 as int,
        r.1 < denom,
        r.0 <= 1,
{
    if denom - num1 > num2 {
        (0, num1 + num2)
    } else {
        (1, num2 - (denom - num1))
    }
}

/// From the quotient and remainder of `x * y` by `denom`, those of
/// `(x + 1) * y`.
fn add_factor(q: u32, r: u32, x: u32, y: u32, denom: u32) -> (res: (u32, u32))
    requires
        r < denom,
        y < denom,
        x < denom - 1,
        q as int * denom as int + r as int == x as int * y as int,
    ensures
        res.0 as int * denom as int + res.1 as int == (x as int + 1) * y as int,
        res.1 < denom,
{
    let (carry, rem) = add_div(r, y, denom);
    proof {
        assert((x as int + 1) * y as int == x as int * y as int + y) by (nonlinear_arith);
        assert((q as int + carry as int) * denom as int == q as int * denom as int + carry as int
            * denom as int) by (nonlinear_arith);
        lemma_small_quotient(
            x as int + 1,
            y as int,
            denom as int,
            q as int + carry as int,
            rem as int,
        );
    }
    (q + carry, rem)
}

/// Quotient and remainder of `num1 * num2` by `denom`, for two factors below
/// `denom`, computed without any intermediate wider than a `u32`. Where the
/// product does not fit, both factors are halved and the four cross products
/// of the halves are combined with `add_div`. The halves of a factor differ
/// by at most one, so only the first cross product needs a recursive call;
/// the others follow from it by adding one factor.
pub fn mul_div_small(num1: u32, num2: u32, denom: u32) -> (r: (u32, u32))
    requires
        num1 < denom,
        num2 < denom,
    ensures
        r.0 as int * denom as int + r.1 as int == num1 as int * num2 as int,
        r.1 < denom,
    decreases num1 + num2,
{
    if num1 == 0 || num2 == 0 {
        assert(num1 as int * num2 as int == 0) by (nonlinear_arith)
            requires
                num1 == 0 || num2 == 0,
        ;
        (0, 0)
    } else if u32::MAX / num1 >= num2 {
        proof {
            lemma_div_bound(u32::MAX as int, num1 as int, num2 as int);
        }
        let p = num1 * num2;
        proof {
            lemma_fundamental_div_mod(p as int, denom as int);
            vstd::arithmetic::mul::lemma_mul_is_commutative(denom as int, p as int / denom as int);
        }
        (p / denom, p % denom)
    } else {
        proof {
            lemma_div_bound(u32::MAX as int, num1 as int, num2 as int);
            assert(num1 >= 2 && num2 >= 2) by (nonlinear_arith)
                requires
                    num1 as int * num2 as int > u32::MAX,
                    1 <= num1 <= u32::MAX,
                    1 <= num2 <= u32::MAX,
            ;
        }
        let num1_a = num1 / 2;
        let num1_b = num1 - num1_a;
        let num2_a = num2 / 2;
        let num2_b = num2 - num2_a;
        let (f1_q, f1_r) = mul_div_small(num1_a, num2_a, denom);
        let (f2_q, f2_r) = if num1_b == num1_a {
            (f1_q, f1_r)
        } else {
            add_factor(f1_q, f1_r, num1_a, num2_a, denom)
        };
        let (f3_q, f3_r) = if num2_b == num2_a {
            (f1_q, f1_r)
        } else {
            proof {
                vstd::arithmetic::mul::lemma_mul_is_commutative(num1_a as int, num2_a as int);
            }
            add_factor(f1_q, f1_r, num2_a, num1_a, denom)
        };
        let (f4_q, f4_r) = if num2_b == num2_a {
            (f2_q, f2_r)
        } else {
            proof {
                vstd::arithmetic::mul::lemma_mul_is_commutative(num1_b as int, num2_a as int);
            }
            add_factor(f2_q, f2_r, num2_a, num1_b, denom)
        };
        proof {
            assert(f3_q as int * denom + f3_r == num1_a as int * num2_b as int
                && f4_q as int * denom + f4_r == num1_b as int * num2_b as int) by (nonlinear_arith)
                requires
                    num2_b == num2_a || num2_b == num2_a + 1,
                    num2_b == num2_a ==> f3_q == f1_q && f3_r == f1_r && f4_q == f2_q && f4_r
                        == f2_r,
                    num2_b == num2_a + 1 ==> f3_q as int * denom + f3_r == (num2_a + 1)
                        * num1_a && f4_q as int * denom + f4_r == (num2_a + 1) * num1_b,
                    f1_q as int * denom + f1_r == num1_a as int * num2_a as int,
                    f2_q as int * denom + f2_r == num1_b as int * num2_a as int,
            ;
        }
        let (s1_q, s1_r) = add_div(f1_r, f2_r, denom);
        let (s2_q, s2_r) = add_div(f3_r, f4_r, denom);
        let (s3_q, s3_r) = add_div(s1_r, s2_r, denom);
        let ghost total: int = f1_q + f2_q + f3_q + f4_q + s1_q + s2_q + s3_q;
        proof {
            let d = denom as int;
            assert(num1 as int * num2 as int == num1_a as int * num2_a as int + num1_b as int
                * num2_a as int + num1_a as int * num2_b as int + num1_b as int * num2_b as int)
                by (nonlinear_arith)
                requires
                    num1 == num1_a + num1_b,
                    num2 == num2_a + num2_b,
            ;
            assert(total * d == f1_q as int * d + f2_q as int * d + f3_q as int * d + f4_q as int
                * d + s1_q as int * d + s2_q as int * d + s3_q as int * d) by (nonlinear_arith)
                requires
                    total == f1_q + f2_q + f3_q + f4_q + s1_q + s2_q + s3_q,
            ;
            lemma_small_quotient(num1 as int, num2 as int, d, total, s3_r as int);
        }
        let r_sum_q = s1_q + s2_q + s3_q;
        (f1_q + f2_q + f3_q + f4_q + r_sum_q, s3_r)
    }
}

/// `(a + b) * (c + e)` expanded into its four cross products.
proof fn lemma_expand(a: int, b: int, c: int, e: int)
    ensures
        (a + b) * (c + e) == a * c + b * c + a * e + b * e,
{
    assert((a + b) * (c + e) == a * c + b * c + a * e + b * e) by (nonlinear_arith);
}

/// The four cross terms of `(q1 * d + r1) * (q2 * d + r2)` give its quotient by `d`.
proof fn lemma_cross_terms(
    num1: int,
    num2: int,
    d: int,
    q1: int,
    r1: int,
    q2: int,
    r2: int,
    small_q: int,
    small_r: int,
)
    requires
        d > 0,
        num1 == q1 * d + r1,
        num2 == q2 * d + r2,
        q1 >= 0,
        q2 >= 0,
        r1 >= 0,
        r2 >= 0,
        small_q * d + small_r == r1 * r2,
        0 <= small_r < d,
    ensures
        (num1 * num2) / d == q1 * q2 * d + r1 * q2 + q1 * r2 + small_q,
        0 <= q1 * q2 <= q1 * q2 * d,
        0 <= r1 * q2,
        0 <= q1 * r2,
{
    let a = q1 * q2 * d;
    let b = r1 * q2;
    let c = q1 * r2;
    let total = a + b + c + small_q;
    lemma_expand(q1 * d, r1, q2 * d, r2);
    assert((q1 * d) * (q2 * d) == a * d) by (nonlinear_arith)
        requires
            a == q1 * q2 * d,
    ;
    assert(r1 * (q2 * d) == b * d) by (nonlinear_arith)
        requires
            b == r1 * q2,
    ;
    assert((q1 * d) * r2 == c * d) by (nonlinear_arith)
        requires
            c == q1 * r2,
    ;
    assert(total * d == a * d + b * d + c * d + small_q * d) by (nonlinear_arith)
        requires
            total == a + b + c + small_q,
    ;
    lemma_fundamental_div_mod_converse(num1 * num2, d, total, small_r);
    assert(0 <= q1 * q2 <= q1 * q2 * d && 0 <= r1 * q2 && 0 <= q1 * r2) by (nonlinear_arith)
        requires
            d > 0,
            q1 >= 0,
            q2 >= 0,
            r1 >= 0,
            r2 >= 0,
    ;
}

/// `floor(num1 * num2 / denom)`, or `None` where `denom` is zero or the
/// quotient does not fit in a `u32`. The dominant remainder cross term goes
/// through `mul_div_small`; the other three are checked for overflow.
pub fn mul_div(num1: u32, num2: u32, denom: u32) -> (r: Option<u32>)
    ensures
        r == mul_div_spec(num1, num2, denom),
{
    if denom == 0 {
        return None;
    }
    let num1_q = num1 / denom;
    let num1_r = num1 % denom;
    let num2_q = num2 / denom;
    let num2_r = num2 % denom;
    let (fourth_term, fourth_rem) = mul_div_small(num1_r, num2_r, denom);
    proof {
        lemma_fundamental_div_mod(num1 as int, denom as int);
        lemma_fundamental_div_mod(num2 as int, denom as int);
        lemma_cross_terms(
            num1 as int,
            num2 as int,
            denom as int,
            num1_q as int,
            num1_r as int,
            num2_q as int,
            num2_r as int,
            fourth_term as int,
            fourth_rem as int,
        );
    }
    let first = match num1_q.checked_mul(num2_q) {
        Some(x) => x,
        None => return None,
    };
    let first = match first.checked_mul(denom) {
        Some(x) => x,
        None => return None,
    };
    let second = match num1_r.checked_mul(num2_q) {
        Some(x) => x,
        None => return None,
    };
    let third = match num1_q.checked_mul(num2_r) {
        Some(x) => x,
        None => return None,
    };
    let sum = match first.checked_add(second) {
        Some(x) => x,
        None => return None,
    };
    let sum = match sum.checked_add(third) {
        Some(x) => x,
        None => return None,
    };
    sum.checked_add(fourth_term)
}

/// `floor(num1 * num2 / denom)` by widening to `u64`, or `None` where `denom`
/// is zero or the quotient does not fit in a `u32`.
pub fn mul_div3(num1: u32, num2: u32, denom: u32) -> (r: Option<u32>)
    ensures
        r == mul_div_spec(num1, num2, denom),
{
    if denom == 0 {
        return None;
    }
    assert(num1 as int * num2 as int <= u64::MAX) by (nonlinear_arith)
        requires
            num1 <= u32::MAX,
            num2 <= u32::MAX,
    ;
    let res = (num1 as u64) * (num2 as u64) / (denom as u64);
    if res <= u32::MAX as u64 {
        Some(res as u32)
    } else {
        None
    }
}

} // verus!
