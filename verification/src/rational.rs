//! Exact rational scalars with bounded representation.
//!
//! A `Rational` stores a numerator and a positive denominator as
//! `i128` values, both bounded by [`BOUND`] so that one raw product or
//! sum of two well-formed values always fits in `i128`.  Every
//! operation normalizes its raw result by a common divisor and fails
//! (returns `None`) only when even the normalized result exceeds the
//! bound.  The mathematical value of each operation is pinned down
//! exactly by spec functions over the ghost pair [`RatV`].

use vstd::prelude::*;
use vstd::arithmetic::div_mod::{
    lemma_fundamental_div_mod, lemma_div_multiples_vanish, lemma_mod_multiples_basic,
    lemma_mod_self_0, lemma_small_mod,
};

verus! {

/// Largest magnitude (2^62) that a numerator may have, and the largest
/// denominator, in a well-formed `Rational`.
pub const BOUND: i128 = 4611686018427387904;

/// Largest raw magnitude (2^125) accepted by normalization; one raw
/// product of two well-formed values plus another stays below it.
pub const RAW_BOUND: i128 = 42535295865117307932921825928971026432;

/// Denominator scale (2^31) of a square-root approximation.
pub const SQRT_PREC: i128 = 2147483648;

/// Largest value of `n * d` (2^62) for which a square root is computed.
pub const SQRT_IN_MAX: i128 = 4611686018427387904;

/// The mathematical content of a rational: a numerator over a positive
/// denominator, as unbounded integers.
pub ghost struct RatV {
    pub n: int,
    pub d: int,
}

/// Magnitude of an integer.
pub open spec fn iabs(n: int) -> nat {
    if n < 0 {
        (-n) as nat
    } else {
        n as nat
    }
}

/// Euclid's recursion; used only as the common divisor that
/// normalization divides out.
pub open spec fn gcd(a: nat, b: nat) -> nat
    decreases b,
{
    if b == 0 {
        a
    } else {
        gcd(b, a % b)
    }
}

/// The normalized form of a raw pair with positive denominator: both
/// components divided by their common divisor.
pub open spec fn norm(n: int, d: int) -> RatV {
    let g = gcd(iabs(n), iabs(d)) as int;
    if g == 0 {
        RatV { n: 0, d: 1 }
    } else {
        RatV { n: n / g, d: d / g }
    }
}

/// A well-formed value: positive denominator, both components bounded.
pub open spec fn rat_wf(a: RatV) -> bool {
    1 <= a.d <= BOUND && -BOUND <= a.n <= BOUND
}

/// Mathematical equality of two pairs, by cross multiplication.
pub open spec fn rat_eqv(a: RatV, b: RatV) -> bool {
    a.n * b.d == b.n * a.d
}

/// Mathematical strict order of two pairs with positive denominators.
pub open spec fn rat_lt(a: RatV, b: RatV) -> bool {
    a.n * b.d < b.n * a.d
}

pub open spec fn rat_le(a: RatV, b: RatV) -> bool {
    a.n * b.d <= b.n * a.d
}

/// Keeps a normalized result only when it is well-formed.
pub open spec fn chk(v: RatV) -> Option<RatV> {
    if rat_wf(v) {
        Some(v)
    } else {
        None
    }
}

pub open spec fn rat_int(i: int) -> RatV {
    RatV { n: i, d: 1 }
}

pub open spec fn rat_add(a: RatV, b: RatV) -> Option<RatV> {
    chk(norm(a.n * b.d + b.n * a.d, a.d * b.d))
}

pub open spec fn rat_sub(a: RatV, b: RatV) -> Option<RatV> {
    chk(norm(a.n * b.d - b.n * a.d, a.d * b.d))
}

pub open spec fn rat_mul(a: RatV, b: RatV) -> Option<RatV> {
    chk(norm(a.n * b.n, a.d * b.d))
}

pub open spec fn rat_div(a: RatV, b: RatV) -> Option<RatV> {
    if b.n == 0 {
        None
    } else if b.n > 0 {
        chk(norm(a.n * b.d, a.d * b.n))
    } else {
        chk(norm(-(a.n * b.d), -(a.d * b.n)))
    }
}

pub open spec fn rat_neg(a: RatV) -> RatV {
    RatV { n: -a.n, d: a.d }
}

pub open spec fn rat_abs(a: RatV) -> RatV {
    RatV { n: iabs(a.n) as int, d: a.d }
}

/// `r` is the integer square root of `n`.
pub open spec fn is_isqrt(n: int, r: int) -> bool {
    0 <= r && r * r <= n && n < (r + 1) * (r + 1)
}

/// The integer square root, as chosen by its bracketing property.
pub open spec fn isqrt(n: int) -> int {
    choose|r: int| is_isqrt(n, r)
}

/// The floor approximation, at denominator scale `d * SQRT_PREC`, of
/// the square root of `n / d`.
pub open spec fn rat_sqrt(a: RatV) -> Option<RatV> {
    if a.n < 0 {
        None
    } else if a.n * a.d > SQRT_IN_MAX {
        None
    } else {
        chk(norm(isqrt(a.n * a.d * SQRT_PREC * SQRT_PREC), a.d * SQRT_PREC))
    }
}

/// Checked construction from a signed numerator and denominator.
pub open spec fn rat_new(n: int, d: int) -> Option<RatV> {
    if d == 0 {
        None
    } else if d > 0 {
        chk(norm(n, d))
    } else {
        chk(norm(-n, -d))
    }
}

/// The view of an optional rational.
pub open spec fn ov(r: Option<Rational>) -> Option<RatV> {
    match r {
        Some(q) => Some(q@),
        None => None,
    }
}

/// Well-formedness of an optional rational.
pub open spec fn opt_wf(r: Option<Rational>) -> bool {
    r matches Some(q) ==> q.wf()
}

/// Sum lifted over absent operands.
pub open spec fn o_add(a: Option<RatV>, b: Option<RatV>) -> Option<RatV> {
    match (a, b) {
        (Some(x), Some(y)) => rat_add(x, y),
        _ => None,
    }
}

/// Difference lifted over absent operands.
pub open spec fn o_sub(a: Option<RatV>, b: Option<RatV>) -> Option<RatV> {
    match (a, b) {
        (Some(x), Some(y)) => rat_sub(x, y),
        _ => None,
    }
}

/// Product lifted over absent operands.
pub open spec fn o_mul(a: Option<RatV>, b: Option<RatV>) -> Option<RatV> {
    match (a, b) {
        (Some(x), Some(y)) => rat_mul(x, y),
        _ => None,
    }
}

/// Quotient lifted over absent operands.
pub open spec fn o_div(a: Option<RatV>, b: Option<RatV>) -> Option<RatV> {
    match (a, b) {
        (Some(x), Some(y)) => rat_div(x, y),
        _ => None,
    }
}

/// Square root lifted over an absent operand.
pub open spec fn o_sqrt(a: Option<RatV>) -> Option<RatV> {
    match a {
        Some(x) => rat_sqrt(x),
        None => None,
    }
}

/// An exact scalar: a numerator over a positive denominator, both
/// bounded by [`BOUND`].
#[derive(Clone, Copy, PartialEq, Eq, Debug)]
pub struct Rational {
    n: i128,
    d: i128,
}

impl View for Rational {
    type V = RatV;

    closed spec fn view(&self) -> RatV {
        RatV { n: self.n as int, d: self.d as int }
    }
}

proof fn lemma_mul_le(x: int, y: int, b1: int, b2: int)
    by (nonlinear_arith)
    requires
        -b1 <= x <= b1,
        -b2 <= y <= b2,
        0 <= b1,
        0 <= b2,
    ensures
        -(b1 * b2) <= x * y <= b1 * b2,
{
}

/// Euclid's recursion yields a positive common divisor.
proof fn lemma_gcd_props(a: nat, b: nat)
    ensures
        a > 0 || b > 0 ==> gcd(a, b) >= 1,
        gcd(a, b) >= 1 ==> (a as int) % (gcd(a, b) as int) == 0 && (b as int) % (gcd(a, b) as int)
            == 0,
    decreases b,
{
    if b == 0 {
        if a > 0 {
            lemma_mod_self_0(a as int);
            lemma_small_mod(0, a);
        }
    } else {
        lemma_gcd_props(b, a % b);
        let g = gcd(b, a % b) as int;
        if g >= 1 {
            lemma_fundamental_div_mod(a as int, b as int);
            lemma_fundamental_div_mod(b as int, g);
            lemma_fundamental_div_mod((a % b) as int, g);
            let q = a as int / b as int;
            let kb = b as int / g;
            let kr = (a % b) as int / g;
            assert(a as int == g * (kb * q + kr)) by (nonlinear_arith)
                requires
                    a as int == b as int * q + (a % b) as int,
                    b as int == g * kb + 0,
                    (a % b) as int == g * kr + 0;
            lemma_mod_multiples_basic(kb * q + kr, g);
        }
    }
}

/// Common-divisor facts give exact division: the multiple recomposes.
proof fn lemma_exact_div(x: nat, g: nat)
    requires
        g >= 1,
        (x as int) % (g as int) == 0,
    ensures
        x as int == (g as int) * (x as int / g as int),
        0 <= x as int / g as int <= x as int,
{
    lemma_fundamental_div_mod(x as int, g as int);
    assert(x as int / g as int <= x as int) by (nonlinear_arith)
        requires
            g as int >= 1,
            0 <= x as int,
            x as int == (g as int) * (x as int / g as int) + 0,
            0 <= x as int % g as int;
    assert(0 <= x as int / g as int) by (nonlinear_arith)
        requires
            g as int >= 1,
            0 <= x as int,
            x as int == (g as int) * (x as int / g as int) + 0;
}

/// Computes Euclid's recursion.
fn gcd_u(a: u128, b: u128) -> (g: u128)
    ensures
        g as nat == gcd(a as nat, b as nat),
    decreases b,
{
    if b == 0 {
        a
    } else {
        gcd_u(b, a % b)
    }
}

/// Divides a raw pair by its common divisor and bound-checks the
/// result.
fn normalize(n: i128, d: i128) -> (r: Option<Rational>)
    requires
        1 <= d <= RAW_BOUND,
        -RAW_BOUND <= n <= RAW_BOUND,
    ensures
        ov(r) == chk(norm(n as int, d as int)),
        r matches Some(q) ==> q.wf(),
{
    let neg: bool = n < 0;
    let mag: u128 = if neg {
        (-n) as u128
    } else {
        n as u128
    };
    let du: u128 = d as u128;
    proof {
        assert(mag as nat == iabs(n as int));
        assert(du as nat == iabs(d as int));
    }
    let g: u128 = gcd_u(mag, du);
    proof {
        lemma_gcd_props(mag as nat, du as nat);
        assert(g >= 1);
    }
    let rn: u128 = mag / g;
    let rd: u128 = du / g;
    proof {
        lemma_exact_div(mag as nat, g as nat);
        lemma_exact_div(du as nat, g as nat);
        assert(rd >= 1) by (nonlinear_arith)
            requires
                du as int == (g as int) * (rd as int) + 0,
                du as int >= 1,
                rd as int >= 0;
        // the spec divides the signed raw pair; relate the quotients
        // of the magnitudes to the spec quotients
        if neg {
            assert((g as int) * (-(rn as int)) == n as int) by (nonlinear_arith)
                requires
                    mag as int == (g as int) * (rn as int) + 0,
                    n as int == -(mag as int);
            lemma_div_multiples_vanish(-(rn as int), g as int);
        } else {
            lemma_div_multiples_vanish(rn as int, g as int);
        }
        lemma_div_multiples_vanish(rd as int, g as int);
        assert(norm(n as int, d as int) == RatV {
            n: if neg { -(rn as int) } else { rn as int },
            d: rd as int,
        });
    }
    if rn > BOUND as u128 || rd > BOUND as u128 {
        return None;
    }
    let num: i128 = if neg {
        -(rn as i128)
    } else {
        rn as i128
    };
    Some(Rational { n: num, d: rd as i128 })
}

impl Rational {
    pub open spec fn wf(self) -> bool {
        rat_wf(self@)
    }

    /// The numerator of the stored (normalized) representation.
    pub fn num(&self) -> (r: i128)
        ensures
            r as int == self@.n,
    {
        self.n
    }

    /// The denominator of the stored (normalized) representation.
    pub fn den(&self) -> (r: i128)
        ensures
            r as int == self@.d,
    {
        self.d
    }

    /// The integer `i` as a rational.
    pub fn from_int(i: i64) -> (r: Rational)
        requires
            -(BOUND as int) <= i as int <= BOUND as int,
        ensures
            r@ == rat_int(i as int),
            r.wf(),
    {
        Rational { n: i as i128, d: 1 }
    }

    pub fn zero() -> (r: Rational)
        ensures
            r@ == rat_int(0),
            r.wf(),
    {
        Rational { n: 0, d: 1 }
    }

    pub fn one() -> (r: Rational)
        ensures
            r@ == rat_int(1),
            r.wf(),
    {
        Rational { n: 1, d: 1 }
    }

    /// The fraction `n / d` with a positive denominator, stored as
    /// given (not reduced); well-formedness does not require reduced
    /// representations.
    pub fn of_pair(n: i64, d: i64) -> (r: Rational)
        requires
            1 <= d,
            -(BOUND as int) <= n as int <= BOUND as int,
            d as int <= BOUND as int,
        ensures
            r@ == (RatV { n: n as int, d: d as int }),
            r.wf(),
    {
        Rational { n: n as i128, d: d as i128 }
    }

    /// The fraction `n / d`, normalized; `None` exactly on a zero
    /// denominator or an out-of-bounds normalized result.
    pub fn new(n: i64, d: i64) -> (r: Option<Rational>)
        ensures
            ov(r) == rat_new(n as int, d as int),
            r matches Some(q) ==> q.wf(),
    {
        if d == 0 {
            None
        } else if d > 0 {
            normalize(n as i128, d as i128)
        } else {
            normalize(-(n as i128), -(d as i128))
        }
    }

    /// Exact sum; `None` exactly when the normalized result exceeds
    /// the representation bound.
    pub fn add(a: Rational, b: Rational) -> (r: Option<Rational>)
        requires
            a.wf(),
            b.wf(),
        ensures
            ov(r) == rat_add(a@, b@),
            r matches Some(q) ==> q.wf(),
    {
        proof {
            lemma_mul_le(a@.n, b@.d, BOUND as int, BOUND as int);
            lemma_mul_le(b@.n, a@.d, BOUND as int, BOUND as int);
            lemma_mul_le(a@.d, b@.d, BOUND as int, BOUND as int);
        }
        let n: i128 = a.n * b.d + b.n * a.d;
        let d: i128 = a.d * b.d;
        proof {
            assert(d >= 1) by (nonlinear_arith)
                requires
                    d as int == a@.d * b@.d,
                    a@.d >= 1,
                    b@.d >= 1;
        }
        normalize(n, d)
    }

    /// Exact difference; `None` exactly when the normalized result
    /// exceeds the representation bound.
    pub fn sub(a: Rational, b: Rational) -> (r: Option<Rational>)
        requires
            a.wf(),
            b.wf(),
        ensures
            ov(r) == rat_sub(a@, b@),
            r matches Some(q) ==> q.wf(),
    {
        proof {
            lemma_mul_le(a@.n, b@.d, BOUND as int, BOUND as int);
            lemma_mul_le(b@.n, a@.d, BOUND as int, BOUND as int);
            lemma_mul_le(a@.d, b@.d, BOUND as int, BOUND as int);
        }
        let n: i128 = a.n * b.d - b.n * a.d;
        let d: i128 = a.d * b.d;
        proof {
            assert(d >= 1) by (nonlinear_arith)
                requires
                    d as int == a@.d * b@.d,
                    a@.d >= 1,
                    b@.d >= 1;
        }
        normalize(n, d)
    }

    /// Exact product; `None` exactly when the normalized result
    /// exceeds the representation bound.
    pub fn mul(a: Rational, b: Rational) -> (r: Option<Rational>)
        requires
            a.wf(),
            b.wf(),
        ensures
            ov(r) == rat_mul(a@, b@),
            r matches Some(q) ==> q.wf(),
    {
        proof {
            lemma_mul_le(a@.n, b@.n, BOUND as int, BOUND as int);
            lemma_mul_le(a@.d, b@.d, BOUND as int, BOUND as int);
        }
        let n: i128 = a.n * b.n;
        let d: i128 = a.d * b.d;
        proof {
            assert(d >= 1) by (nonlinear_arith)
                requires
                    d as int == a@.d * b@.d,
                    a@.d >= 1,
                    b@.d >= 1;
        }
        normalize(n, d)
    }

    /// Exact quotient; `None` exactly on a zero divisor or an
    /// out-of-bounds normalized result.
    pub fn div(a: Rational, b: Rational) -> (r: Option<Rational>)
        requires
            a.wf(),
            b.wf(),
        ensures
            ov(r) == rat_div(a@, b@),
            r matches Some(q) ==> q.wf(),
    {
        if b.n == 0 {
            return None;
        }
        proof {
            lemma_mul_le(a@.n, b@.d, BOUND as int, BOUND as int);
            lemma_mul_le(a@.d, b@.n, BOUND as int, BOUND as int);
        }
        let n: i128 = a.n * b.d;
        let d: i128 = a.d * b.n;
        if b.n > 0 {
            proof {
                assert(d >= 1) by (nonlinear_arith)
                    requires
                        d as int == a@.d * b@.n,
                        a@.d >= 1,
                        b@.n >= 1;
            }
            normalize(n, d)
        } else {
            proof {
                assert(-d >= 1) by (nonlinear_arith)
                    requires
                        d as int == a@.d * b@.n,
                        a@.d >= 1,
                        b@.n <= -1;
            }
            normalize(-n, -d)
        }
    }

    /// Exact negation; always representable.
    pub fn neg(a: Rational) -> (r: Rational)
        requires
            a.wf(),
        ensures
            r@ == rat_neg(a@),
            r.wf(),
    {
        Rational { n: -a.n, d: a.d }
    }

    /// Exact magnitude; always representable.
    pub fn abs(a: Rational) -> (r: Rational)
        requires
            a.wf(),
        ensures
            r@ == rat_abs(a@),
            r.wf(),
    {
        if a.n < 0 {
            Rational { n: -a.n, d: a.d }
        } else {
            Rational { n: a.n, d: a.d }
        }
    }

    /// Exact comparison.
    pub fn lt(a: Rational, b: Rational) -> (r: bool)
        requires
            a.wf(),
            b.wf(),
        ensures
            r == rat_lt(a@, b@),
    {
        proof {
            lemma_mul_le(a@.n, b@.d, BOUND as int, BOUND as int);
            lemma_mul_le(b@.n, a@.d, BOUND as int, BOUND as int);
        }
        a.n * b.d < b.n * a.d
    }

    /// Exact comparison.
    pub fn le(a: Rational, b: Rational) -> (r: bool)
        requires
            a.wf(),
            b.wf(),
        ensures
            r == rat_le(a@, b@),
    {
        proof {
            lemma_mul_le(a@.n, b@.d, BOUND as int, BOUND as int);
            lemma_mul_le(b@.n, a@.d, BOUND as int, BOUND as int);
        }
        a.n * b.d <= b.n * a.d
    }

    /// Exact mathematical equality.
    pub fn eq_val(a: Rational, b: Rational) -> (r: bool)
        requires
            a.wf(),
            b.wf(),
        ensures
            r == rat_eqv(a@, b@),
    {
        proof {
            lemma_mul_le(a@.n, b@.d, BOUND as int, BOUND as int);
            lemma_mul_le(b@.n, a@.d, BOUND as int, BOUND as int);
        }
        a.n * b.d == b.n * a.d
    }

    pub fn is_zero(&self) -> (r: bool)
        requires
            self.wf(),
        ensures
            r == (self@.n == 0),
    {
        self.n == 0
    }

    pub fn is_nonneg(&self) -> (r: bool)
        requires
            self.wf(),
        ensures
            r == (self@.n >= 0),
    {
        self.n >= 0
    }

    /// Floor approximation of the square root at denominator scale
    /// `d * SQRT_PREC`; exact whenever the value is the square of a
    /// rational representable at that scale.
    pub fn sqrt(a: Rational) -> (r: Option<Rational>)
        requires
            a.wf(),
        ensures
            ov(r) == rat_sqrt(a@),
            r matches Some(q) ==> q.wf(),
    {
        if a.n < 0 {
            return None;
        }
        proof {
            lemma_mul_le(a@.n, a@.d, BOUND as int, BOUND as int);
            assert(a@.n * a@.d >= 0) by (nonlinear_arith)
                requires
                    a@.n >= 0,
                    a@.d >= 1;
        }
        let prod: i128 = a.n * a.d;
        if prod > SQRT_IN_MAX {
            return None;
        }
        let m: u128 = (prod as u128) * 4611686018427387904u128;
        proof {
            assert(m as int == a@.n * a@.d * SQRT_PREC * SQRT_PREC) by (nonlinear_arith)
                requires
                    m as int == (a@.n * a@.d) * 4611686018427387904,
                    4611686018427387904 == SQRT_PREC * SQRT_PREC;
        }
        let s: u128 = isqrt_u(m);
        let den: i128 = a.d * SQRT_PREC;
        proof {
            assert((s as int) * (s as int) <= m as int);
            assert((s as int) < RAW_BOUND) by (nonlinear_arith)
                requires
                    (s as int) * (s as int) <= m as int,
                    m as int <= SQRT_IN_MAX * 4611686018427387904,
                    s as int >= 0;
        }
        normalize(s as i128, den)
    }
}

/// Sum of two optional rationals.
pub fn oadd(a: Option<Rational>, b: Option<Rational>) -> (r: Option<Rational>)
    requires
        opt_wf(a),
        opt_wf(b),
    ensures
        ov(r) == o_add(ov(a), ov(b)),
        opt_wf(r),
{
    match (a, b) {
        (Some(x), Some(y)) => Rational::add(x, y),
        _ => None,
    }
}

/// Difference of two optional rationals.
pub fn osub(a: Option<Rational>, b: Option<Rational>) -> (r: Option<Rational>)
    requires
        opt_wf(a),
        opt_wf(b),
    ensures
        ov(r) == o_sub(ov(a), ov(b)),
        opt_wf(r),
{
    match (a, b) {
        (Some(x), Some(y)) => Rational::sub(x, y),
        _ => None,
    }
}

/// Product of two optional rationals.
pub fn omul(a: Option<Rational>, b: Option<Rational>) -> (r: Option<Rational>)
    requires
        opt_wf(a),
        opt_wf(b),
    ensures
        ov(r) == o_mul(ov(a), ov(b)),
        opt_wf(r),
{
    match (a, b) {
        (Some(x), Some(y)) => Rational::mul(x, y),
        _ => None,
    }
}

/// Quotient of two optional rationals.
pub fn odiv(a: Option<Rational>, b: Option<Rational>) -> (r: Option<Rational>)
    requires
        opt_wf(a),
        opt_wf(b),
    ensures
        ov(r) == o_div(ov(a), ov(b)),
        opt_wf(r),
{
    match (a, b) {
        (Some(x), Some(y)) => Rational::div(x, y),
        _ => None,
    }
}

/// Square root of an optional rational.
pub fn osqrt(a: Option<Rational>) -> (r: Option<Rational>)
    requires
        opt_wf(a),
    ensures
        ov(r) == o_sqrt(ov(a)),
        opt_wf(r),
{
    match a {
        Some(x) => Rational::sqrt(x),
        None => None,
    }
}

/// Normalization preserves the fraction's value.
pub proof fn lemma_norm_eqv(n: int, d: int)
    requires
        1 <= d,
    ensures
        rat_eqv(norm(n, d), RatV { n, d }),
        norm(n, d).d >= 1,
{
    let g = gcd(iabs(n), iabs(d)) as int;
    lemma_gcd_props(iabs(n), iabs(d));
    assert(g >= 1);
    lemma_exact_div(iabs(d), g as nat);
    assert(d == g * (d / g));
    if n >= 0 {
        lemma_exact_div(iabs(n), g as nat);
        assert(n == g * (n / g));
    } else {
        lemma_exact_div(iabs(n), g as nat);
        let k = iabs(n) as int / g;
        assert(iabs(n) as int == g * k);
        assert(g * (-k) == n) by (nonlinear_arith)
            requires
                iabs(n) as int == g * k + 0,
                n == -(iabs(n) as int);
        lemma_div_multiples_vanish(-k, g);
        assert(n == g * (n / g));
    }
    assert((n / g) * d == n * (d / g)) by (nonlinear_arith)
        requires
            n == g * (n / g),
            d == g * (d / g);
    assert(d / g >= 1) by (nonlinear_arith)
        requires
            d == g * (d / g) + 0,
            d >= 1,
            g >= 1,
            d / g >= 0;
}

/// Value equality is transitive through a fraction whose denominator
/// is not zero.
pub proof fn lemma_eqv_trans(a: RatV, b: RatV, c: RatV)
    requires
        rat_eqv(a, b),
        rat_eqv(b, c),
        b.d != 0,
    ensures
        rat_eqv(a, c),
{
    assert(a.n * c.d == c.n * a.d) by (nonlinear_arith)
        requires
            a.n * b.d == b.n * a.d,
            b.n * c.d == c.n * b.d,
            b.d != 0;
}

/// A sum's stored value equals the textbook fraction.
pub proof fn lemma_add_eqv(a: RatV, b: RatV, x: RatV)
    requires
        a.d >= 1,
        b.d >= 1,
        rat_add(a, b) == Some(x),
    ensures
        rat_eqv(x, RatV { n: a.n * b.d + b.n * a.d, d: a.d * b.d }),
        x.d >= 1,
{
    assert(a.d * b.d >= 1) by (nonlinear_arith)
        requires
            a.d >= 1,
            b.d >= 1;
    lemma_norm_eqv(a.n * b.d + b.n * a.d, a.d * b.d);
}

/// A difference's stored value equals the textbook fraction.
pub proof fn lemma_sub_eqv(a: RatV, b: RatV, x: RatV)
    requires
        a.d >= 1,
        b.d >= 1,
        rat_sub(a, b) == Some(x),
    ensures
        rat_eqv(x, RatV { n: a.n * b.d - b.n * a.d, d: a.d * b.d }),
        x.d >= 1,
{
    assert(a.d * b.d >= 1) by (nonlinear_arith)
        requires
            a.d >= 1,
            b.d >= 1;
    lemma_norm_eqv(a.n * b.d - b.n * a.d, a.d * b.d);
}

/// A product's stored value equals the textbook fraction.
pub proof fn lemma_mul_eqv(a: RatV, b: RatV, x: RatV)
    requires
        a.d >= 1,
        b.d >= 1,
        rat_mul(a, b) == Some(x),
    ensures
        rat_eqv(x, RatV { n: a.n * b.n, d: a.d * b.d }),
        x.d >= 1,
{
    assert(a.d * b.d >= 1) by (nonlinear_arith)
        requires
            a.d >= 1,
            b.d >= 1;
    lemma_norm_eqv(a.n * b.n, a.d * b.d);
}

/// A quotient's stored value equals the cross fraction (whose
/// denominator carries the divisor's sign).
pub proof fn lemma_div_eqv(a: RatV, b: RatV, x: RatV)
    requires
        a.d >= 1,
        b.d >= 1,
        rat_div(a, b) == Some(x),
    ensures
        rat_eqv(x, RatV { n: a.n * b.d, d: a.d * b.n }),
        b.n != 0,
        x.d >= 1,
{
    if b.n > 0 {
        assert(a.d * b.n >= 1) by (nonlinear_arith)
            requires
                a.d >= 1,
                b.n >= 1;
        lemma_norm_eqv(a.n * b.d, a.d * b.n);
    } else {
        assert(-(a.d * b.n) >= 1) by (nonlinear_arith)
            requires
                a.d >= 1,
                b.n <= -1;
        lemma_norm_eqv(-(a.n * b.d), -(a.d * b.n));
        let mid = RatV { n: -(a.n * b.d), d: -(a.d * b.n) };
        assert((-(a.n * b.d)) * (a.d * b.n) == (a.n * b.d) * (-(a.d * b.n))) by (nonlinear_arith);
        assert(rat_eqv(mid, RatV { n: a.n * b.d, d: a.d * b.n }));
        lemma_eqv_trans(x, mid, RatV { n: a.n * b.d, d: a.d * b.n });
    }
}

/// Adding a value and then subtracting it returns the original; the
/// subtraction may act on any value equal to the sum (the sum is
/// re-normalized when other steps stand between the two).
pub proof fn lemma_add_sub_cancel(x: RatV, t: RatV, y: RatV, yb: RatV, z: RatV)
    requires
        x.d >= 1,
        t.d >= 1,
        yb.d >= 1,
        rat_add(x, t) == Some(y),
        rat_eqv(yb, y),
        rat_sub(yb, t) == Some(z),
    ensures
        rat_eqv(z, x),
{
    lemma_add_eqv(x, t, y);
    let an = x.n * t.d + t.n * x.d;
    let ad = x.d * t.d;
    lemma_eqv_trans(yb, y, RatV { n: an, d: ad });
    lemma_sub_eqv(yb, t, z);
    let s = RatV { n: yb.n * t.d - t.n * yb.d, d: yb.d * t.d };
    let s2 = RatV { n: an * t.d - t.n * ad, d: ad * t.d };
    assert(yb.n * t.d * ad == an * t.d * yb.d) by (nonlinear_arith)
        requires
            yb.n * ad == an * yb.d;
    assert((yb.n * t.d - t.n * yb.d) * (ad * t.d) == yb.n * t.d * (ad * t.d) - t.n * yb.d * (ad
        * t.d)) by (nonlinear_arith);
    assert((an * t.d - t.n * ad) * (yb.d * t.d) == an * t.d * (yb.d * t.d) - t.n * ad * (yb.d
        * t.d)) by (nonlinear_arith);
    assert(yb.n * t.d * (ad * t.d) == (yb.n * t.d * ad) * t.d) by (nonlinear_arith);
    assert(an * t.d * (yb.d * t.d) == (an * t.d * yb.d) * t.d) by (nonlinear_arith);
    assert(t.n * yb.d * (ad * t.d) == t.n * ad * (yb.d * t.d)) by (nonlinear_arith);
    assert((yb.n * t.d - t.n * yb.d) * (ad * t.d) == (an * t.d - t.n * ad) * (yb.d * t.d));
    assert(rat_eqv(s, s2));
    assert((an * t.d - t.n * ad) * x.d == x.n * (ad * t.d)) by (nonlinear_arith)
        requires
            an == x.n * t.d + t.n * x.d,
            ad == x.d * t.d;
    assert(rat_eqv(s2, x));
    assert(ad * t.d != 0 && yb.d * t.d != 0) by (nonlinear_arith)
        requires
            ad == x.d * t.d,
            x.d >= 1,
            t.d >= 1,
            yb.d >= 1;
    lemma_eqv_trans(z, s, s2);
    lemma_eqv_trans(z, s2, x);
}

/// Multiplying by a value and then by its reciprocal returns the
/// original; the second product may act on any value equal to the
/// first (which is re-normalized when other steps stand between).
pub proof fn lemma_mul_div_cancel(x: RatV, s: RatV, w: RatV, y: RatV, yb: RatV, z: RatV)
    requires
        x.d >= 1,
        s.d >= 1,
        yb.d >= 1,
        rat_div(rat_int(1), s) == Some(w),
        rat_mul(x, s) == Some(y),
        rat_eqv(yb, y),
        rat_mul(yb, w) == Some(z),
    ensures
        rat_eqv(z, x),
{
    lemma_div_eqv(rat_int(1), s, w);
    let mn = x.n * s.n;
    let md = x.d * s.d;
    lemma_mul_eqv(x, s, y);
    lemma_eqv_trans(yb, y, RatV { n: mn, d: md });
    lemma_mul_eqv(yb, w, z);
    let p = RatV { n: yb.n * w.n, d: yb.d * w.d };
    let p2 = RatV { n: mn * s.d, d: md * s.n };
    assert(yb.n * md * s.d * w.d == mn * s.d * yb.d * w.d) by (nonlinear_arith)
        requires
            yb.n * md == mn * yb.d;
    assert((yb.n * w.n) * (md * s.n) == (yb.n * md) * (w.n * s.n)) by (nonlinear_arith);
    assert((yb.n * md) * (s.d * w.d) == yb.n * md * s.d * w.d) by (nonlinear_arith);
    assert((mn * s.d) * (yb.d * w.d) == mn * s.d * yb.d * w.d) by (nonlinear_arith);
    assert((yb.n * w.n) * (md * s.n) == (mn * s.d) * (yb.d * w.d));
    assert(rat_eqv(p, p2));
    assert((mn * s.d) * x.d == x.n * (md * s.n)) by (nonlinear_arith)
        requires
            mn == x.n * s.n,
            md == x.d * s.d;
    assert(rat_eqv(p2, x));
    assert(yb.d * w.d != 0 && md * s.n != 0) by (nonlinear_arith)
        requires
            yb.d >= 1,
            w.d >= 1,
            md == x.d * s.d,
            x.d >= 1,
            s.d >= 1,
            s.n != 0;
    lemma_eqv_trans(z, p, p2);
    lemma_eqv_trans(z, p2, x);
}

/// Equal values have equal textbook sums.
pub proof fn lemma_raw_add_congr(a: RatV, a2: RatV, b: RatV, b2: RatV)
    requires
        rat_eqv(a, a2),
        rat_eqv(b, b2),
    ensures
        rat_eqv(
            RatV { n: a.n * b.d + b.n * a.d, d: a.d * b.d },
            RatV { n: a2.n * b2.d + b2.n * a2.d, d: a2.d * b2.d },
        ),
{
    lemma_cross_term(a.n, a.d, a2.n, a2.d, b.d, b2.d);
    lemma_cross_term(b.n, b.d, b2.n, b2.d, a.d, a2.d);
    assert((a.n * b.d + b.n * a.d) * (a2.d * b2.d) == a.n * b.d * (a2.d * b2.d) + b.n * a.d * (
    a2.d * b2.d)) by (nonlinear_arith);
    assert((a2.n * b2.d + b2.n * a2.d) * (a.d * b.d) == a2.n * b2.d * (a.d * b.d) + b2.n * a2.d
        * (a.d * b.d)) by (nonlinear_arith);
    assert(b.n * a.d * (a2.d * b2.d) == b.n * b2.d * (a.d * a2.d)) by (nonlinear_arith);
    assert(b2.n * a2.d * (a.d * b.d) == b2.n * b.d * (a2.d * a.d)) by (nonlinear_arith);
    assert(b.n * b2.d * (a.d * a2.d) == b2.n * b.d * (a2.d * a.d)) by (nonlinear_arith)
        requires
            b.n * b2.d == b2.n * b.d;
}

/// One cross term of a congruence: equal fractions stay equal when
/// both sides gain the same factor.
proof fn lemma_cross_term(xn: int, xd: int, yn: int, yd: int, p: int, q: int)
    requires
        xn * yd == yn * xd,
    ensures
        xn * p * (yd * q) == yn * q * (xd * p),
{
    assert(xn * p * (yd * q) == (xn * yd) * (p * q)) by (nonlinear_arith);
    assert(yn * q * (xd * p) == (yn * xd) * (p * q)) by (nonlinear_arith);
}

/// Equal values have equal textbook differences.
pub proof fn lemma_raw_sub_congr(a: RatV, a2: RatV, b: RatV, b2: RatV)
    requires
        rat_eqv(a, a2),
        rat_eqv(b, b2),
    ensures
        rat_eqv(
            RatV { n: a.n * b.d - b.n * a.d, d: a.d * b.d },
            RatV { n: a2.n * b2.d - b2.n * a2.d, d: a2.d * b2.d },
        ),
{
    lemma_cross_term(a.n, a.d, a2.n, a2.d, b.d, b2.d);
    lemma_cross_term(b.n, b.d, b2.n, b2.d, a.d, a2.d);
    assert((a.n * b.d - b.n * a.d) * (a2.d * b2.d) == a.n * b.d * (a2.d * b2.d) - b.n * a.d * (
    a2.d * b2.d)) by (nonlinear_arith);
    assert((a2.n * b2.d - b2.n * a2.d) * (a.d * b.d) == a2.n * b2.d * (a.d * b.d) - b2.n * a2.d
        * (a.d * b.d)) by (nonlinear_arith);
    assert(b.n * a.d * (a2.d * b2.d) == b.n * b2.d * (a.d * a2.d)) by (nonlinear_arith);
    assert(b2.n * a2.d * (a.d * b.d) == b2.n * b.d * (a2.d * a.d)) by (nonlinear_arith);
    assert(b.n * b2.d * (a.d * a2.d) == b2.n * b.d * (a2.d * a.d)) by (nonlinear_arith)
        requires
            b.n * b2.d == b2.n * b.d;
}

/// Equal values have equal textbook products.
pub proof fn lemma_raw_mul_congr(a: RatV, a2: RatV, b: RatV, b2: RatV)
    requires
        rat_eqv(a, a2),
        rat_eqv(b, b2),
    ensures
        rat_eqv(RatV { n: a.n * b.n, d: a.d * b.d }, RatV { n: a2.n * b2.n, d: a2.d * b2.d }),
{
    assert((a.n * b.n) * (a2.d * b2.d) == (a.n * a2.d) * (b.n * b2.d)) by (nonlinear_arith);
    assert((a2.n * b2.n) * (a.d * b.d) == (a2.n * a.d) * (b2.n * b.d)) by (nonlinear_arith);
    assert((a.n * a2.d) * (b.n * b2.d) == (a2.n * a.d) * (b2.n * b.d)) by (nonlinear_arith)
        requires
            a.n * a2.d == a2.n * a.d,
            b.n * b2.d == b2.n * b.d;
}

/// A product with an exact one is the other factor.
pub proof fn lemma_mul_one_right(a: RatV, m: RatV)
    requires
        a.d >= 1,
        rat_mul(a, rat_int(1)) == Some(m),
    ensures
        rat_eqv(m, a),
        m.d >= 1,
{
    lemma_mul_eqv(a, rat_int(1), m);
}

/// A product with an exact zero has a zero numerator.
pub proof fn lemma_mul_zero_right(a: RatV, m: RatV)
    requires
        a.d >= 1,
        rat_mul(a, rat_int(0)) == Some(m),
    ensures
        m.n == 0,
        m.d >= 1,
{
    lemma_mul_eqv(a, rat_int(0), m);
    assert(a.n * 0 == 0) by (nonlinear_arith);
    assert(m.n == 0) by (nonlinear_arith)
        requires
            m.n * (a.d * 1) == 0,
            a.d >= 1;
}

/// Adding a zero-valued term on the right changes nothing.
pub proof fn lemma_add_zero_right(a: RatV, z: RatV, r: RatV)
    requires
        a.d >= 1,
        z.d >= 1,
        z.n == 0,
        rat_add(a, z) == Some(r),
    ensures
        rat_eqv(r, a),
        r.d >= 1,
{
    lemma_add_eqv(a, z, r);
    let p = RatV { n: a.n * z.d + z.n * a.d, d: a.d * z.d };
    assert(z.n * a.d == 0) by (nonlinear_arith)
        requires
            z.n == 0;
    assert((a.n * z.d) * a.d == a.n * (a.d * z.d)) by (nonlinear_arith);
    assert(rat_eqv(p, a));
    assert(p.d != 0) by (nonlinear_arith)
        requires
            a.d >= 1,
            z.d >= 1,
            p.d == a.d * z.d;
    lemma_eqv_trans(r, p, a);
}

/// Adding a zero-valued term on the left changes nothing.
pub proof fn lemma_add_zero_left(z: RatV, a: RatV, r: RatV)
    requires
        a.d >= 1,
        z.d >= 1,
        z.n == 0,
        rat_add(z, a) == Some(r),
    ensures
        rat_eqv(r, a),
        r.d >= 1,
{
    lemma_add_eqv(z, a, r);
    let p = RatV { n: z.n * a.d + a.n * z.d, d: z.d * a.d };
    assert(z.n * a.d == 0) by (nonlinear_arith)
        requires
            z.n == 0;
    assert((a.n * z.d) * a.d == a.n * (z.d * a.d)) by (nonlinear_arith);
    assert(rat_eqv(p, a));
    assert(p.d != 0) by (nonlinear_arith)
        requires
            a.d >= 1,
            z.d >= 1,
            p.d == z.d * a.d;
    lemma_eqv_trans(r, p, a);
}

/// The sum of two zero-valued terms has a zero numerator.
pub proof fn lemma_add_zeros(z1: RatV, z2: RatV, r: RatV)
    requires
        z1.d >= 1,
        z2.d >= 1,
        z1.n == 0,
        z2.n == 0,
        rat_add(z1, z2) == Some(r),
    ensures
        r.n == 0,
        r.d >= 1,
{
    lemma_add_eqv(z1, z2, r);
    assert(r.n * (z1.d * z2.d) == 0) by (nonlinear_arith)
        requires
            r.n * (z1.d * z2.d) == (z1.n * z2.d + z2.n * z1.d) * r.d,
            z1.n == 0,
            z2.n == 0;
    assert(r.n == 0) by (nonlinear_arith)
        requires
            r.n * (z1.d * z2.d) == 0,
            z1.d >= 1,
            z2.d >= 1;
}

/// Computes the integer square root by bisection.
fn isqrt_u(m: u128) -> (r: u128)
    requires
        m as int <= SQRT_IN_MAX * 4611686018427387904,
    ensures
        is_isqrt(m as int, r as int),
        r as int == isqrt(m as int),
{
    let mut lo: u128 = 0;
    let mut hi: u128 = 9223372036854775808u128;
    proof {
        assert((hi as int) * (hi as int) > m as int) by (nonlinear_arith)
            requires
                hi as int == 9223372036854775808,
                m as int <= SQRT_IN_MAX * 4611686018427387904;
    }
    while lo + 1 < hi
        invariant
            (lo as int) * (lo as int) <= m as int,
            (m as int) < (hi as int) * (hi as int),
            lo < hi,
            hi <= 9223372036854775808u128,
        decreases hi - lo,
    {
        let mid: u128 = lo + (hi - lo) / 2;
        proof {
            assert((mid as int) * (mid as int) < 170141183460469231731687303715884105728) by (nonlinear_arith)
                requires
                    0 <= mid as int,
                    mid as int <= 9223372036854775808;
        }
        if mid * mid <= m {
            lo = mid;
        } else {
            hi = mid;
        }
    }
    proof {
        assert(is_isqrt(m as int, lo as int));
        assert(exists|r: int| is_isqrt(m as int, r));
        lemma_isqrt_unique(m as int, lo as int, isqrt(m as int));
    }
    lo
}

/// The bracketing property determines the integer square root.
proof fn lemma_isqrt_unique(n: int, r1: int, r2: int)
    requires
        is_isqrt(n, r1),
        is_isqrt(n, r2),
    ensures
        r1 == r2,
{
    if r1 < r2 {
        assert(r2 * r2 > n) by (nonlinear_arith)
            requires
                0 <= r1,
                r1 + 1 <= r2,
                n < (r1 + 1) * (r1 + 1);
        assert(false);
    }
    if r2 < r1 {
        assert(r1 * r1 > n) by (nonlinear_arith)
            requires
                0 <= r2,
                r2 + 1 <= r1,
                n < (r2 + 1) * (r2 + 1);
        assert(false);
    }
}

} // verus!
