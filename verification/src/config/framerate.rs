//! Exact rational framerate values.
//!
//! A framerate is an exact ratio of two integers, kept in lowest terms.
//! Frame timing must never drift through floating-point rounding, so no
//! operation here ever leaves the integers.

use vstd::prelude::*;
use vstd::arithmetic::div_mod::{lemma_fundamental_div_mod, lemma_fundamental_div_mod_converse};

verus! {

/// `d` divides `n` evenly.
pub open spec fn divides(d: nat, n: nat) -> bool {
    exists|k: nat| n == #[trigger] (k * d)
}

/// The greatest common divisor of `a` and `b`, with `gcd(a, 0) == a`.
pub open spec fn gcd(a: nat, b: nat) -> nat
    decreases b,
{
    if b == 0 {
        a
    } else {
        gcd(b, a % b)
    }
}

/// The greatest common divisor divides both of its arguments.
pub proof fn lemma_gcd_divides(a: nat, b: nat)
    ensures
        divides(gcd(a, b), a),
        divides(gcd(a, b), b),
    decreases b,
{
    if b == 0 {
        assert(a == 1 * a);
        assert(0nat == 0 * a);
    } else {
        lemma_gcd_divides(b, (a % b) as nat);
        let g = gcd(b, (a % b) as nat);
        let k1 = choose|k: nat| b == #[trigger] (k * g);
        let k2 = choose|k: nat| (a % b) as nat == #[trigger] (k * g);
        lemma_fundamental_div_mod(a as int, b as int);
        let q = a as int / b as int;
        assert(a == ((a / b) * k1 + k2) * g) by (nonlinear_arith)
            requires
                a == b * (a as int / b as int) + a % b,
                q == a as int / b as int,
                q == a / b,
                b == k1 * g,
                (a % b) as nat == k2 * g,
        ;
        assert(divides(g, a));
    }
}

/// Any common divisor of `a` and `b` divides their greatest common divisor.
pub proof fn lemma_gcd_greatest(a: nat, b: nat, d: nat)
    requires
        divides(d, a),
        divides(d, b),
    ensures
        divides(d, gcd(a, b)),
    decreases b,
{
    if b != 0 {
        let k1 = choose|k: nat| a == #[trigger] (k * d);
        let k2 = choose|k: nat| b == #[trigger] (k * d);
        if d == 0 {
            assert(b == k2 * 0);
            assert(false);
        }
        lemma_fundamental_div_mod(a as int, b as int);
        let m: int = k1 - k2 * (a as int / b as int);
        assert((a % b) as int == m * d) by (nonlinear_arith)
            requires
                a == b * (a as int / b as int) + a % b,
                a == k1 * d,
                b == k2 * d,
                m == k1 - k2 * (a as int / b as int),
        ;
        assert(m >= 0) by (nonlinear_arith)
            requires
                m * d == (a % b) as int,
                (a % b) as int >= 0,
                d > 0,
        ;
        assert((a % b) as nat == (m as nat) * d);
        lemma_gcd_greatest(b, (a % b) as nat, d);
    }
}

/// The greatest common divisor is zero exactly when both arguments are.
pub proof fn lemma_gcd_zero(a: nat, b: nat)
    ensures
        gcd(a, b) == 0 <==> (a == 0 && b == 0),
    decreases b,
{
    if b != 0 {
        lemma_gcd_zero(b, (a % b) as nat);
    }
}

/// A divisor of a positive number is positive and no larger than it.
pub proof fn lemma_divides_le(d: nat, n: nat)
    requires
        divides(d, n),
        n > 0,
    ensures
        0 < d <= n,
{
    let k = choose|k: nat| n == #[trigger] (k * d);
    assert(0 < d <= n) by (nonlinear_arith)
        requires
            n == k * d,
            n > 0,
    ;
}

/// The greatest common divisor does not depend on argument order.
pub proof fn lemma_gcd_comm(a: nat, b: nat)
    ensures
        gcd(a, b) == gcd(b, a),
{
    if a == 0 && b == 0 {
    } else if a == 0 {
        assert(gcd(b, a) == b);
        assert(gcd(a, b) == gcd(b, a % b));
        assert(a % b == 0);
    } else if b == 0 {
        assert(gcd(b, a) == gcd(a, b % a));
        assert(b % a == 0);
    } else {
        let g1 = gcd(a, b);
        let g2 = gcd(b, a);
        lemma_gcd_zero(a, b);
        lemma_gcd_zero(b, a);
        lemma_gcd_divides(a, b);
        lemma_gcd_divides(b, a);
        lemma_gcd_greatest(b, a, g1);
        lemma_gcd_greatest(a, b, g2);
        lemma_divides_le(g1, g2);
        lemma_divides_le(g2, g1);
    }
}

/// Dividing two numbers by their greatest common divisor leaves them
/// coprime.
pub proof fn lemma_gcd_reduce(a: nat, b: nat)
    requires
        !(a == 0 && b == 0),
    ensures
        gcd(a, b) > 0,
        a % gcd(a, b) == 0,
        b % gcd(a, b) == 0,
        (a / gcd(a, b)) * gcd(a, b) == a,
        (b / gcd(a, b)) * gcd(a, b) == b,
        gcd((a / gcd(a, b)) as nat, (b / gcd(a, b)) as nat) == 1,
{
    let g = gcd(a, b);
    lemma_gcd_zero(a, b);
    lemma_gcd_divides(a, b);
    let ka = choose|k: nat| a == #[trigger] (k * g);
    let kb = choose|k: nat| b == #[trigger] (k * g);
    lemma_fundamental_div_mod_converse(a as int, g as int, ka as int, 0);
    lemma_fundamental_div_mod_converse(b as int, g as int, kb as int, 0);
    assert(a / g == ka && a % g == 0);
    assert(b / g == kb && b % g == 0);
    let d = gcd(ka, kb);
    if ka == 0 && kb == 0 {
        assert(false);
    }
    lemma_gcd_zero(ka, kb);
    lemma_gcd_divides(ka, kb);
    let ma = choose|k: nat| ka == #[trigger] (k * d);
    let mb = choose|k: nat| kb == #[trigger] (k * d);
    assert(a == ma * (d * g)) by (nonlinear_arith)
        requires
            a == ka * g,
            ka == ma * d,
    ;
    assert(b == mb * (d * g)) by (nonlinear_arith)
        requires
            b == kb * g,
            kb == mb * d,
    ;
    assert(divides((d * g) as nat, a));
    assert(divides((d * g) as nat, b));
    lemma_gcd_greatest(a, b, (d * g) as nat);
    lemma_divides_le((d * g) as nat, g);
    assert(d == 1) by (nonlinear_arith)
        requires
            d * g <= g,
            g > 0,
            d > 0,
    ;
}

/// The unique lowest-terms form of the ratio `n / d`.
///
/// `0 / 0` is kept as it is; any other ratio is divided through by the
/// greatest common divisor, so `n / 0` with `n > 0` becomes `1 / 0`.
pub open spec fn reduce(n: nat, d: nat) -> (nat, nat) {
    if n == 0 && d == 0 {
        (0, 0)
    } else {
        (n / gcd(n, d), d / gcd(n, d))
    }
}

/// Computes the greatest common divisor by Euclid's algorithm.
fn gcd_u64(a: u64, b: u64) -> (g: u64)
    ensures
        g as nat == gcd(a as nat, b as nat),
{
    let mut x = a;
    let mut y = b;
    while y != 0
        invariant
            gcd(x as nat, y as nat) == gcd(a as nat, b as nat),
        decreases y,
    {
        let r = x % y;
        assert(gcd(x as nat, y as nat) == gcd(y as nat, (x % y) as nat));
        x = y;
        y = r;
    }
    x
}

/// An exact rational framerate value: a ratio of two integers in lowest
/// terms.
///
/// The kernel reports frame timing as integer fractions, and a zero can
/// appear on either side of one. A zero denominator is therefore kept
/// representable, but normalized: `1/0` (the inverse of a zero interval)
/// and `0/0` (undefined) are the only well-formed values with
/// denominator zero.
#[derive(Clone, Copy, Debug, PartialEq, Eq, Structural)]
pub struct Framerate {
    num: u64,
    den: u64,
}

impl Framerate {
    /// Lowest terms, with `1/0` and `0/0` the only zero-denominator values.
    #[verifier::type_invariant]
    pub closed spec fn wf(self) -> bool {
        gcd(self.num as nat, self.den as nat) == 1 || (self.num == 0 && self.den == 0)
    }

    /// The numerator of the lowest-terms ratio.
    pub closed spec fn spec_num(self) -> u64 {
        self.num
    }

    /// The denominator of the lowest-terms ratio.
    pub closed spec fn spec_den(self) -> u64 {
        self.den
    }

    /// The value is `0 / 0`: the undefined ratio.
    pub open spec fn spec_is_nan(self) -> bool {
        self.spec_num() == 0 && self.spec_den() == 0
    }

    /// The value is `1 / 0`: the inverse of a zero interval.
    pub open spec fn spec_is_infinite(self) -> bool {
        self.spec_num() > 0 && self.spec_den() == 0
    }

    /// Creates the framerate `numerator / denominator`, reduced to lowest
    /// terms.
    pub fn new(numerator: u64, denominator: u64) -> (r: Self)
        ensures
            (r.spec_num() as nat, r.spec_den() as nat) == reduce(
                numerator as nat,
                denominator as nat,
            ),
            denominator > 0 ==> r.spec_den() > 0,
            r.spec_num() * denominator == numerator * r.spec_den(),
    {
        if numerator == 0 && denominator == 0 {
            let r = Framerate { num: 0, den: 0 };
            assert(r.spec_num() * denominator == numerator * r.spec_den()) by (nonlinear_arith)
                requires
                    r.spec_num() == 0,
                    numerator == 0,
            ;
            r
        } else {
            proof {
                lemma_gcd_reduce(numerator as nat, denominator as nat);
            }
            let g = gcd_u64(numerator, denominator);
            let r = Framerate { num: numerator / g, den: denominator / g };
            proof {
                let gn = gcd(numerator as nat, denominator as nat);
                lemma_gcd_comm(r.num as nat, r.den as nat);
                assert(r.num * denominator == numerator * r.den) by (nonlinear_arith)
                    requires
                        (r.num as nat) * (gn as nat) == numerator as nat,
                        (r.den as nat) * (gn as nat) == denominator as nat,
                ;
                assert(denominator > 0 ==> r.den > 0) by (nonlinear_arith)
                    requires
                        (r.den as nat) * (gn as nat) == denominator as nat,
                ;
            }
            r
        }
    }

    /// The numerator of the lowest-terms ratio.
    #[inline]
    pub fn numerator(&self) -> (r: u64)
        ensures
            r == self.spec_num(),
    {
        self.num
    }

    /// The denominator of the lowest-terms ratio.
    #[inline]
    pub fn denominator(&self) -> (r: u64)
        ensures
            r == self.spec_den(),
    {
        self.den
    }

    /// The value is `0 / 0`.
    #[inline]
    pub fn is_nan(&self) -> (r: bool)
        ensures
            r == self.spec_is_nan(),
    {
        self.num == 0 && self.den == 0
    }

    /// The value is `1 / 0`.
    #[inline]
    pub fn is_infinite(&self) -> (r: bool)
        ensures
            r == self.spec_is_infinite(),
    {
        self.num > 0 && self.den == 0
    }

    /// The multiplicative inverse: `a / b` becomes `b / a`.
    ///
    /// This is how a frame interval (seconds per frame) turns into a frame
    /// rate (frames per second), and the other way around.
    pub fn recip(self) -> (r: Self)
        ensures
            r.spec_num() == self.spec_den(),
            r.spec_den() == self.spec_num(),
    {
        proof {
            use_type_invariant(self);
            lemma_gcd_comm(self.num as nat, self.den as nat);
        }
        Framerate { num: self.den, den: self.num }
    }
}

} // verus!
