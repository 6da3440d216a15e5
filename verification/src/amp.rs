//! Exact complex amplitudes.
//!
//! Every amplitude the simulator stores or multiplies lies in the ring
//! generated over the dyadic rationals by `w = e^{i*pi/4}`, the primitive
//! eighth root of unity. A value is kept as four integer coefficients and a
//! scale: `(a*w^3 + b*w^2 + c*w + d) / 2^m`. Since `w^2 = i` and
//! `w - w^3 = sqrt(2)`, this form represents every entry of the standard
//! gate table exactly: `1`, `-1`, `i`, `-i`, `w` (the 45-degree phase) and
//! `1/sqrt(2) = (w - w^3)/2`. Multiplication reduces powers of `w` by
//! `w^4 == -1`; addition rescales to the larger denominator.
//!
//! The Born-rule probability of observing |0> is the squared magnitude of
//! the amplitude on |0>. For a value with numerator coefficients
//! `(a, b, c, d)` it equals `(s + sqrt(2)*t) / 4^m` with
//! `s = a^2 + b^2 + c^2 + d^2` and `t = a*b + b*c + c*d - a*d`, so a
//! comparison of a dyadic sample against the probability reduces to
//! comparing an integer with `sqrt(2)` times an integer, which is decided
//! exactly by comparing squares (no integer other than zero has a square
//! equal to twice another square).

use vstd::prelude::*;
use vstd::arithmetic::power2::*;
use vstd::arithmetic::mul::*;

verus! {

/// Coefficients of amplitudes handed to the arithmetic are kept within this
/// bound so that one matrix application cannot overflow 64-bit words. This
/// is a machine limit, not part of the mathematical model.
pub const COEFF_LIMIT: i64 = 16384;

/// Bound on the scale exponent of amplitudes handed to the arithmetic, for
/// the same reason as [`COEFF_LIMIT`].
pub const SCALE_LIMIT: u32 = 14;

/// Bound on the coefficients of a product of two bounded amplitudes.
pub const PROD_COEFF_LIMIT: i64 = 0x4000_0000;

/// Bound on the scale exponent of a product of two bounded amplitudes.
pub const PROD_SCALE_LIMIT: u32 = 28;

/// One exact complex amplitude: `(a*w^3 + b*w^2 + c*w + d) / 2^m` with
/// `w = e^{i*pi/4}`.
#[derive(Clone, Copy, Debug, PartialEq, Eq, Structural)]
pub struct Amp {
    pub a: i64,
    pub b: i64,
    pub c: i64,
    pub d: i64,
    pub m: u32,
}

/// The mathematical content of an [`Amp`]: the same coefficients as
/// unbounded integers.
pub ghost struct AmpS {
    pub a: int,
    pub b: int,
    pub c: int,
    pub d: int,
    pub m: nat,
}

impl View for Amp {
    type V = AmpS;

    open spec fn view(&self) -> AmpS {
        AmpS {
            a: self.a as int,
            b: self.b as int,
            c: self.c as int,
            d: self.d as int,
            m: self.m as nat,
        }
    }
}

/// The amplitude `0`.
pub open spec fn amp_zero_s() -> AmpS {
    AmpS { a: 0, b: 0, c: 0, d: 0, m: 0 }
}

/// The amplitude `1`.
pub open spec fn amp_one_s() -> AmpS {
    AmpS { a: 0, b: 0, c: 0, d: 1, m: 0 }
}

/// The represented value is exactly `0`, whatever the scale.
pub open spec fn amp_is_zero(x: AmpS) -> bool {
    x.a == 0 && x.b == 0 && x.c == 0 && x.d == 0
}

/// The represented value is exactly `1`: the numerator is the plain integer
/// `2^m`, cancelling the denominator.
pub open spec fn amp_is_one(x: AmpS) -> bool {
    x.a == 0 && x.b == 0 && x.c == 0 && x.d == pow2(x.m)
}

/// All coefficients lie in `[-cb, cb]` and the scale is at most `mb`.
pub open spec fn amp_bounded(x: AmpS, cb: int, mb: nat) -> bool {
    &&& -cb <= x.a <= cb
    &&& -cb <= x.b <= cb
    &&& -cb <= x.c <= cb
    &&& -cb <= x.d <= cb
    &&& x.m <= mb
}

/// The bound under which the executable arithmetic accepts an amplitude.
pub open spec fn amp_wf(x: AmpS) -> bool {
    amp_bounded(x, COEFF_LIMIT as int, SCALE_LIMIT as nat)
}

/// The same value rescaled to denominator `2^m` (meaningful for `m >= x.m`).
pub open spec fn amp_lift(x: AmpS, m: nat) -> AmpS {
    let f = pow2((m - x.m) as nat) as int;
    AmpS { a: x.a * f, b: x.b * f, c: x.c * f, d: x.d * f, m: m }
}

/// Ring product. Powers of `w` reduce by `w^4 == -1`; denominators multiply.
pub open spec fn amp_mul(x: AmpS, y: AmpS) -> AmpS {
    AmpS {
        a: x.a * y.d + x.b * y.c + x.c * y.b + x.d * y.a,
        b: -(x.a * y.a) + x.b * y.d + x.c * y.c + x.d * y.b,
        c: -(x.a * y.b) - x.b * y.a + x.c * y.d + x.d * y.c,
        d: -(x.a * y.c) - x.b * y.b - x.c * y.a + x.d * y.d,
        m: x.m + y.m,
    }
}

/// Ring sum: both operands are rescaled to the larger denominator and the
/// coefficients are added.
pub open spec fn amp_add(x: AmpS, y: AmpS) -> AmpS {
    let m = if x.m >= y.m { x.m } else { y.m };
    let xl = amp_lift(x, m);
    let yl = amp_lift(y, m);
    AmpS { a: xl.a + yl.a, b: xl.b + yl.b, c: xl.c + yl.c, d: xl.d + yl.d, m: m }
}

/// The two representations denote the same complex number: since
/// `1, w, w^2, w^3` are linearly independent over the rationals, the values
/// agree exactly when the cross-scaled coefficients agree.
pub open spec fn amp_val_eq(x: AmpS, y: AmpS) -> bool {
    &&& x.a * (pow2(y.m) as int) == y.a * (pow2(x.m) as int)
    &&& x.b * (pow2(y.m) as int) == y.b * (pow2(x.m) as int)
    &&& x.c * (pow2(y.m) as int) == y.c * (pow2(x.m) as int)
    &&& x.d * (pow2(y.m) as int) == y.d * (pow2(x.m) as int)
}

/// `s` in the squared magnitude `(s + sqrt(2)*t) / 4^m` of an amplitude.
pub open spec fn born_num_s(x: AmpS) -> int {
    x.a * x.a + x.b * x.b + x.c * x.c + x.d * x.d
}

/// `t` in the squared magnitude `(s + sqrt(2)*t) / 4^m` of an amplitude.
pub open spec fn born_num_t(x: AmpS) -> int {
    x.a * x.b + x.b * x.c + x.c * x.d - x.a * x.d
}

/// `l < sqrt(2) * r`, decided over the integers by comparing signs and
/// squares. The two sides can never be equal unless both are zero, because
/// `sqrt(2)` is irrational, so squaring decides the strict comparison.
pub open spec fn lt_times_sqrt2(l: int, r: int) -> bool {
    if r >= 0 {
        l < 0 || l * l < 2 * (r * r)
    } else {
        l < 0 && l * l > 2 * (r * r)
    }
}

/// Scaled left side of the Born comparison `sample / 2^32 < |x|^2`:
/// both sides multiplied by `2^32 * 4^m` and the `sqrt(2)` part moved right.
pub open spec fn collapse_scaled_lhs(x: AmpS, sample: u32) -> int {
    (sample as int) * (pow2(2 * x.m) as int) - (pow2(32) as int) * born_num_s(x)
}

/// Scaled right side of the Born comparison, to be multiplied by `sqrt(2)`.
pub open spec fn collapse_scaled_rhs(x: AmpS) -> int {
    (pow2(32) as int) * born_num_t(x)
}

/// The Born rule decision for a measurement: the uniform dyadic sample
/// `sample / 2^32` is strictly below the squared magnitude of the amplitude
/// on |0>, so the qubit collapses to |0>.
pub open spec fn collapses_to_zero(x: AmpS, sample: u32) -> bool {
    lt_times_sqrt2(collapse_scaled_lhs(x, sample), collapse_scaled_rhs(x))
}

/// `|x| <= bx` and `|y| <= by` bound the product by `bx * by`.
pub proof fn lemma_abs_mul_le(x: int, y: int, bx: int, by: int) by (nonlinear_arith)
    requires
        -bx <= x <= bx,
        -by <= y <= by,
    ensures
        -(bx * by) <= x * y <= bx * by,
{
}

/// `2^e` is monotone in `e`.
pub proof fn lemma_pow2_le(e1: nat, e2: nat)
    requires
        e1 <= e2,
    ensures
        pow2(e1) <= pow2(e2),
{
    if e1 < e2 {
        lemma_pow2_strictly_increases(e1, e2);
    }
}

/// Rescaling does not change the represented value.
pub proof fn lemma_lift_val_eq(x: AmpS, m: nat)
    requires
        x.m <= m,
    ensures
        amp_val_eq(amp_lift(x, m), x),
{
    let d = (m - x.m) as nat;
    lemma_pow2_adds(d, x.m);
    let f = pow2(d) as int;
    let p = pow2(x.m) as int;
    lemma_mul_is_associative(x.a, f, p);
    lemma_mul_is_associative(x.b, f, p);
    lemma_mul_is_associative(x.c, f, p);
    lemma_mul_is_associative(x.d, f, p);
}

/// An amplitude of value zero never wins the Born comparison: the qubit
/// always collapses to |1>.
pub proof fn lemma_zero_never_collapses_to_zero(x: AmpS, sample: u32)
    requires
        amp_is_zero(x),
    ensures
        !collapses_to_zero(x, sample),
{
    let p = pow2(2 * x.m) as int;
    lemma_pow2_pos(2 * x.m);
    assert(born_num_s(x) == 0) by (nonlinear_arith)
        requires
            x.a == 0 && x.b == 0 && x.c == 0 && x.d == 0,
    ;
    assert(born_num_t(x) == 0) by (nonlinear_arith)
        requires
            x.a == 0 && x.b == 0 && x.c == 0 && x.d == 0,
    ;
    let l = collapse_scaled_lhs(x, sample);
    assert(l == (sample as int) * p);
    lemma_mul_nonnegative(sample as int, p);
    lemma_mul_nonnegative(l, l);
}

/// An amplitude of value one always wins the Born comparison: the qubit
/// always collapses to |0>.
pub proof fn lemma_one_always_collapses_to_zero(x: AmpS, sample: u32)
    requires
        amp_is_one(x),
    ensures
        collapses_to_zero(x, sample),
{
    let p = pow2(2 * x.m) as int;
    lemma_pow2_pos(2 * x.m);
    lemma_pow2_adds(x.m, x.m);
    lemma2_to64();
    let q = pow2(32) as int;
    assert(born_num_s(x) == (pow2(x.m) as int) * (pow2(x.m) as int)) by (nonlinear_arith)
        requires
            x.a == 0 && x.b == 0 && x.c == 0 && x.d == pow2(x.m),
    ;
    assert(born_num_t(x) == 0) by (nonlinear_arith)
        requires
            x.a == 0 && x.b == 0 && x.c == 0,
    ;
    let l = collapse_scaled_lhs(x, sample);
    assert(l == (sample as int) * p - q * p);
    assert(l < 0) by (nonlinear_arith)
        requires
            l == (sample as int) * p - q * p,
            0 < p,
            (sample as int) < q,
    ;
}

/// Computes `2^e`.
pub fn pow2_u64(e: u32) -> (r: u64)
    requires
        e < 63,
    ensures
        r == pow2(e as nat),
{
    let mut r: u64 = 1;
    let mut i: u32 = 0;
    proof {
        lemma2_to64();
    }
    while i < e
        invariant
            i <= e,
            e < 63,
            r == pow2(i as nat),
        decreases e - i,
    {
        proof {
            lemma_pow2_strictly_increases(i as nat, 62);
            lemma2_to64();
            lemma2_to64_rest();
            lemma_pow2_unfold((i + 1) as nat);
        }
        r = r * 2;
        i = i + 1;
    }
    r
}

impl Amp {
    /// The amplitude `0`.
    pub fn zero() -> (r: Amp)
        ensures
            r@ == amp_zero_s(),
    {
        Amp { a: 0, b: 0, c: 0, d: 0, m: 0 }
    }

    /// The amplitude `1`.
    pub fn one() -> (r: Amp)
        ensures
            r@ == amp_one_s(),
    {
        Amp { a: 0, b: 0, c: 0, d: 1, m: 0 }
    }

    /// Builds `(a*w^3 + b*w^2 + c*w + d) / 2^m` from its coefficients.
    pub fn new(a: i64, b: i64, c: i64, d: i64, m: u32) -> (r: Amp)
        ensures
            r@ == (AmpS { a: a as int, b: b as int, c: c as int, d: d as int, m: m as nat }),
    {
        Amp { a: a, b: b, c: c, d: d, m: m }
    }

    /// Whether the represented value is exactly `0`.
    pub fn is_zero(&self) -> (r: bool)
        ensures
            r == amp_is_zero(self@),
    {
        self.a == 0 && self.b == 0 && self.c == 0 && self.d == 0
    }

    /// Whether the represented value is exactly `1`.
    pub fn is_one(&self) -> (r: bool)
        ensures
            r == amp_is_one(self@),
    {
        if self.m >= 63 {
            proof {
                lemma2_to64();
                lemma2_to64_rest();
                lemma_pow2_le(63, self.m as nat);
                assert(pow2(63) == 2 * pow2(62)) by {
                    lemma_pow2_unfold(63);
                }
            }
            false
        } else {
            let p = pow2_u64(self.m);
            proof {
                lemma_pow2_le(self.m as nat, 62);
                lemma2_to64_rest();
            }
            self.a == 0 && self.b == 0 && self.c == 0 && self.d == (p as i64)
        }
    }

    /// Ring product of two bounded amplitudes.
    pub fn times(&self, other: &Amp) -> (r: Amp)
        requires
            amp_wf(self@),
            amp_wf(other@),
        ensures
            r@ == amp_mul(self@, other@),
            amp_bounded(r@, PROD_COEFF_LIMIT as int, PROD_SCALE_LIMIT as nat),
    {
        proof {
            let cb = COEFF_LIMIT as int;
            lemma_abs_mul_le(self@.a, other@.a, cb, cb);
            lemma_abs_mul_le(self@.a, other@.b, cb, cb);
            lemma_abs_mul_le(self@.a, other@.c, cb, cb);
            lemma_abs_mul_le(self@.a, other@.d, cb, cb);
            lemma_abs_mul_le(self@.b, other@.a, cb, cb);
            lemma_abs_mul_le(self@.b, other@.b, cb, cb);
            lemma_abs_mul_le(self@.b, other@.c, cb, cb);
            lemma_abs_mul_le(self@.b, other@.d, cb, cb);
            lemma_abs_mul_le(self@.c, other@.a, cb, cb);
            lemma_abs_mul_le(self@.c, other@.b, cb, cb);
            lemma_abs_mul_le(self@.c, other@.c, cb, cb);
            lemma_abs_mul_le(self@.c, other@.d, cb, cb);
            lemma_abs_mul_le(self@.d, other@.a, cb, cb);
            lemma_abs_mul_le(self@.d, other@.b, cb, cb);
            lemma_abs_mul_le(self@.d, other@.c, cb, cb);
            lemma_abs_mul_le(self@.d, other@.d, cb, cb);
        }
        let ra: i64 = self.a * other.d + self.b * other.c + self.c * other.b + self.d * other.a;
        let rb: i64 = -(self.a * other.a) + self.b * other.d + self.c * other.c + self.d * other.b;
        let rc: i64 = -(self.a * other.b) - self.b * other.a + self.c * other.d + self.d * other.c;
        let rd: i64 = -(self.a * other.c) - self.b * other.b - self.c * other.a + self.d * other.d;
        Amp { a: ra, b: rb, c: rc, d: rd, m: self.m + other.m }
    }

    /// Ring sum of two product-bounded amplitudes.
    pub fn plus(&self, other: &Amp) -> (r: Amp)
        requires
            amp_bounded(self@, PROD_COEFF_LIMIT as int, PROD_SCALE_LIMIT as nat),
            amp_bounded(other@, PROD_COEFF_LIMIT as int, PROD_SCALE_LIMIT as nat),
        ensures
            r@ == amp_add(self@, other@),
    {
        let m: u32 = if self.m >= other.m { self.m } else { other.m };
        proof {
            lemma_pow2_le((m - self.m) as nat, PROD_SCALE_LIMIT as nat);
            lemma_pow2_le((m - other.m) as nat, PROD_SCALE_LIMIT as nat);
            lemma2_to64();
        }
        let fx: i64 = pow2_u64(m - self.m) as i64;
        let fy: i64 = pow2_u64(m - other.m) as i64;
        proof {
            let pb = PROD_COEFF_LIMIT as int;
            let fb = pow2(PROD_SCALE_LIMIT as nat) as int;
            lemma_abs_mul_le(self@.a, fx as int, pb, fb);
            lemma_abs_mul_le(self@.b, fx as int, pb, fb);
            lemma_abs_mul_le(self@.c, fx as int, pb, fb);
            lemma_abs_mul_le(self@.d, fx as int, pb, fb);
            lemma_abs_mul_le(other@.a, fy as int, pb, fb);
            lemma_abs_mul_le(other@.b, fy as int, pb, fb);
            lemma_abs_mul_le(other@.c, fy as int, pb, fb);
            lemma_abs_mul_le(other@.d, fy as int, pb, fb);
        }
        Amp {
            a: self.a * fx + other.a * fy,
            b: self.b * fx + other.b * fy,
            c: self.c * fx + other.c * fy,
            d: self.d * fx + other.d * fy,
            m: m,
        }
    }
}

/// Decides the Born comparison `sample / 2^32 < |amp|^2` exactly, by the
/// sign-and-squares test of [`lt_times_sqrt2`].
pub fn collapse_picks_zero(amp: &Amp, sample: u32) -> (r: bool)
    requires
        amp_wf(amp@),
    ensures
        r == collapses_to_zero(amp@, sample),
{
    let a: i128 = amp.a as i128;
    let b: i128 = amp.b as i128;
    let c: i128 = amp.c as i128;
    let d: i128 = amp.d as i128;
    proof {
        let cb = COEFF_LIMIT as int;
        lemma_abs_mul_le(a as int, a as int, cb, cb);
        lemma_abs_mul_le(b as int, b as int, cb, cb);
        lemma_abs_mul_le(c as int, c as int, cb, cb);
        lemma_abs_mul_le(d as int, d as int, cb, cb);
        lemma_abs_mul_le(a as int, b as int, cb, cb);
        lemma_abs_mul_le(b as int, c as int, cb, cb);
        lemma_abs_mul_le(c as int, d as int, cb, cb);
        lemma_abs_mul_le(a as int, d as int, cb, cb);
    }
    let s: i128 = a * a + b * b + c * c + d * d;
    let t: i128 = a * b + b * c + c * d - a * d;
    proof {
        lemma_pow2_le((2 * amp.m) as nat, 28);
        lemma2_to64();
    }
    let p4: i128 = pow2_u64(2 * amp.m) as i128;
    let p32: i128 = pow2_u64(32) as i128;
    proof {
        lemma_abs_mul_le(sample as int, p4 as int, 0x1_0000_0000, 0x1000_0000);
        lemma_abs_mul_le(p32 as int, s as int, 0x1_0000_0000, 0x4000_0000);
        lemma_abs_mul_le(p32 as int, t as int, 0x1_0000_0000, 0x4000_0000);
    }
    let l: i128 = (sample as i128) * p4 - p32 * s;
    let r2: i128 = p32 * t;
    proof {
        let lb = 0x8000_0000_0000_0000int;
        let rb = 0x4000_0000_0000_0000int;
        lemma_abs_mul_le(l as int, l as int, lb, lb);
        lemma_abs_mul_le(r2 as int, r2 as int, rb, rb);
    }
    if r2 >= 0 {
        l < 0 || l * l < 2 * (r2 * r2)
    } else {
        l < 0 && l * l > 2 * (r2 * r2)
    }
}

} // verus!
