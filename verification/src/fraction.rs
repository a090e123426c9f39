use vstd::prelude::*;

use num_rational::Rational32;

verus! {

/// `numer / denom` in lowest terms with a positive denominator, as
/// `Rational32::new` gives it.
pub uninterp spec fn spec_reduced(numer: i32, denom: i32) -> (i32, i32);

/// Whether `a` and `b` have no common divisor above 1.
pub open spec fn coprime(a: int, b: int) -> bool {
    forall|k: int| #![trigger a % k, b % k] k > 1 ==> !(a % k == 0 && b % k == 0)
}

/// Whether `Rational32::new(numer, denom)` brings the fraction to lowest
/// terms without panicking or overflowing: the denominator is not zero, and
/// where it is negative the sign change must not meet `i32::MIN`, which it
/// does only where one part is `i32::MIN`, the parts differ, and their
/// greatest common divisor is 1 (one part is odd).
pub open spec fn reducible(numer: i32, denom: i32) -> bool {
    &&& denom != 0
    &&& (denom > 0 || numer == denom || (numer != i32::MIN && denom != i32::MIN) || (numer % 2 == 0 && denom % 2 == 0))
}

/// Whether `x` is even.
fn is_even(x: i32) -> (r: bool)
    ensures
        r == (x % 2 == 0),
{
    let u: i64 = if x < 0 { -(x as i64) } else { x as i64 };
    u % 2 == 0
}

/// Whether `Rational32::new` can reduce `numer / denom`; see `reducible`.
pub fn can_reduce(numer: i32, denom: i32) -> (r: bool)
    ensures
        r == reducible(numer, denom),
{
    denom != 0 && (denom > 0 || numer == denom || (numer != i32::MIN && denom != i32::MIN) || (is_even(numer) && is_even(denom)))
}

/// Calls `Rational32::new`, which divides both parts by their greatest
/// common divisor and makes the denominator positive; it panics for a zero
/// denominator, and its sign change overflows where `reducible` does not
/// hold, so those inputs are left out.
#[verifier::external_body]
fn reduced(numer: i32, denom: i32) -> (r: (i32, i32))
    requires
        reducible(numer, denom),
    ensures
        r == spec_reduced(numer, denom),
        r.1 > 0,
        r.0 * denom == numer * r.1,
        coprime(r.0 as int, r.1 as int),
{
    let f = Rational32::new(numer, denom);
    (*f.numer(), *f.denom())
}

/// `p / d` rounded to the nearest integer, halves away from zero.
pub open spec fn round_div(p: int, d: int) -> int {
    if p >= 0 {
        (2 * p + d) / (2 * d)
    } else {
        -((-2 * p + d) / (2 * d))
    }
}

/// Calls `(Rational32::from_integer(x) * Rational32::new_raw(numer, denom))
/// .round().to_integer()`: the product rounded to the nearest integer, with
/// halves rounded away from zero. The multiplication works on `i32`, so the
/// product must fit.
#[verifier::external_body]
fn mul_round(x: i32, numer: i32, denom: i32) -> (r: i32)
    requires
        denom > 0,
        coprime(numer as int, denom as int),
        -i32::MAX <= x * numer <= i32::MAX,
    ensures
        r == round_div(x * numer, denom as int),
{
    (Rational32::from_integer(x) * Rational32::new_raw(numer, denom)).round().to_integer()
}

/// A fraction in lowest terms with a positive denominator.
#[derive(Debug, Clone, Copy, PartialEq, Eq, Structural, Hash)]
pub struct Fraction {
    numer: i32,
    denom: i32,
}

impl Fraction {
    #[verifier::type_invariant]
    spec fn lowest_terms(self) -> bool {
        self.denom > 0 && coprime(self.numer as int, self.denom as int)
    }

    pub closed spec fn spec_numer(self) -> i32 {
        self.numer
    }

    pub closed spec fn spec_denom(self) -> i32 {
        self.denom
    }

    /// The fraction `numer / denom` in lowest terms.
    pub closed spec fn spec_new(numer: i32, denom: i32) -> Fraction {
        Fraction { numer: spec_reduced(numer, denom).0, denom: spec_reduced(numer, denom).1 }
    }

    /// The fraction `numer / denom`, reduced.
    pub fn new(numer: i32, denom: i32) -> (r: Fraction)
        requires
            reducible(numer, denom),
        ensures
            r == Self::spec_new(numer, denom),
            r.spec_denom() > 0,
            r.spec_numer() * denom == numer * r.spec_denom(),
    {
        let (n, d) = reduced(numer, denom);
        Fraction { numer: n, denom: d }
    }

    /// The whole number `n`.
    pub closed spec fn spec_from_integer(n: i32) -> Fraction {
        Fraction { numer: n, denom: 1 }
    }

    /// The whole number `n`.
    pub fn from_integer(n: i32) -> (r: Fraction)
        ensures
            r == Self::spec_from_integer(n),
            r.spec_numer() == n,
            r.spec_denom() == 1,
    {
        assert forall|k: int| #![trigger (n as int) % k, 1int % k] k > 1 implies !((n as int) % k == 0 && 1int % k == 0) by {
            assert(1int % k == 1) by (nonlinear_arith) requires k > 1;
        }
        assert(coprime(n as int, 1int));
        Fraction { numer: n, denom: 1 }
    }

    pub fn numer(&self) -> (r: i32)
        ensures
            r == self.spec_numer(),
    {
        self.numer
    }

    pub fn denom(&self) -> (r: i32)
        ensures
            r == self.spec_denom(),
            r > 0,
    {
        proof { use_type_invariant(self); }
        self.denom
    }

    /// `x` times this fraction, rounded to the nearest integer, halves away
    /// from zero.
    pub fn scale_round(&self, x: i32) -> (r: i32)
        requires
            -i32::MAX <= x * self.spec_numer() <= i32::MAX,
        ensures
            r == round_div(x * self.spec_numer(), self.spec_denom() as int),
    {
        proof { use_type_invariant(self); }
        mul_round(x, self.numer, self.denom)
    }
}

} // verus!
