use vstd::prelude::*;

verus! {

/// An exact fraction `num / den`, standing for a real quantity.
///
/// Two fractions are equal when numerator and denominator agree; no
/// reduction to lowest terms is made.
#[derive(Debug, Clone, Copy, PartialEq, Eq, Structural)]
pub struct Ratio {
    pub num: i64,
    pub den: i64,
}

impl Ratio {
    /// A fraction is well formed when its denominator is positive.
    pub open spec fn wf(&self) -> bool {
        self.den > 0
    }

    /// The real number that the fraction stands for.
    pub open spec fn value(&self) -> real
        recommends
            self.wf(),
    {
        (self.num as real) / (self.den as real)
    }

    /// Well formed and greater than zero.
    pub open spec fn positive(&self) -> bool {
        self.den > 0 && self.num > 0
    }

    /// The fraction `k * self`, on the same denominator.
    pub open spec fn times(&self, k: int) -> Ratio {
        Ratio { num: (k * self.num) as i64, den: self.den }
    }

    /// The fraction `-self`, on the same denominator.
    pub open spec fn opposite(&self) -> Ratio {
        Ratio { num: (-self.num) as i64, den: self.den }
    }

    /// The two fractions stand for the same number, by cross-multiplication.
    pub open spec fn same_value(&self, other: Ratio) -> bool {
        self.num * other.den == other.num * self.den
    }

    /// The whole number `n`.
    pub fn whole(n: i64) -> (r: Ratio)
        ensures
            r == (Ratio { num: n, den: 1 }),
    {
        Ratio { num: n, den: 1 }
    }

    /// Whether the fraction is well formed and greater than zero.
    pub fn is_positive(&self) -> (b: bool)
        ensures
            b == self.positive(),
    {
        self.den > 0 && self.num > 0
    }

    /// Multiplies by a whole number.
    pub fn scaled(&self, k: i32) -> (r: Ratio)
        requires
            i64::MIN <= k * self.num <= i64::MAX,
        ensures
            r == self.times(k as int),
    {
        Ratio { num: (k as i64) * self.num, den: self.den }
    }

    /// Changes the sign.
    pub fn negated(&self) -> (r: Ratio)
        requires
            self.num > i64::MIN,
        ensures
            r == self.opposite(),
    {
        Ratio { num: -self.num, den: self.den }
    }

    /// Whether the two fractions stand for the same number.
    pub fn has_same_value(&self, other: &Ratio) -> (b: bool)
        ensures
            b == self.same_value(*other),
    {
        proof {
            lemma_product_fits(self.num as int, other.den as int);
            lemma_product_fits(other.num as int, self.den as int);
        }
        (self.num as i128) * (other.den as i128) == (other.num as i128) * (self.den as i128)
    }

    /// For well-formed fractions, cross-multiplication decides whether the
    /// values are equal.
    pub proof fn lemma_same_value(a: Ratio, b: Ratio)
        requires
            a.wf(),
            b.wf(),
        ensures
            a.same_value(b) <==> a.value() == b.value(),
    {
        let n = a.num as int;
        let d = a.den as int;
        let m = b.num as int;
        let e = b.den as int;
        assert((n * e == m * d) <==> ((n as real) / (d as real) == (m as real) / (e as real)))
            by (nonlinear_arith)
            requires
                d > 0,
                e > 0,
        ;
    }

    /// A well-formed fraction is positive exactly when its value is.
    pub proof fn lemma_positive_value(r: Ratio)
        requires
            r.wf(),
        ensures
            r.positive() <==> r.value() > 0real,
    {
        let n = r.num as int;
        let d = r.den as int;
        assert((n > 0) <==> ((n as real) / (d as real) > 0real)) by (nonlinear_arith)
            requires
                d > 0,
        ;
    }

    /// Multiplying by a whole number multiplies the value, where the product
    /// of the numerator fits.
    pub proof fn lemma_times_value(r: Ratio, k: int)
        requires
            r.wf(),
            i64::MIN <= k * r.num <= i64::MAX,
        ensures
            r.times(k).wf(),
            r.times(k).value() == (k as real) * r.value(),
    {
        let n = r.num as int;
        let d = r.den as int;
        assert(((k * n) as real) / (d as real) == (k as real) * ((n as real) / (d as real)))
            by (nonlinear_arith)
            requires
                d > 0,
        ;
    }

    /// Changing the sign negates the value.
    pub proof fn lemma_opposite_value(r: Ratio)
        requires
            r.wf(),
            r.num > i64::MIN,
        ensures
            r.opposite().wf(),
            r.opposite().value() == 0real - r.value(),
    {
        let n = r.num as int;
        let d = r.den as int;
        assert(((-n) as real) / (d as real) == 0real - (n as real) / (d as real))
            by (nonlinear_arith)
            requires
                d > 0,
        ;
    }
}

proof fn lemma_product_fits(a: int, b: int)
    by (nonlinear_arith)
    requires
        i64::MIN <= a <= i64::MAX,
        i64::MIN <= b <= i64::MAX,
    ensures
        i128::MIN <= a * b <= i128::MAX,
{
}

} // verus!
