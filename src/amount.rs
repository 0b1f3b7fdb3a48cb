use vstd::prelude::*;

verus! {

/// The weight of the second word of an [`Amount`] (2^64).
pub open spec fn base1() -> nat {
    0x1_0000_0000_0000_0000
}

/// The weight of the third word (2^128).
pub open spec fn base2() -> nat {
    base1() * base1()
}

/// The weight of the fourth word (2^192).
pub open spec fn base3() -> nat {
    base2() * base1()
}

/// One more than the largest value an [`Amount`] can hold (2^256).
pub open spec fn amount_bound() -> nat {
    base3() * base1()
}

/// A token amount: an unsigned 256-bit integer held as four little-endian
/// 64-bit words (`w0` least significant), the layout of casper-types' `U256`.
#[derive(Clone, Copy, Debug, PartialEq, Eq)]
pub struct Amount {
    pub w0: u64,
    pub w1: u64,
    pub w2: u64,
    pub w3: u64,
}

impl Amount {
    /// The number this amount stands for.
    pub open spec fn value(self) -> nat {
        self.w0 as nat + self.w1 as nat * base1() + self.w2 as nat * base2() + self.w3 as nat
            * base3()
    }

    pub proof fn lemma_value_bounded(self)
        ensures
            self.value() < amount_bound(),
    {
        let (a, b, c, d) = (self.w0 as nat, self.w1 as nat, self.w2 as nat, self.w3 as nat);
        let (b1, b2, b3) = (base1(), base2(), base3());
        assert(a + b * b1 + c * b2 + d * b3 < b3 * b1) by (nonlinear_arith)
            requires
                a < b1,
                b < b1,
                c < b1,
                d < b1,
                b2 == b1 * b1,
                b3 == b2 * b1,
        {
            assert(b * b1 <= (b1 - 1) * b1);
            assert(c * b2 <= (b1 - 1) * b2);
            assert(d * b3 <= (b1 - 1) * b3);
        }
    }

    /// The four words, least significant first.
    pub fn to_words(&self) -> (r: [u64; 4])
        ensures
            r@ == seq![self.w0, self.w1, self.w2, self.w3],
    {
        let r = [self.w0, self.w1, self.w2, self.w3];
        assert(r@ =~= seq![self.w0, self.w1, self.w2, self.w3]);
        r
    }

    /// The amount whose words, least significant first, are `w`.
    pub fn from_words(w: [u64; 4]) -> (r: Amount)
        ensures
            seq![r.w0, r.w1, r.w2, r.w3] == w@,
    {
        let r = Amount { w0: w[0], w1: w[1], w2: w[2], w3: w[3] };
        assert(seq![r.w0, r.w1, r.w2, r.w3] =~= w@);
        r
    }

    pub fn zero() -> (r: Amount)
        ensures
            r.value() == 0,
    {
        Amount { w0: 0, w1: 0, w2: 0, w3: 0 }
    }

    pub fn from_u64(x: u64) -> (r: Amount)
        ensures
            r.value() == x as nat,
    {
        Amount { w0: x, w1: 0, w2: 0, w3: 0 }
    }

    pub fn is_zero(&self) -> (r: bool)
        ensures
            r == (self.value() == 0),
    {
        proof {
            let (b, c, d) = (self.w1 as nat, self.w2 as nat, self.w3 as nat);
            let (b1, b2, b3) = (base1(), base2(), base3());
            assert((b * b1 == 0 ==> b == 0) && (c * b2 == 0 ==> c == 0) && (d * b3 == 0 ==> d == 0))
                by (nonlinear_arith)
                requires
                    b1 > 0,
                    b2 == b1 * b1,
                    b3 == b2 * b1,
            ;
            assert(b * b1 >= 0 && c * b2 >= 0 && d * b3 >= 0) by (nonlinear_arith)
                requires
                    b1 > 0,
                    b2 == b1 * b1,
                    b3 == b2 * b1,
            ;
        }
        self.w0 == 0 && self.w1 == 0 && self.w2 == 0 && self.w3 == 0
    }

    /// The quotient truncated toward zero; `None` for a zero divisor.
    pub fn checked_div(&self, d: &Amount) -> (r: Option<Amount>)
        ensures
            d.value() == 0 <==> r.is_none(),
            r matches Some(q) ==> q.value() == self.value() / d.value(),
    {
        u256_checked_div(*self, *d)
    }

    /// The product; `None` where it does not fit in 256 bits.
    pub fn checked_mul(&self, m: &Amount) -> (r: Option<Amount>)
        ensures
            r.is_some() <==> self.value() * m.value() < amount_bound(),
            r matches Some(p) ==> p.value() == self.value() * m.value(),
    {
        u256_checked_mul(*self, *m)
    }

    /// The difference; `None` where `s` is larger than `self`.
    pub fn checked_sub(&self, s: &Amount) -> (r: Option<Amount>)
        ensures
            r.is_some() <==> s.value() <= self.value(),
            r matches Some(d) ==> d.value() == self.value() - s.value(),
    {
        u256_checked_sub(*self, *s)
    }
}

/// Relies on casper-types' `U256::checked_div`: `None` exactly for a zero
/// divisor, else the truncated quotient.
#[verifier::external_body]
fn u256_checked_div(a: Amount, b: Amount) -> (r: Option<Amount>)
    ensures
        b.value() == 0 <==> r.is_none(),
        r matches Some(q) ==> q.value() == a.value() / b.value(),
{
    casper_types::U256(a.to_words()).checked_div(casper_types::U256(b.to_words())).map(|x| Amount::from_words(x.0))
}

/// Relies on casper-types' `U256::checked_mul`: `None` exactly when the
/// product overflows 256 bits, else the product.
#[verifier::external_body]
fn u256_checked_mul(a: Amount, b: Amount) -> (r: Option<Amount>)
    ensures
        r.is_some() <==> a.value() * b.value() < amount_bound(),
        r matches Some(p) ==> p.value() == a.value() * b.value(),
{
    casper_types::U256(a.to_words()).checked_mul(casper_types::U256(b.to_words())).map(|x| Amount::from_words(x.0))
}

/// Relies on casper-types' `U256::checked_sub`: `None` exactly when the
/// subtrahend is larger, else the difference.
#[verifier::external_body]
fn u256_checked_sub(a: Amount, b: Amount) -> (r: Option<Amount>)
    ensures
        r.is_some() <==> b.value() <= a.value(),
        r matches Some(d) ==> d.value() == a.value() - b.value(),
{
    casper_types::U256(a.to_words()).checked_sub(casper_types::U256(b.to_words())).map(|x| Amount::from_words(x.0))
}

} // verus!
