//! Money amounts: a decimal number together with the currency it is counted in.
use crate::decimal::{
    decimal_checked_mul, decimal_checked_sub, decimal_text, exact_difference, parts_value, DecimalNumber,
    MAX_MANTISSA,
};
use vstd::prelude::*;

verus! {

/// A currency, named by its code (such as `USDC`).
#[derive(Debug, Clone, PartialEq, Eq, PartialOrd, Ord)]
pub enum Currency {
    Crypto(String),
}

impl Currency {
    /// The currency's code, which is also how it is displayed.
    pub open spec fn code(self) -> Seq<char> {
        match self {
            Currency::Crypto(code) => code@,
        }
    }

    /// The currency's code as text.
    pub fn to_string(&self) -> (r: String)
        ensures
            r@ == self.code(),
    {
        match self {
            Currency::Crypto(code) => code.clone(),
        }
    }

    /// Whether two currencies are the same one.
    pub fn same_as(&self, other: &Currency) -> (r: bool)
        ensures
            r == (self.code() == other.code()),
    {
        match (self, other) {
            (Currency::Crypto(a), Currency::Crypto(b)) => a.eq(b),
        }
    }
}

impl Default for Currency {
    /// The crypto currency with the empty code.
    fn default() -> (r: Currency)
        ensures
            r.code() == Seq::<char>::empty(),
    {
        Currency::Crypto(String::new())
    }
}

/// An amount of money in a currency.
#[derive(Debug, Clone, PartialEq, Eq, PartialOrd)]
pub struct Amount {
    amount: DecimalNumber,
    currency: Currency,
}

impl Amount {
    pub closed spec fn amount_of(self) -> DecimalNumber {
        self.amount
    }

    pub closed spec fn currency_of(self) -> Currency {
        self.currency
    }

    /// The text of an amount: the number, a space, and the currency's code.
    pub open spec fn text(self) -> Seq<char> {
        decimal_text(self.amount_of().mantissa_of() as int, self.amount_of().scale_of() as nat) + seq![' ']
            + self.currency_of().code()
    }

    /// The parts of `self - rhs` as `rust_decimal` computes them, if it does.
    pub open spec fn difference(self, rhs: Amount) -> Option<(i128, u32)> {
        decimal_checked_sub(
            self.amount_of().mantissa_of(),
            self.amount_of().scale_of(),
            rhs.amount_of().mantissa_of(),
            rhs.amount_of().scale_of(),
        )
    }

    /// The parts of `self * rhs` as `rust_decimal` computes them, if it does.
    pub open spec fn product(self, rhs: i64) -> Option<(i128, u32)> {
        decimal_checked_mul(self.amount_of().mantissa_of(), self.amount_of().scale_of(), rhs as i128, 0u32)
    }

    pub fn new(amount: DecimalNumber, currency: Currency) -> (r: Amount)
        ensures
            r.amount_of() == amount,
            r.currency_of() == currency,
    {
        Amount { amount, currency }
    }

    /// The amount of a sum of money given by its decimal amount and its currency's code: the
    /// code names a crypto currency.
    pub fn from_money(amount: DecimalNumber, currency_code: String) -> (r: Amount)
        ensures
            r.amount_of() == amount,
            r.currency_of() == Currency::Crypto(currency_code),
    {
        Amount::new(amount, Currency::Crypto(currency_code))
    }

    pub fn amount(&self) -> (r: &DecimalNumber)
        ensures
            *r == self.amount_of(),
    {
        &self.amount
    }

    pub fn currency(&self) -> (r: &Currency)
        ensures
            *r == self.currency_of(),
    {
        &self.currency
    }

    /// The amount as text, such as `125 USDC`.
    pub fn to_string(&self) -> (r: String)
        ensures
            r@ == self.text(),
    {
        let number = self.amount.to_string();
        let with_space = number.concat(" ");
        let code = self.currency.to_string();
        proof {
            reveal_strlit(" ");
        }
        with_space.concat(code.as_str())
    }

    /// `self - rhs`. Both amounts are in the same currency, and the difference does not
    /// overflow.
    pub fn sub(self, rhs: &Amount) -> (r: Amount)
        requires
            self.currency_of().code() == rhs.currency_of().code(),
            self.difference(*rhs) is Some,
        ensures
            r.currency_of() == self.currency_of(),
            r.amount_of().mantissa_of() == (self.difference(*rhs)->0).0,
            r.amount_of().scale_of() == (self.difference(*rhs)->0).1,
            exact_difference(self.amount_of(), rhs.amount_of()) ==> r.amount_of().value()
                == self.amount_of().value() - rhs.amount_of().value(),
    {
        match self.amount.checked_sub(&rhs.amount) {
            Some(d) => Amount { amount: d, ..self },
            None => {
                proof {
                    assert(false);
                }
                self
            },
        }
    }

    /// `self - rhs`, or `None` when the currencies differ or the difference overflows.
    pub fn checked_sub(self, rhs: &Amount) -> (r: Option<Amount>)
        ensures
            r is Some <==> (self.currency_of().code() == rhs.currency_of().code()
                && self.difference(*rhs) is Some),
            r matches Some(a) ==> a.currency_of() == self.currency_of()
                && a.amount_of().mantissa_of() == (self.difference(*rhs)->0).0
                && a.amount_of().scale_of() == (self.difference(*rhs)->0).1,
            self.currency_of().code() == rhs.currency_of().code() && exact_difference(
                self.amount_of(),
                rhs.amount_of(),
            ) ==> (r matches Some(a) && a.amount_of().value() == self.amount_of().value()
                - rhs.amount_of().value()),
    {
        if !self.currency.same_as(&rhs.currency) {
            return None;
        }
        match self.amount.checked_sub(&rhs.amount) {
            Some(_) => Some(self.sub(rhs)),
            None => None,
        }
    }

    /// `self * rhs`, where the product does not overflow.
    pub fn mul(self, rhs: i64) -> (r: Amount)
        requires
            self.product(rhs) is Some,
        ensures
            r.currency_of() == self.currency_of(),
            r.amount_of().mantissa_of() == (self.product(rhs)->0).0,
            r.amount_of().scale_of() == (self.product(rhs)->0).1,
            -MAX_MANTISSA <= self.amount_of().mantissa_of() * rhs <= MAX_MANTISSA ==> r.amount_of().value()
                == parts_value(self.amount_of().mantissa_of() * rhs, self.amount_of().scale_of() as int),
    {
        let factor = DecimalNumber::from_i64(rhs);
        proof {
            use_type_invariant(&self.amount);
        }
        match self.amount.checked_mul(&factor) {
            Some(d) => Amount { amount: d, ..self },
            None => {
                proof {
                    assert(false);
                }
                self
            },
        }
    }

    /// `self * rhs`, or `None` when the product overflows.
    pub fn checked_mul(self, rhs: i64) -> (r: Option<Amount>)
        ensures
            r is Some <==> self.product(rhs) is Some,
            r matches Some(a) ==> a.currency_of() == self.currency_of()
                && a.amount_of().mantissa_of() == (self.product(rhs)->0).0
                && a.amount_of().scale_of() == (self.product(rhs)->0).1,
            -MAX_MANTISSA <= self.amount_of().mantissa_of() * rhs <= MAX_MANTISSA ==> (r matches Some(a)
                && a.amount_of().value() == parts_value(
                self.amount_of().mantissa_of() * rhs,
                self.amount_of().scale_of() as int,
            )),
    {
        let factor = DecimalNumber::from_i64(rhs);
        proof {
            use_type_invariant(&self.amount);
        }
        match self.amount.checked_mul(&factor) {
            Some(_) => Some(self.mul(rhs)),
            None => None,
        }
    }
}

impl Default for Amount {
    /// Zero in the default currency.
    fn default() -> (r: Amount)
        ensures
            r.amount_of().mantissa_of() == 0,
            r.amount_of().scale_of() == 0,
            r.currency_of().code() == Seq::<char>::empty(),
    {
        Amount { amount: DecimalNumber::default(), currency: Currency::default() }
    }
}

} // verus!
