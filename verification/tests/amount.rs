use marketplace::amount::{Amount, Currency};
use marketplace::decimal::{DecimalNumber, MAX_MANTISSA};
use rusty_money::{crypto, Money};

fn usdc() -> Currency {
    Currency::Crypto("USDC".to_string())
}

fn dec(mantissa: i128, scale: u32) -> DecimalNumber {
    DecimalNumber::from_i128_with_scale(mantissa, scale)
}

#[test]
fn convert_from_money() {
    let money = Money::from_major(125, crypto::USDC);
    let converted = Amount::from_money(dec(money.amount().mantissa(), money.amount().scale()), money.currency().to_string());
    assert_eq!(Amount::new(dec(125, 0), usdc()), converted);
}

#[test]
fn substract() {
    let amount1 = Amount::new(dec(125, 0), usdc());
    let amount2 = Amount::new(dec(5, 0), usdc());
    assert_eq!(Amount::new(dec(120, 0), usdc()), amount1.sub(&amount2));
}

#[test]
fn substract_different_currencies_is_refused() {
    let amount1 = Amount::new(dec(125, 0), usdc());
    let amount2 = Amount::new(dec(5, 0), Currency::Crypto("USDT".to_string()));
    assert_eq!(amount1.checked_sub(&amount2), None);
}

#[test]
fn substract_with_different_scales() {
    let amount1 = Amount::new(dec(50045, 2), usdc());
    let amount2 = Amount::new(dec(45, 2), usdc());
    let difference = amount1.sub(&amount2);
    assert_eq!(difference, Amount::new(dec(500, 0), usdc()));
    assert_eq!(difference.to_string(), "500.00 USDC");
}

#[test]
fn substract_whole_amount_and_cents() {
    let amount1 = Amount::new(dec(125, 0), usdc());
    let amount2 = Amount::new(dec(25, 2), usdc());
    let difference = amount1.sub(&amount2);
    assert_eq!(difference, Amount::new(dec(12475, 2), usdc()));
    assert_eq!(difference.to_string(), "124.75 USDC");
}

#[test]
fn substract_whole_amount_from_tenths() {
    let amount1 = Amount::new(dec(105, 1), usdc());
    let amount2 = Amount::new(dec(3, 0), usdc());
    let difference = amount1.checked_sub(&amount2).unwrap();
    assert_eq!(difference, Amount::new(dec(75, 1), usdc()));
    assert_eq!(difference.to_string(), "7.5 USDC");
}

#[test]
fn substract_overflow_is_refused() {
    let amount1 = Amount::new(dec(MAX_MANTISSA, 0), usdc());
    let amount2 = Amount::new(dec(-1, 0), usdc());
    assert_eq!(amount1.checked_sub(&amount2), None);
}

#[test]
fn multiply() {
    let amount = Amount::new(dec(1250, 1), usdc());
    let product = amount.mul(3);
    assert_eq!(product, Amount::new(dec(375, 0), usdc()));
    assert_eq!(product.to_string(), "375.0 USDC");
}

#[test]
fn multiply_overflow_is_refused() {
    let amount = Amount::new(dec(MAX_MANTISSA, 0), usdc());
    assert_eq!(amount.checked_mul(2), None);
    assert_eq!(Amount::new(dec(2, 0), usdc()).checked_mul(-4), Some(Amount::new(dec(-8, 0), usdc())));
}

#[test]
fn amount_to_string() {
    assert_eq!(Amount::new(dec(12500, 2), usdc()).to_string(), "125.00 USDC");
}

#[test]
fn default_amount_is_zero() {
    let amount = Amount::default();
    assert_eq!(amount.amount().mantissa(), 0);
    assert_eq!(amount.currency(), &Currency::Crypto(String::new()));
}

#[test]
fn decimals_compare_by_value() {
    assert_eq!(dec(125, 0), dec(12500, 2));
    assert_ne!(dec(125, 0), dec(125, 1));
    assert_eq!(dec(0, 0), dec(0, 5));
}

#[test]
fn decimal_parts_out_of_range_are_refused() {
    assert!(DecimalNumber::try_from_i128_with_scale(1, 29).is_none());
    assert!(DecimalNumber::try_from_i128_with_scale(MAX_MANTISSA + 1, 0).is_none());
    assert!(DecimalNumber::try_from_i128_with_scale(-MAX_MANTISSA, 28).is_some());
}

#[test]
fn currency_text_is_its_code() {
    assert_eq!(usdc().to_string(), "USDC");
    assert!(usdc().same_as(&usdc()));
    assert!(!usdc().same_as(&Currency::Crypto("USDT".to_string())));
}

#[test]
fn decimal_text() {
    assert_eq!(dec(5, 2).to_string(), "0.05");
    assert_eq!(dec(-15, 1).to_string(), "-1.5");
    assert_eq!(dec(0, 2).to_string(), "0.00");
    assert_eq!(dec(0, 0).to_string(), "0");
    assert_eq!(dec(-1234567, 0).to_string(), "-1234567");
}

#[test]
fn decimals_order_by_value() {
    assert_eq!(dec(150, 2).partial_cmp(&dec(14, 1)), Some(std::cmp::Ordering::Greater));
    assert_eq!(dec(15, 1).partial_cmp(&dec(150, 2)), Some(std::cmp::Ordering::Equal));
    assert!(dec(-3, 0) < dec(1, 2));
}

#[test]
fn amounts_order_by_value_then_currency() {
    assert!(Amount::new(dec(5, 0), usdc()) < Amount::new(dec(125, 1), usdc()));
    assert!(Amount::new(dec(5, 0), usdc()) < Amount::new(dec(5, 0), Currency::Crypto("USDT".to_string())));
    assert!(usdc() < Currency::Crypto("USDT".to_string()));
    assert_eq!(usdc().cmp(&usdc()), std::cmp::Ordering::Equal);
}
