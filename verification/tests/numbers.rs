use piko_miner::natural::{Integer, Natural};
use piko_miner::wallet::{
    approval_amount, can_afford, cost_per_block, format_piko, nat_to_plain_string,
    ICP_LEDGER_FEE_E8S,
};

fn n(text: &str) -> Natural {
    Natural::parse(text.as_bytes()).unwrap()
}

fn plain(n: &Natural) -> String {
    nat_to_plain_string(n)
}

#[test]
fn plain_strings_have_no_separators() {
    assert_eq!(plain(&Natural::from_u64(250_000_000)), "250000000");
    assert_eq!(plain(&Natural::zero()), "0");
    assert_eq!(plain(&Natural::from_u64(u64::MAX)), "18446744073709551615");
    assert_eq!(plain(&Natural { digits: vec![0, 1] }), "4294967296");
    assert_eq!(plain(&Natural { digits: vec![0, 0, 1, 0, 0] }), "18446744073709551616");
}

#[test]
fn plain_strings_are_read_back() {
    for text in ["0", "7", "10", "4294967296", "340282366920938463463374607431768211456"] {
        assert_eq!(plain(&n(text)), text);
    }
}

#[test]
fn numbers_are_parsed_as_decimal() {
    assert_eq!(plain(&n("007")), "7");
    assert_eq!(plain(&n("+12")), "12");
    assert_eq!(plain(&n("250_000_000")), "250000000");
    assert_eq!(plain(&n("1__2_")), "12");
    for bad in ["", "+", "++1", "_1", "+_1", "-1", "1.5", "0x10", "a", "1 ", "\u{0661}"] {
        assert_eq!(Natural::parse(bad.as_bytes()).unwrap_err(), "Cannot parse BigUint");
    }
    assert!(Natural::parse(&[0xff, 0x31]).is_err());
}

#[test]
fn arithmetic_is_exact() {
    let big = n("340282366920938463463374607431768211455");
    assert_eq!(plain(&big.plus(&Natural::from_u64(1))), "340282366920938463463374607431768211456");
    assert_eq!(
        plain(&big.times(&big)),
        "115792089237316195423570985008687907852589419931798687112530834793049593217025"
    );
    assert_eq!(plain(&Natural::from_u64(6).times(&Natural::from_u64(7))), "42");
    assert!(Natural::from_u64(6).less_than(&big));
    assert!(!big.less_than(&big));
    assert!(!big.less_than(&Natural::from_u64(6)));
    assert_eq!(plain(&big.clone()), plain(&big));
}

#[test]
fn narrowing_checks_the_range() {
    assert_eq!(n("4294967295").to_u32(), Some(u32::MAX));
    assert_eq!(n("4294967296").to_u32(), None);
    assert_eq!(n("18446744073709551615").to_u64(), Some(u64::MAX));
    assert_eq!(n("18446744073709551616").to_u64(), None);
    assert_eq!(n("9223372036854775807").to_i64(), Some(i64::MAX));
    assert_eq!(n("9223372036854775808").to_i64(), None);
}

#[test]
fn integers_narrow_with_their_sign() {
    let int = |negative: bool, text: &str| Integer { negative, magnitude: n(text) };
    assert_eq!(int(false, "5").to_i64(), Some(5));
    assert_eq!(int(true, "5").to_i64(), Some(-5));
    assert_eq!(int(true, "0").to_i64(), Some(0));
    assert_eq!(int(true, "9223372036854775808").to_i64(), Some(i64::MIN));
    assert_eq!(int(true, "9223372036854775809").to_i64(), None);
    assert_eq!(int(false, "9223372036854775807").to_i64(), Some(i64::MAX));
    assert_eq!(int(false, "9223372036854775808").to_i64(), None);
    assert_eq!(int(false, "340282366920938463463374607431768211456").to_i64(), None);
}

#[test]
fn amounts_are_shown_with_decimals() {
    for (e8s, text) in [
        ("0", "0"),
        ("1", "0.00000001"),
        ("10", "0.0000001"),
        ("10000", "0.0001"),
        ("99999999", "0.99999999"),
        ("100000000", "1"),
        ("250000000", "2.5"),
        ("123456789", "1.23456789"),
        ("1000000000", "10"),
        ("1000000010", "10.0000001"),
        ("123456789012345678901234567890", "1234567890123456789012.3456789"),
    ] {
        assert_eq!(format_piko(&n(e8s)), text);
    }
}

#[test]
fn different_amounts_are_shown_differently() {
    let mut seen = std::collections::HashSet::new();
    for e8s in (0..3_000u64).chain(99_999_000..100_001_000) {
        assert!(seen.insert(format_piko(&Natural::from_u64(e8s))));
    }
}

#[test]
fn a_block_costs_both_fees() {
    assert_eq!(ICP_LEDGER_FEE_E8S, 10_000);
    assert_eq!(plain(&cost_per_block(&Natural::from_u64(1_000_000))), "1010000");
}

#[test]
fn approvals_cover_the_blocks() {
    let fee = Natural::from_u64(1_000_000);
    assert_eq!(plain(&approval_amount(&fee, 0)), "1010000");
    assert_eq!(plain(&approval_amount(&fee, 1)), "1010000");
    assert_eq!(plain(&approval_amount(&fee, 25)), "25250000");
    assert_eq!(plain(&approval_amount(&fee, u32::MAX)), "4337916967950000");
    let approved = approval_amount(&fee, 3);
    assert!(can_afford(&approved, &approved, &fee));
}

#[test]
fn mining_needs_allowance_and_balance() {
    let fee = Natural::from_u64(90_000);
    let (enough, short) = (Natural::from_u64(100_000), Natural::from_u64(99_999));
    assert!(can_afford(&enough, &enough, &fee));
    assert!(!can_afford(&short, &enough, &fee));
    assert!(!can_afford(&enough, &short, &fee));
    assert!(!can_afford(&Natural::zero(), &Natural::zero(), &Natural::zero()));
}
