use dynamic_canisters::balance::{Balance, RepresentationOverflow};

#[test]
fn narrow_and_wide_balance_agree_when_the_amount_fits() {
    for amount in [0u128, 1, 100_000_000_000, u64::MAX as u128] {
        let balance = Balance::new(amount);
        assert_eq!(balance.wide_balance(), amount);
        assert_eq!(balance.narrow_balance().map(u128::from), Ok(balance.wide_balance()));
    }
}

#[test]
fn narrow_balance_at_the_limit() {
    assert_eq!(Balance::new(u64::MAX as u128).narrow_balance(), Ok(u64::MAX));
}

#[test]
fn narrow_balance_overflows_just_past_the_limit() {
    let balance = Balance::new(u64::MAX as u128 + 1);
    assert_eq!(balance.narrow_balance(), Err(RepresentationOverflow));
    assert_eq!(balance.wide_balance(), 18_446_744_073_709_551_616u128);
}

#[test]
fn narrow_balance_overflows_at_the_widest_amount() {
    let balance = Balance::new(u128::MAX);
    assert_eq!(balance.narrow_balance(), Err(RepresentationOverflow));
    assert_eq!(balance.wide_balance(), u128::MAX);
}

#[test]
fn overflow_is_worded_for_the_caller() {
    assert_eq!(
        RepresentationOverflow.describe(),
        "Balance exceeded a 64-bit value; call `wallet_balance128`"
    );
}
