use kickstarter::fee::{split, FEE_DIVISOR};

#[test]
fn split_of_one_hundred() {
    assert_eq!(split(100), (95, 5));
}

#[test]
fn split_below_the_divisor_takes_no_fee() {
    assert_eq!(split(19), (19, 0));
    assert_eq!(split(0), (0, 0));
    assert_eq!(split(1), (1, 0));
}

#[test]
fn split_rounds_the_fee_down() {
    assert_eq!(split(20), (19, 1));
    assert_eq!(split(39), (38, 1));
    assert_eq!(split(40), (38, 2));
    assert_eq!(split(1100), (1045, 55));
}

#[test]
fn split_loses_nothing() {
    let balances: [u128; 7] = [0, 1, 19, 20, 21, 12345678901234567890, u128::MAX];
    for balance in balances {
        let (payout, fee) = split(balance);
        assert_eq!(fee, balance / FEE_DIVISOR);
        assert_eq!(payout.checked_add(fee), Some(balance));
    }
}
