use escrow::asset::{coin, Addr, Balance, Cw20CoinVerified};
use escrow::error::ContractError;
use escrow::state::GenericBalance;

fn token(address: &str, amount: u128) -> Balance {
    Balance::Cw20(Cw20CoinVerified { address: Addr::unchecked(address), amount })
}

#[test]
fn empty_balance_has_no_lines() {
    let balance = GenericBalance::default();
    assert!(balance.is_empty());
    assert!(balance.native.is_empty());
    assert!(balance.cw20.is_empty());
}

#[test]
fn balance_with_a_zero_line_is_not_empty() {
    let mut balance = GenericBalance::default();
    balance.add_tokens(Balance::from_coins(vec![coin(0, "atom")])).unwrap();
    assert!(!balance.is_empty());
    assert_eq!(balance.native, vec![coin(0, "atom")]);
}

#[test]
fn amounts_are_summed_per_denomination() {
    let mut balance = GenericBalance::default();
    balance.add_tokens(Balance::from_coins(vec![coin(1, "a"), coin(2, "b"), coin(3, "a")])).unwrap();
    balance.add_tokens(Balance::from_coins(vec![coin(10, "b")])).unwrap();
    balance.add_tokens(Balance::from_coins(vec![coin(100, "c"), coin(1000, "a")])).unwrap();
    assert_eq!(balance.native, vec![coin(1004, "a"), coin(12, "b"), coin(100, "c")]);
}

#[test]
fn first_seen_order_follows_the_calls() {
    let mut one = GenericBalance::default();
    one.add_tokens(Balance::from_coins(vec![coin(1, "x")])).unwrap();
    one.add_tokens(Balance::from_coins(vec![coin(2, "y")])).unwrap();
    one.add_tokens(Balance::from_coins(vec![coin(3, "x")])).unwrap();
    assert_eq!(one.native, vec![coin(4, "x"), coin(2, "y")]);

    let mut other = GenericBalance::default();
    other.add_tokens(Balance::from_coins(vec![coin(2, "y")])).unwrap();
    other.add_tokens(Balance::from_coins(vec![coin(1, "x")])).unwrap();
    other.add_tokens(Balance::from_coins(vec![coin(3, "x")])).unwrap();
    assert_eq!(other.native, vec![coin(2, "y"), coin(4, "x")]);
}

#[test]
fn native_and_token_lines_do_not_mix() {
    let mut balance = GenericBalance::default();
    balance.add_tokens(Balance::from_coins(vec![coin(5, "same")])).unwrap();
    balance.add_tokens(token("same", 7)).unwrap();
    assert_eq!(balance.native, vec![coin(5, "same")]);
    assert_eq!(
        balance.cw20,
        vec![Cw20CoinVerified { address: Addr::unchecked("same"), amount: 7 }]
    );
}

#[test]
fn native_overflow_fails_and_merges_nothing() {
    let mut balance = GenericBalance::default();
    balance.add_tokens(Balance::from_coins(vec![coin(u128::MAX, "atom"), coin(1, "eth")])).unwrap();
    let err = balance
        .add_tokens(Balance::from_coins(vec![coin(5, "eth"), coin(9, "btc"), coin(1, "atom")]))
        .unwrap_err();
    assert_eq!(err, ContractError::Overflow);
    assert_eq!(balance.native, vec![coin(u128::MAX, "atom"), coin(1, "eth")]);
}

#[test]
fn amount_may_reach_the_maximum() {
    let mut balance = GenericBalance::default();
    balance.add_tokens(Balance::from_coins(vec![coin(u128::MAX - 1, "atom")])).unwrap();
    balance.add_tokens(Balance::from_coins(vec![coin(1, "atom")])).unwrap();
    assert_eq!(balance.native, vec![coin(u128::MAX, "atom")]);
}

#[test]
fn token_overflow_fails_and_merges_nothing() {
    let mut balance = GenericBalance::default();
    balance.add_tokens(token("tok", u128::MAX)).unwrap();
    let err = balance.add_tokens(token("tok", 1)).unwrap_err();
    assert_eq!(err, ContractError::Overflow);
    assert_eq!(
        balance.cw20,
        vec![Cw20CoinVerified { address: Addr::unchecked("tok"), amount: u128::MAX }]
    );
}

#[test]
fn repeated_denomination_in_one_deposit_is_summed() {
    let mut balance = GenericBalance::default();
    balance.add_tokens(Balance::from_coins(vec![coin(4, "a"), coin(6, "a")])).unwrap();
    assert_eq!(balance.native, vec![coin(10, "a")]);
}

#[test]
fn deposit_without_value_is_empty() {
    assert!(Balance::from_coins(vec![]).is_empty());
    assert!(Balance::from_coins(vec![coin(0, "a"), coin(0, "b")]).is_empty());
    assert!(!Balance::from_coins(vec![coin(0, "a"), coin(1, "b")]).is_empty());
    assert!(token("tok", 0).is_empty());
    assert!(!token("tok", 1).is_empty());
}

#[test]
fn cloned_balance_is_equal() {
    let mut balance = GenericBalance::default();
    balance.add_tokens(Balance::from_coins(vec![coin(4, "a")])).unwrap();
    balance.add_tokens(token("tok", 3)).unwrap();
    assert_eq!(balance.clone(), balance);
}
