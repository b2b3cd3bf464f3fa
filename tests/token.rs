use share_token::codec::{bytes_to_u128, is_valid_name, is_valid_symbol, read_u128};
use share_token::contract::{
    instantiate, ExecuteMsg, InstantiateMsg, QueryMsg, Token, DAY, DEV_FUND_POOL_ALLOCATION,
    DECIMALS, ETHER, FARMING_POOL_REWARD_ALLOCATION, INITIAL_SUPPLY, NAME, SYMBOL,
    VESTING_DURATION,
};
use share_token::error::ContractError;

const START: u64 = 1_700_000_000;

fn s(x: &str) -> String {
    x.to_string()
}

fn fresh() -> Token {
    instantiate(
        &s("creator"),
        InstantiateMsg { start_time: START, dev_fund: s("dev"), community_fund: s("community") },
    )
    .unwrap()
}

fn sum_of_balances(t: &Token) -> u128 {
    t.ledger.holdings.iter().map(|h| h.amount).sum()
}

#[test]
fn creation_mints_one_initial_unit() {
    let t = fresh();
    assert_eq!(t.ledger.balance_of(&s("creator")), 1_000_000_000_000_000_000);
    assert_eq!(t.ledger.total_supply, 1_000_000_000_000_000_000);
    assert_eq!(INITIAL_SUPPLY, ETHER);
    assert_eq!(t.ledger.balance_of(&s("dev")), 0);
    assert_eq!(t.end_time, START + 356 * 86400);
    assert!(!t.reward_pool_distributed);
}

#[test]
fn creation_rejects_end_past_timestamp_range() {
    let r = instantiate(
        &s("creator"),
        InstantiateMsg { start_time: u64::MAX - 10, dev_fund: s("dev"), community_fund: s("c") },
    );
    assert_eq!(r.err(), Some(ContractError::Overflow));
}

#[test]
fn dev_fund_accrues_one_day_at_truncated_rate() {
    let t = fresh();
    let rate = 5000u128 * 1_000_000_000_000_000_000 / (356 * 86400);
    assert_eq!(t.dev.rate, rate);
    assert_eq!(rate, 162_557_220_141_489);
    assert_eq!(t.unclaimed_dev_fund(START + DAY), rate * 86400);
    assert_eq!(t.unclaimed_treasury_fund(START + DAY), 0);
    assert_eq!(DEV_FUND_POOL_ALLOCATION, 5000 * ETHER);
}

#[test]
fn unclaimed_dev_fund_grows_then_stops_at_end() {
    let t = fresh();
    let end = START + VESTING_DURATION;
    assert_eq!(t.unclaimed_dev_fund(START - 5), 0);
    assert_eq!(t.unclaimed_dev_fund(START), 0);
    let a = t.unclaimed_dev_fund(START + 10);
    let b = t.unclaimed_dev_fund(START + 1000);
    let c = t.unclaimed_dev_fund(end);
    assert!(a <= b && b <= c);
    assert_eq!(t.unclaimed_dev_fund(end + 1), c);
    assert_eq!(t.unclaimed_dev_fund(end + 100 * DAY), c);
}

#[test]
fn claim_pays_dev_fund_and_second_claim_mints_nothing() {
    let mut t = fresh();
    let now = START + DAY;
    let pending = t.unclaimed_dev_fund(now);
    assert_eq!(t.claim_rewards(now), Ok(()));
    assert_eq!(t.ledger.balance_of(&s("dev")), pending);
    assert_eq!(t.dev.last_claimed, now);
    assert_eq!(t.community.last_claimed, START);
    let supply = t.ledger.total_supply;
    assert_eq!(supply, ETHER + pending);
    assert_eq!(t.claim_rewards(now), Ok(()));
    assert_eq!(t.ledger.total_supply, supply);
    assert_eq!(t.ledger.balance_of(&s("dev")), pending);
}

#[test]
fn claim_after_end_stops_accrual() {
    let mut t = fresh();
    let late = START + VESTING_DURATION + 50;
    assert_eq!(t.claim_rewards(late), Ok(()));
    let rate = t.dev.rate;
    assert_eq!(t.ledger.balance_of(&s("dev")), rate * VESTING_DURATION as u128);
    assert_eq!(t.dev.last_claimed, late);
    assert_eq!(t.unclaimed_dev_fund(late + 1000), 0);
}

#[test]
fn transfer_of_zero_changes_nothing() {
    let mut t = fresh();
    let before = t.ledger.total_supply;
    assert_eq!(t.ledger.transfer(&s("nobody"), &s("else"), 0), Ok(()));
    assert_eq!(t.ledger.balance_of(&s("nobody")), 0);
    assert_eq!(t.ledger.balance_of(&s("else")), 0);
    assert_eq!(t.ledger.balance_of(&s("creator")), ETHER);
    assert_eq!(t.ledger.total_supply, before);
}

#[test]
fn transfer_moves_and_checks_balance() {
    let mut t = fresh();
    assert_eq!(t.ledger.transfer(&s("creator"), &s("bob"), 40), Ok(()));
    assert_eq!(t.ledger.balance_of(&s("creator")), ETHER - 40);
    assert_eq!(t.ledger.balance_of(&s("bob")), 40);
    assert_eq!(
        t.ledger.transfer(&s("bob"), &s("carol"), 41),
        Err(ContractError::InsufficientFunds { balance: 40, required: 41 })
    );
    assert_eq!(t.ledger.transfer(&s("bob"), &s("bob"), 40), Ok(()));
    assert_eq!(t.ledger.balance_of(&s("bob")), 40);
    assert_eq!(sum_of_balances(&t), t.ledger.total_supply);
}

#[test]
fn approve_sets_absolute_amount() {
    let mut t = fresh();
    t.ledger.approve(&s("alice"), &s("bob"), 100);
    t.ledger.approve(&s("alice"), &s("bob"), 50);
    assert_eq!(t.ledger.allowance_of(&s("alice"), &s("bob")), 50);
    assert_eq!(t.ledger.allowance_of(&s("bob"), &s("alice")), 0);
}

#[test]
fn transfer_from_over_allowance_fails_and_keeps_allowance() {
    let mut t = fresh();
    t.ledger.approve(&s("creator"), &s("spender"), 10);
    assert_eq!(
        t.ledger.transfer_from(&s("spender"), &s("creator"), &s("bob"), 11),
        Err(ContractError::InsufficientAllowance { allowance: 10, required: 11 })
    );
    assert_eq!(t.ledger.allowance_of(&s("creator"), &s("spender")), 10);
    assert_eq!(t.ledger.balance_of(&s("bob")), 0);
}

#[test]
fn transfer_from_spends_allowance() {
    let mut t = fresh();
    t.ledger.approve(&s("creator"), &s("spender"), 10);
    assert_eq!(t.ledger.transfer_from(&s("spender"), &s("creator"), &s("bob"), 4), Ok(()));
    assert_eq!(t.ledger.allowance_of(&s("creator"), &s("spender")), 6);
    assert_eq!(t.ledger.balance_of(&s("bob")), 4);
    assert_eq!(t.ledger.balance_of(&s("creator")), ETHER - 4);
}

#[test]
fn transfer_from_without_funds_keeps_allowance() {
    let mut t = fresh();
    t.ledger.approve(&s("poor"), &s("spender"), 10);
    assert_eq!(
        t.ledger.transfer_from(&s("spender"), &s("poor"), &s("bob"), 5),
        Err(ContractError::InsufficientFunds { balance: 0, required: 5 })
    );
    assert_eq!(t.ledger.allowance_of(&s("poor"), &s("spender")), 10);
}

#[test]
fn burn_and_mint_keep_supply_equal_to_sum() {
    let mut t = fresh();
    assert_eq!(t.ledger.mint(&s("bob"), 7), Ok(()));
    assert_eq!(t.ledger.burn(&s("creator"), 3), Ok(()));
    assert_eq!(t.ledger.total_supply, ETHER + 4);
    assert_eq!(sum_of_balances(&t), t.ledger.total_supply);
    assert_eq!(
        t.ledger.burn(&s("bob"), 8),
        Err(ContractError::InsufficientFunds { balance: 7, required: 8 })
    );
    assert_eq!(t.ledger.total_supply, ETHER + 4);
}

#[test]
fn mint_rejects_supply_overflow() {
    let mut t = fresh();
    assert_eq!(t.ledger.mint(&s("bob"), u128::MAX), Err(ContractError::Overflow));
    assert_eq!(t.ledger.balance_of(&s("bob")), 0);
    assert_eq!(t.ledger.mint(&s("bob"), u128::MAX - ETHER), Ok(()));
    assert_eq!(t.ledger.total_supply, u128::MAX);
    assert_eq!(t.ledger.mint(&s("creator"), 1), Err(ContractError::Overflow));
    assert_eq!(t.claim_rewards(START + DAY), Err(ContractError::Overflow));
    assert_eq!(t.dev.last_claimed, START);
}

#[test]
fn set_dev_fund_by_non_admin_fails() {
    let mut t = fresh();
    assert_eq!(t.set_dev_fund(&s("mallory"), s("mallory")), Err(ContractError::NotOperator));
    assert_eq!(t.dev_fund, "dev");
    assert_eq!(t.set_dev_fund(&s("dev"), s("dev2")), Ok(()));
    assert_eq!(t.dev_fund, "dev2");
}

#[test]
fn set_treasury_fund_needs_admin() {
    let mut t = fresh();
    assert_eq!(t.set_treasury_fund(&s("community"), s("x")), Err(ContractError::NotOperator));
    assert_eq!(t.community_fund, "community");
    assert_eq!(t.set_treasury_fund(&s("dev"), s("treasury2")), Ok(()));
    assert_eq!(t.community_fund, "treasury2");
}

#[test]
fn distribute_succeeds_exactly_once() {
    let mut t = fresh();
    assert_eq!(t.distribute_reward(&s("creator"), &s("farm")), Err(ContractError::NotOperator));
    assert_eq!(t.distribute_reward(&s("dev"), &s("farm")), Ok(()));
    assert_eq!(t.ledger.balance_of(&s("farm")), FARMING_POOL_REWARD_ALLOCATION);
    assert_eq!(FARMING_POOL_REWARD_ALLOCATION, 60000 * ETHER);
    let supply = t.ledger.total_supply;
    assert_eq!(t.distribute_reward(&s("dev"), &s("farm")), Err(ContractError::DoubleDistribute));
    assert_eq!(t.ledger.total_supply, supply);
    assert_eq!(t.ledger.balance_of(&s("farm")), FARMING_POOL_REWARD_ALLOCATION);
}

#[test]
fn execute_dispatches_and_recovers_foreign_asset() {
    let mut t = fresh();
    let r = t.execute(
        &s("creator"),
        START,
        ExecuteMsg::Transfer { recipient: s("bob"), amount: 9 },
    );
    assert!(matches!(r, Ok(None)));
    assert_eq!(t.query(START, QueryMsg::Balance { address: s("bob") }), 9);
    let r = t.execute(
        &s("anyone"),
        START,
        ExecuteMsg::GovernanceRecoverUnsupported { token: s("foreign"), amount: 77, to: s("bob") },
    );
    let f = r.ok().flatten().unwrap();
    assert_eq!(f.token, "foreign");
    assert_eq!(f.recipient, "bob");
    assert_eq!(f.amount, 77);
    let r = t.execute(&s("x"), START, ExecuteMsg::SetDevFund { dev_fund: s("x") });
    assert_eq!(r.err(), Some(ContractError::NotOperator));
    let r = t.execute(&s("a"), START + 10, ExecuteMsg::ClaimRewards);
    assert!(matches!(r, Ok(None)));
    assert_eq!(t.query(START + 10, QueryMsg::UnclaimedDevFund), 0);
    assert_eq!(t.query(START + 20, QueryMsg::UnclaimedDevFund), t.dev.rate * 10);
    assert_eq!(t.query(START + 20, QueryMsg::UnclaimedTreasuryFund), 0);
    t.execute(&s("creator"), START, ExecuteMsg::Approve { spender: s("sp"), amount: 3 }).unwrap();
    assert_eq!(t.query(START, QueryMsg::Allowance { owner: s("creator"), spender: s("sp") }), 3);
}

#[test]
fn amounts_decode_from_sixteen_big_endian_bytes() {
    let mut b = [0u8; 16];
    b[15] = 1;
    b[14] = 2;
    assert_eq!(bytes_to_u128(&b), Ok(0x0201));
    assert_eq!(bytes_to_u128(&[0xffu8; 16]), Ok(u128::MAX));
    assert_eq!(bytes_to_u128(&ETHER.to_be_bytes()), Ok(ETHER));
    assert_eq!(bytes_to_u128(&[1u8; 15]), Err(ContractError::CorruptedData));
    assert_eq!(bytes_to_u128(&[1u8; 17]), Err(ContractError::CorruptedData));
    assert_eq!(bytes_to_u128(&[]), Err(ContractError::CorruptedData));
    assert_eq!(read_u128(None), Ok(0));
    assert_eq!(read_u128(Some(&b[..])), Ok(0x0201));
    assert_eq!(read_u128(Some(&b[..3])), Err(ContractError::CorruptedData));
}

#[test]
fn names_and_symbols_are_checked() {
    assert_eq!(NAME, "3SHARE Token");
    assert_eq!(SYMBOL, "3SHARES");
    assert_eq!(DECIMALS, 18);
    assert!(is_valid_name(NAME));
    assert!(!is_valid_symbol(SYMBOL));
    assert!(!is_valid_name("ab"));
    assert!(!is_valid_name(&"x".repeat(31)));
    assert!(is_valid_symbol("SHARE"));
    assert!(!is_valid_symbol("3SHARES"));
    assert!(!is_valid_symbol("ABCDEFG"));
    assert!(!is_valid_symbol("AB"));
    assert!(!is_valid_symbol("ABc"));
}
