use fluxus::arith::{mul_div, mul_div_checked, percent_of};
use fluxus::compounder::callback_post_unclaimed_rewards;
use fluxus::strmap::StrMap;
use fluxus::errors::SafeError;
use fluxus::farm::{
    assert_strategy_not_cleared, AutoCompounderCycle, AutoCompounderState, StratFarmInfo,
};
use fluxus::fees::{compute_fees, AccountFee, AdminFees};
use fluxus::ids::{
    farm_id_str_of, get_ids_from_farm, is_account_id, is_farm_id, seed_id_of, unwrap_token_id,
    wrap_mft_token_id,
};
use fluxus::shares::{compute_shares_to_mint, compute_withdrawal, ShareLedger};
use fluxus::treasurer::Treasurer;

fn s(v: &str) -> String {
    v.to_string()
}

fn farm(slippage: u128) -> StratFarmInfo {
    StratFarmInfo {
        state: AutoCompounderState::Running,
        cycle_stage: AutoCompounderCycle::ClaimReward,
        slippage,
        last_reward_amount: 0,
        last_fee_amount: 0,
        pool_id_token1_reward: 1,
        pool_id_token2_reward: 2,
        reward_token: s("reward.near"),
        available_balance: vec![0, 0],
        id: s("0"),
    }
}

#[test]
fn percent_of_rounds_down() {
    assert_eq!(percent_of(5, 1000), Some(50));
    assert_eq!(percent_of(33, 10), Some(3));
    assert_eq!(percent_of(0, 1000), Some(0));
    assert_eq!(percent_of(1, u128::MAX), Some(u128::MAX / 100));
    // the product does not fit in 128 bits
    assert_eq!(percent_of(2, u128::MAX), None);
    assert_eq!(percent_of(100, u128::MAX), None);
}

#[test]
fn mul_div_keeps_the_full_product() {
    assert_eq!(mul_div_checked(u128::MAX, 2, 4), Some(u128::MAX / 2));
    assert_eq!(mul_div_checked(u128::MAX, u128::MAX, 1), None);
    assert_eq!(mul_div_checked(7, 3, 2), Some(10));
    assert_eq!(mul_div(1 << 100, 1 << 100, 1 << 90), 1 << 110);
}

#[test]
fn fee_split_adds_up_to_the_reward() {
    let fees = AdminFees::new(AccountFee::new(s("creator.near"), 10), 10, 10);
    let (remaining, treasury, sentry, creator) = compute_fees(&fees, 1000).unwrap();
    assert_eq!((remaining, treasury, sentry, creator), (900, 80, 10, 10));
    assert_eq!(remaining + treasury + sentry + creator, 1000);
    // rounding down leaves the rest to the treasury
    let (remaining, treasury, sentry, creator) = compute_fees(&fees, 999).unwrap();
    assert_eq!((remaining, treasury, sentry, creator), (900, 81, 9, 9));
    assert_eq!(remaining + treasury + sentry + creator, 999);
}

#[test]
fn fee_split_refuses_invalid_percentages() {
    let fees = AdminFees::new(AccountFee::new(s("creator.near"), 60), 50, 10);
    assert_eq!(compute_fees(&fees, 1000), None);
    let fees = AdminFees::new(AccountFee::new(s("creator.near"), 10), 10, 101);
    assert_eq!(compute_fees(&fees, 1000), None);
}

#[test]
fn take_fees_keeps_the_sentry_share_for_the_vault() {
    let mut fees = AdminFees::new(AccountFee::new(s("creator.near"), 10), 10, 10);
    let split = fees.take_fees(1000, &s("vault.near")).unwrap();
    assert_eq!(split, (900, 80, 10, 10));
    assert_eq!(fees.strat_creator.current_amount, 10);
    assert_eq!(fees.sentries.get(&s("vault.near")), Some(&10));
    // the sentry is paid what the vault held
    assert_eq!(fees.take_sentry_fee(Some(Some(2)), &s("vault.near")), Ok(10));
    assert_eq!(fees.sentries.get(&s("vault.near")), None);
    assert_eq!(fees.take_sentry_fee(Some(Some(2)), &s("vault.near")), Err(SafeError::DoesNotExist));
    assert_eq!(fees.take_sentry_fee(Some(None), &s("vault.near")), Err(SafeError::NotEnoughBalance));
    assert_eq!(fees.take_sentry_fee(None, &s("vault.near")), Err(SafeError::SentryNotRegistered));
    // a failed transfer to the sentry keeps its fee owed
    fees.settle_sentry_transfer(false, s("sentry.near"), 10);
    assert_eq!(fees.sentries.get(&s("sentry.near")), Some(&10));
}

#[test]
fn harvest_cycle_returns_to_its_start() {
    let mut f = farm(99);
    for _ in 0..4 {
        f.next_cycle();
    }
    assert_eq!(f.cycle_stage, AutoCompounderCycle::ClaimReward);
    f.next_cycle();
    assert_eq!(f.cycle_stage, AutoCompounderCycle::Withdrawal);
}

#[test]
fn failed_swaps_end_the_farm() {
    let mut f = farm(99);
    let mut seen = vec![];
    while f.state == AutoCompounderState::Running {
        f.increase_slippage();
        seen.push(f.slippage);
    }
    assert_eq!(seen, vec![95, 91, 87, 83, 79, 79]);
    assert_eq!(f.state, AutoCompounderState::Ended);
}

#[test]
fn cleared_farms_are_not_harvested() {
    assert_eq!(assert_strategy_not_cleared(AutoCompounderState::Running), Ok(()));
    assert_eq!(assert_strategy_not_cleared(AutoCompounderState::Ended), Ok(()));
    assert_eq!(assert_strategy_not_cleared(AutoCompounderState::Cleared), Err(SafeError::StrategyCleared));
}

#[test]
fn farm_ids_split_back_into_their_parts() {
    let seed = seed_id_of("ref.near", 42);
    assert_eq!(seed, s("ref.near@42"));
    let farm_id = farm_id_str_of(&seed, "3");
    assert_eq!(farm_id, s("ref.near@42#3"));
    assert!(is_farm_id(&farm_id));
    assert!(!is_farm_id("ref.near@42"));
    assert_eq!(get_ids_from_farm(farm_id), (s("ref.near@42"), s(":42"), s("3")));
    assert_eq!(unwrap_token_id(&wrap_mft_token_id("42")), s("42"));
    assert_eq!(seed_id_of("x", 0), s("x@0"));
    assert_eq!(seed_id_of("x", u64::MAX), s("x@18446744073709551615"));
}

#[test]
fn account_ids_follow_near_rules() {
    assert!(is_account_id("alice.near"));
    assert!(is_account_id("a-b_c.testnet"));
    assert!(!is_account_id("Alice.near"));
    assert!(!is_account_id("a"));
    assert!(!is_account_id("alice..near"));
}

#[test]
fn first_deposit_mints_one_share_per_seed() {
    assert_eq!(compute_shares_to_mint(100, 0, 0), Ok(100));
    assert_eq!(compute_shares_to_mint(50, 100, 200), Ok(25));
    assert_eq!(compute_shares_to_mint(50, 100, 0), Err(SafeError::DivisionByZero));
    assert_eq!(compute_shares_to_mint(u128::MAX, u128::MAX, 1), Err(SafeError::ArithmeticOverflow));
}

#[test]
fn withdrawal_takes_the_shares_worth() {
    assert_eq!(compute_withdrawal(100, 150, 300, None), Ok((200, 100)));
    assert_eq!(compute_withdrawal(100, 150, 300, Some(100)), Ok((100, 50)));
    assert_eq!(compute_withdrawal(100, 150, 300, Some(201)), Err(SafeError::NotEnoughBalance));
    assert_eq!(compute_withdrawal(100, 0, 300, None), Err(SafeError::DivisionByZero));
    assert_eq!(compute_withdrawal(100, 150, 0, Some(1)), Err(SafeError::DivisionByZero));
    assert_eq!(compute_withdrawal(u128::MAX, 1, u128::MAX, None), Err(SafeError::ArithmeticOverflow));
}

#[test]
fn deposit_then_withdraw_restores_the_ledger() {
    let mut l = ShareLedger::new();
    let seed = s("ref.near@7");
    let share = l.new_fft_share(&seed).unwrap();
    l.register_share_for_seed(seed.clone(), share.clone());
    l.register_seed(share.clone());
    l.deposit_shares(&seed, &s("alice"), 300).unwrap();
    l.set_seed_amount(seed.clone(), 600);
    let minted = l.deposit_shares(&seed, &s("bob"), 100).unwrap();
    assert_eq!(minted, 50);
    l.withdraw_shares(&seed, &s("bob"), 100, minted).unwrap();
    assert_eq!(l.users_fft_share_amount(&share, &s("bob")), 0);
    assert_eq!(l.users_fft_share_amount(&share, &s("alice")), 300);
    assert_eq!(l.total_supply_amount(&share), 300);
    assert_eq!(l.seed_total_amount(&seed), Some(600));
}

#[test]
fn a_later_deposit_does_not_dilute_earlier_ones() {
    let mut l = ShareLedger::new();
    let seed = s("ref.near@7");
    let share = l.new_fft_share(&seed).unwrap();
    l.register_share_for_seed(seed.clone(), share.clone());
    l.register_seed(share.clone());
    l.deposit_shares(&seed, &s("alice"), 300).unwrap();
    l.set_seed_amount(seed.clone(), 700);
    let before = l.user_share_seed_id(&seed, &s("alice")).unwrap();
    l.deposit_shares(&seed, &s("bob"), 100).unwrap();
    let after = l.user_share_seed_id(&seed, &s("alice")).unwrap();
    assert_eq!(before, 700);
    assert!(after >= before);
}

#[test]
fn stakeholders_share_what_was_swapped() {
    let mut t = Treasurer::new(s("owner.near"), s("wrap.near"), s("exchange.near"));
    assert_eq!(
        t.add_stakeholder(&s("owner.near"), &s("treasurer.near"), s("a"), 50),
        Ok(s("Account a was added with 50 proportion from value"))
    );
    t.add_stakeholder(&s("owner.near"), &s("treasurer.near"), s("b"), 40).unwrap();
    assert_eq!(
        t.add_stakeholder(&s("owner.near"), &s("treasurer.near"), s("c"), 11),
        Err(SafeError::FeeNotValid)
    );
    assert_eq!(
        t.add_stakeholder(&s("mallory"), &s("treasurer.near"), s("c"), 1),
        Err(SafeError::NotAllowed)
    );
    assert_eq!(t.internal_distribute(false, 1000), Err(SafeError::PromiseFailed));
    assert_eq!(
        t.internal_distribute(true, 1000),
        Ok(s("Stakeholders can already withdraw from Treasurer"))
    );
    assert_eq!(t.withdraw(&s("a")), Ok(500));
    assert_eq!(t.withdraw(&s("b")), Ok(400));
    assert_eq!(t.withdraw(&s("c")), Err(SafeError::DoesNotExist));
    t.callback_withdraw(true, s("a")).unwrap();
    assert_eq!(t.withdraw(&s("a")), Err(SafeError::ZeroAmount));
}

#[test]
fn treasurer_swap_steps() {
    let mut t = Treasurer::new(s("owner.near"), s("wrap.near"), s("exchange.near"));
    assert_eq!(t.execute_swaps_and_distribute(&s("usn.near")), Err(SafeError::TokenNotRegistered));
    assert_eq!(t.callback_register_token(true, false, s("usn.near"), 3), Err(SafeError::PromiseFailed));
    t.register_token(&s("owner.near"), &s("treasurer.near"), &s("usn.near")).unwrap();
    t.callback_register_token(true, true, s("usn.near"), 3).unwrap();
    assert_eq!(
        t.register_token(&s("owner.near"), &s("treasurer.near"), &s("usn.near")),
        Err(SafeError::AlreadyExists)
    );
    assert_eq!(t.execute_swaps_and_distribute(&s("usn.near")), Ok(3));
    assert_eq!(t.get_token_return_and_swap(Some(0)), Err(SafeError::ZeroAmount));
    assert_eq!(t.get_token_return_and_swap(Some(7)), Ok(7));
    assert_eq!(t.swap(None), Err(SafeError::CouldNotGetReturn));
    assert_eq!(t.swap(Some(9)), Ok(9));
}

#[test]
fn distribution_refuses_the_first_share_that_fails() {
    let mut t = Treasurer::new(s("owner.near"), s("wrap.near"), s("exchange.near"));
    t.add_stakeholder(&s("owner.near"), &s("treasurer.near"), s("a"), 50).unwrap();
    t.add_stakeholder(&s("owner.near"), &s("treasurer.near"), s("b"), 1).unwrap();
    // b's share of 10 rounds down to zero
    assert_eq!(t.internal_distribute(true, 10), Err(SafeError::ZeroAmount));
    // a's share of the largest amount does not fit in 128 bits
    assert_eq!(t.internal_distribute(true, u128::MAX), Err(SafeError::ArithmeticOverflow));
    assert_eq!(t.withdraw(&s("a")), Err(SafeError::ZeroAmount));
    t.internal_distribute(true, 100).unwrap();
    assert_eq!(t.withdraw(&s("a")), Ok(50));
    assert_eq!(t.withdraw(&s("b")), Ok(1));
}

#[test]
fn unclaimed_rewards_of_the_farm_token() {
    let mut rewards: StrMap<u128> = StrMap::new();
    rewards.insert(s("ref.near"), 42);
    assert_eq!(callback_post_unclaimed_rewards(Some(&rewards), &s("ref.near")), 42);
    assert_eq!(callback_post_unclaimed_rewards(Some(&rewards), &s("other.near")), 0);
    assert_eq!(callback_post_unclaimed_rewards(None, &s("ref.near")), 0);
}
