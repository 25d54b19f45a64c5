use fluxus::compounder::HarvestAction;
use fluxus::errors::SafeError;
use fluxus::farm::{AutoCompounderCycle, AutoCompounderState, JumboAutoCompounderState};
use fluxus::fees::AccountFee;
use fluxus::receiver::{LendCall, StakeCall};
use fluxus::safe::{Contract, RunningState, MIN_STORAGE_BALANCE};
use fluxus::strategy::{SupportedExchanges, VersionedStrategy};
use fluxus::strmap::StrMap;

const OWNER: &str = "owner.near";
const VAULT: &str = "vault.near";
const EXCHANGE: &str = "ref.near";
const FARM: &str = "farm.near";

fn s(v: &str) -> String {
    v.to_string()
}

fn vault() -> Contract {
    Contract::new(s(OWNER), s("treasury.near"), s(VAULT))
}

/// A vault with a Ref Finance strategy on pool 7 and one farm `0` on it.
fn vault_with_farm() -> Contract {
    let mut c = vault();
    assert_eq!(
        c.create_strategy(
            10,
            AccountFee::new(s("creator.near"), 10),
            10,
            s(EXCHANGE),
            s(FARM),
            s("token1.near"),
            s("token2.near"),
            7,
            100,
        ),
        s("VersionedStrategy for :7 created successfully")
    );
    c.add_farm_to_strategy(&s("ref.near@7"), 1, 2, s("reward.near"), s("0")).unwrap();
    c
}

#[test]
fn create_strategy_keys_it_by_exchange_and_pool() {
    let mut c = vault_with_farm();
    assert_eq!(c.get_allowed_tokens(), vec![s("ref.near@7")]);
    assert_eq!(c.get_strategy_kind(&s("ref.near@7")).unwrap(), s("REF_REGULAR"));
    assert_eq!(c.get_seed_min_deposit(&s("ref.near@7")), Ok(100));
    assert_eq!(c.number_of_strategies(), 1);
    assert_eq!(c.number_of_strategies_by_seed(&s("ref.near@7")), Ok(1));
    // a second strategy on the same pool is refused
    assert_eq!(
        c.create_strategy(
            5,
            AccountFee::new(s("other.near"), 1),
            1,
            s(EXCHANGE),
            s(FARM),
            s("a.near"),
            s("b.near"),
            7,
            1,
        ),
        s("E24: A versioned strategy with this parameters already exist.")
    );
    assert_eq!(c.get_seed_min_deposit(&s("ref.near@7")), Ok(100));
    assert_eq!(
        c.add_farm_to_strategy(&s("ref.near@7"), 1, 2, s("reward2.near"), s("1")),
        Ok(s("Farm with index 1 for ref.near@7 created successfully"))
    );
}

#[test]
fn check_fee_by_strategy_shows_percent() {
    let c = vault_with_farm();
    assert_eq!(c.check_fee_by_strategy(&s("ref.near@7")).unwrap(), s("10%"));
    assert_eq!(c.check_fee_by_strategy(&s("ref.near@8")), Err(SafeError::StrategyDoesNotExist));
}

#[test]
fn harvest_info_lists_each_farm() {
    let mut c = vault_with_farm();
    c.add_farm_to_strategy(&s("ref.near@7"), 1, 2, s("reward2.near"), s("1")).unwrap();
    let info = c.get_harvest_info();
    assert_eq!(info.len(), 2);
    assert_eq!(info[0].strat_kind, s("REF_REGULAR"));
    assert_eq!(info[0].seed_id, Some(s("ref.near@7")));
    assert_eq!(info[0].strat_name, None);
    assert_eq!(info[0].farm_id_str, Some(s("ref.near@7#0")));
    assert!(info[0].is_active);
    assert_eq!(info[0].reward_tokens, s("reward.near"));
    assert_eq!(info[0].fees.as_ref().unwrap().strategy_fee, 10);
    assert_eq!(info[1].farm_id_str, Some(s("ref.near@7#1")));
    assert_eq!(info[1].reward_tokens, s("reward2.near"));
}

#[test]
fn exchange_farm_lists_hold_their_kind_only() {
    let c = vault_with_farm();
    let ref_farms = c.get_strategies_info_for_ref_finance();
    assert_eq!(ref_farms.len(), 1);
    assert_eq!(ref_farms[0].id, s("0"));
    assert_eq!(ref_farms[0].available_balance, vec![0u128, 0u128]);
    assert_eq!(c.get_strategies_info_for_stable_ref_finance().len(), 0);
    assert_eq!(c.get_strategies_info_for_jumbo().len(), 0);
    assert_eq!(c.get_strategies_info_for_pembrock().len(), 0);
}

#[test]
fn farm_state_lookups() {
    let c = vault_with_farm();
    assert_eq!(c.get_strategy_for_ref_finance(&s("ref.near@7#0")), Ok(AutoCompounderState::Running));
    assert_eq!(c.get_strategy_for_ref_finance(&s("ref.near@7#9")), Err(SafeError::FarmDoesNotExist));
    assert_eq!(c.get_strategy_for_ref_finance(&s("ref.near@9#0")), Err(SafeError::StrategyDoesNotExist));
    assert_eq!(c.get_strategy_for_ref_finance(&s("no_separator")), Err(SafeError::InvalidFarmId));
    assert_eq!(c.get_strategy_for_jumbo(&s("ref.near@7#0")), Err(SafeError::WrongStrategyKind));
    assert_eq!(
        c.get_strategy_for_jumbo(&s("ref.near@9#0")),
        Err::<JumboAutoCompounderState, SafeError>(SafeError::StrategyDoesNotExist)
    );
    assert_eq!(c.current_strat_step(&s("ref.near@7#0"), &s("")).unwrap(), s("Reward"));
    assert!(c.is_strategy_active(&s("ref.near@7")).unwrap());
}

#[test]
fn ended_farm_makes_strategy_inactive() {
    let mut c = vault_with_farm();
    c.update_compounder_state(&s("ref.near@7#0"), AutoCompounderState::Ended).unwrap();
    assert_eq!(c.get_strategy_for_ref_finance(&s("ref.near@7#0")), Ok(AutoCompounderState::Ended));
    assert_eq!(c.is_strategy_active(&s("ref.near@7")), Ok(false));
    let stake = c.mft_on_transfer(&s(EXCHANGE), &s(":7"));
    assert!(matches!(stake, Err(SafeError::NoRunningStrategy)));
}

#[test]
fn shares_from_exchange_go_to_the_farm() {
    let c = vault_with_farm();
    let call: StakeCall = c.mft_on_transfer(&s(EXCHANGE), &s(":7")).unwrap();
    assert_eq!(call.seed_id, s("ref.near@7"));
    assert_eq!(call.exchange_contract_id, s(EXCHANGE));
    assert_eq!(call.farm_contract_id, s(FARM));
    assert_eq!(call.exchange, SupportedExchanges::RefFinance);
    assert!(matches!(c.mft_on_transfer(&s(EXCHANGE), &s(":8")), Err(SafeError::StrategyDoesNotExist)));
}

#[test]
fn token_without_pembrock_strategy_is_refused() {
    let mut c = vault_with_farm();
    let lend: Result<LendCall, SafeError> = c.ft_on_transfer(&s("usdt.near"));
    assert!(matches!(lend, Err(SafeError::StrategyDoesNotExist)));
    c.update_contract_state(&s(OWNER), &s(VAULT), RunningState::Paused).unwrap();
    assert!(matches!(c.ft_on_transfer(&s("usdt.near")), Err(SafeError::ContractPaused)));
}

#[test]
fn pembrock_strategy_lends_received_tokens() {
    let mut c = vault();
    let created = c
        .pembrock_create_strategy(
            &s(OWNER),
            &s(VAULT),
            10,
            AccountFee::new(s("creator.near"), 10),
            10,
            s(EXCHANGE),
            s("lend.pembrock.near"),
            s("rewards.pembrock.near"),
            s("usdt.near"),
            461,
            s("pem.near"),
        )
        .unwrap();
    assert_eq!(created, s("VersionedStrategy for usdt.near created successfully"));
    let lend = c.ft_on_transfer(&s("usdt.near")).unwrap();
    assert_eq!(lend.strat_name, s("pembrock@usdt.near"));
    assert_eq!(lend.pembrock_contract_id, s("lend.pembrock.near"));
    assert_eq!(lend.token_address, s("usdt.near"));
    let info = c.get_harvest_info();
    assert_eq!(info.len(), 1);
    assert_eq!(info[0].strat_kind, s("PEMBROCK"));
    assert_eq!(info[0].strat_name, Some(s("pembrock@usdt.near")));
    assert_eq!(info[0].farm_id_str, None);
    assert_eq!(c.get_strategies_info_for_pembrock().len(), 1);
    assert!(matches!(c.mft_on_transfer(&s("pembrock"), &s(":usdt.near")), Err(SafeError::WrongStrategyKind)));
}

#[test]
fn deposit_then_compound_then_withdraw() {
    let mut c = vault_with_farm();
    let seed = s("ref.near@7");
    // first deposit: one share per seed
    assert_eq!(c.callback_stake_result(&seed, &s("alice"), 100, Some(0)), Ok(100));
    // a stake the farm did not take whole is refused
    assert_eq!(c.callback_stake_result(&seed, &s("bob"), 50, Some(3)), Err(SafeError::StakeFailed));
    assert_eq!(c.callback_stake_result(&seed, &s("bob"), 50, None), Err(SafeError::StakeFailed));
    assert_eq!(c.callback_stake_result(&seed, &s("bob"), 50, Some(0)), Ok(50));
    // the harvest adds seed without minting
    assert_eq!(c.add_seed_shares(&seed, 150), Ok(300));
    assert_eq!(c.get_contract_amount(), Ok(300));
    // alice's 100 of 150 shares stand for 200 of the 300 seed
    assert_eq!(c.unstake(&seed, &s("alice"), None), Ok((200, 100)));
    // asking for 100 seed burns 50 shares
    assert_eq!(c.unstake(&seed, &s("alice"), Some(100)), Ok((100, 50)));
    // more than her shares stand for is refused
    assert_eq!(c.unstake(&seed, &s("alice"), Some(201)), Err(SafeError::NotEnoughBalance));
    // someone with no share is refused
    assert_eq!(c.unstake(&seed, &s("carol"), None), Err(SafeError::NotEnoughBalance));
    // the withdrawal goes through the exchange when it holds enough shares
    let order = c.callback_get_pool_shares(Some(500), &seed, 200).unwrap();
    assert_eq!(order.from_farm, None);
    assert_eq!(order.exchange_contract_id, s(EXCHANGE));
    // and takes the missing part from the farm otherwise
    let order = c.callback_get_pool_shares(Some(50), &seed, 200).unwrap();
    assert_eq!(order.from_farm, Some(150));
    assert_eq!(order.farm_contract_id, s(FARM));
    assert_eq!(order.farm_seed_id, s("ref.near@7"));
    assert!(matches!(c.callback_get_pool_shares(None, &seed, 200), Err(SafeError::PromiseFailed)));
    assert!(matches!(c.stable_callback_get_pool_shares(Some(1), &seed, 200), Err(SafeError::WrongStrategyKind)));
    assert!(matches!(c.callback_jumbo_get_pool_shares(Some(1), &seed, 200), Err(SafeError::WrongStrategyKind)));
    // a failed transfer changes nothing
    assert_eq!(c.callback_withdraw_shares(false, &seed, &s("alice"), 200, 100), Err(SafeError::PromiseFailed));
    assert_eq!(c.get_contract_amount(), Ok(300));
    c.callback_withdraw_shares(true, &seed, &s("alice"), 200, 100).unwrap();
    assert_eq!(c.get_contract_amount(), Ok(100));
    assert_eq!(c.unstake(&seed, &s("bob"), None), Ok((100, 50)));
}

#[test]
fn unknown_seed_has_no_shares() {
    let c = vault_with_farm();
    assert_eq!(c.unstake(&s("ref.near@8"), &s("alice"), None), Err(SafeError::SeedDoesNotExist));
    assert_eq!(c.unstake(&s("ref.near@7"), &s("alice"), None), Err(SafeError::NotEnoughBalance));
}

#[test]
fn storage_deposit_below_minimum_is_refused() {
    let mut c = vault();
    let r = c.storage_deposit(&s("alice"), None, None, MIN_STORAGE_BALANCE - 1);
    assert!(matches!(r, Err(SafeError::DepositLessThanMinStorage)));
    assert!(c.storage_balance_of(&s("alice")).is_none());
    assert!(matches!(c.storage_withdraw(&s("alice"), None), Err(SafeError::AccountNotRegistered)));
}

#[test]
fn storage_withdraw_more_than_available_is_refused() {
    let mut c = vault();
    c.storage_deposit(&s("alice"), None, None, MIN_STORAGE_BALANCE + 10).unwrap();
    let b = c.storage_balance_of(&s("alice")).unwrap();
    assert_eq!(b.total, MIN_STORAGE_BALANCE + 10);
    assert_eq!(b.available, 10);
    assert!(matches!(c.storage_withdraw(&s("alice"), Some(11)), Err(SafeError::NotEnoughBalance)));
    let (rest, sent) = c.storage_withdraw(&s("alice"), Some(4)).unwrap();
    assert_eq!(sent, 4);
    assert_eq!(rest.available, 6);
    assert_eq!(c.storage_balance_bounds(), (MIN_STORAGE_BALANCE, None));
}

#[test]
fn owner_checks() {
    let mut c = vault();
    assert_eq!(c.update_contract_state(&s("mallory"), &s(VAULT), RunningState::Paused), Err(SafeError::NotAllowed));
    assert_eq!(c.get_contract_state(&s(VAULT)), s("vault.near is Running"));
    c.update_contract_state(&s(OWNER), &s(VAULT), RunningState::Paused).unwrap();
    assert_eq!(c.get_contract_state(&s(VAULT)), s("vault.near is Paused"));
    assert_eq!(c.mft_transfer(&s("alice"), 1, s(":7"), s("bob"), 1), Err(SafeError::ContractPaused));
}

#[test]
fn guardians_may_read_every_strategy() {
    let mut c = vault_with_farm();
    assert!(matches!(c.get_strats_info(&s("guard.near")), Err(SafeError::NotAllowed)));
    c.extend_guardians(&s(OWNER), &s(VAULT), vec![s("guard.near")]).unwrap();
    assert_eq!(c.get_guardians(), vec![s("guard.near")]);
    let strats = c.get_strats_info(&s("guard.near")).unwrap();
    assert_eq!(strats.len(), 1);
    assert!(!strats[0].need_upgrade());
    c.remove_guardians(&s(OWNER), &s(VAULT), vec![s("guard.near")]).unwrap();
    assert!(matches!(c.get_strats_info(&s("guard.near")), Err(SafeError::NotAllowed)));
}

#[test]
fn transfer_to_self_and_overdraft_are_refused() {
    let mut c = vault_with_farm();
    let seed = s("ref.near@7");
    c.callback_stake_result(&seed, &s("alice"), 100, Some(0)).unwrap();
    let share = c.ledger.fft_token_seed_id(&seed).unwrap();
    assert_eq!(c.mft_transfer(&s("alice"), 1, share.clone(), s("alice"), 1), Err(SafeError::TransferToSelf));
    assert_eq!(c.mft_transfer(&s("alice"), 1, share.clone(), s("bob"), 101), Err(SafeError::NotEnoughBalance));
    assert_eq!(c.mft_transfer(&s("alice"), 0, share.clone(), s("bob"), 1), Err(SafeError::DepositNotOneYocto));
    assert_eq!(c.mft_transfer(&s("alice"), 2, share.clone(), s("bob"), 1), Err(SafeError::DepositNotOneYocto));
    c.mft_transfer(&s("alice"), 1, share.clone(), s("bob"), 40).unwrap();
    assert_eq!(c.ledger.users_fft_share_amount(&share, &s("bob")), 40);
    // bob's call used 10 of the 40: 30 go back to alice, who is not registered, so to the owner
    assert_eq!(c.mft_resolve_transfer(share.clone(), s("alice"), s("bob"), 40, Some(30)), Ok(30));
    assert_eq!(c.ledger.users_fft_share_amount(&share, &s("bob")), 10);
    assert_eq!(c.ledger.users_fft_share_amount(&share, &s(OWNER)), 30);
    assert_eq!(c.ledger.total_supply_amount(&share), 100);
}

#[test]
fn delete_strategy_needs_a_name() {
    let mut c = vault_with_farm();
    assert_eq!(c.delete_strategy(None, None), Err(SafeError::NoArguments));
    assert_eq!(c.get_harvest_info().len(), 1);
    c.delete_strategy(Some(s("ref.near@7#0")), None).unwrap();
    assert_eq!(c.get_harvest_info().len(), 0);
    assert_eq!(c.number_of_strategies_by_seed(&s("ref.near@7")), Ok(0));
    c.delete_strategy(None, Some(s("ref.near@7"))).unwrap();
    assert_eq!(c.number_of_strategies(), 0);
}

#[test]
fn running_farm_without_rewards_is_refused() {
    let mut c = vault_with_farm();
    let i = c.strategies.find(&s("ref.near@7")).unwrap();
    match c.strategies.value_at_mut(i) {
        VersionedStrategy::AutoCompounder(a) => {
            let r = a.callback_post_get_unclaimed_reward(0, StrMap::new());
            assert!(matches!(r, Err(SafeError::ZeroRewardsEarned)));
            a.farms[0].state = AutoCompounderState::Ended;
            let r = a.callback_post_get_unclaimed_reward(0, StrMap::new());
            assert!(matches!(r, Ok(None)));
            assert_eq!(a.farms[0].state, AutoCompounderState::Cleared);
        }
        _ => panic!("not a Ref Finance strategy"),
    }
}

#[test]
fn stable_farm_token_must_be_in_the_pool() {
    let mut c = vault();
    assert_eq!(c.create_stable_strategy(10, AccountFee::new(s("creator.near"), 10), 10, s(EXCHANGE), s(FARM), 9, 1), s("VersionedStrategy for :9 created successfully"));
    let seed = s("ref.near@9");
    assert_eq!(
        c.add_farm_to_stable_strategy(&seed, s("usdt.near"), 3, 5, s("usdt.near"), vec![0, 0], s("0")),
        Ok(s("Farm with index 0 for ref.near@9 created successfully"))
    );
    // the same farm id again is not added
    assert_eq!(
        c.add_farm_to_stable_strategy(&seed, s("usdt.near"), 3, 1, s("usdt.near"), vec![0, 0], s("0")),
        Ok(s("E25: This farm_id already has a correspondent farm."))
    );
    let i = c.strategies.find(&seed).unwrap();
    match c.strategies.value_at_mut(i) {
        VersionedStrategy::StableAutoCompounder(a) => a.farms[0].cycle_stage = AutoCompounderCycle::Swap,
        _ => panic!("not a stable strategy"),
    }
    let r = c.harvest(&s("ref.near@9#0"), &s(""), &s(VAULT), &s("sentry.near"));
    assert!(matches!(r, Err(SafeError::InvalidTokenPosition)));
    assert_eq!(c.get_strategies_info_for_stable_ref_finance().len(), 1);
    assert_eq!(c.get_strategy_for_ref_finance(&s("ref.near@9#0")), Ok(AutoCompounderState::Running));
}

#[test]
fn harvest_starts_by_claiming() {
    let mut c = vault_with_farm();
    let r = c.harvest(&s("ref.near@7#0"), &s(""), &s(VAULT), &s("sentry.near"));
    match r {
        Ok(HarvestAction::ClaimReward { seed_id }) => assert_eq!(seed_id, s("ref.near@7")),
        _ => panic!("the first stage claims the rewards"),
    }
    let r = c.harvest(&s("ref.near@7#5"), &s(""), &s(VAULT), &s("sentry.near"));
    assert!(matches!(r, Err(SafeError::FarmDoesNotExist)));
    let r = c.harvest(&s("bad"), &s(""), &s(VAULT), &s("sentry.near"));
    assert!(matches!(r, Err(SafeError::InvalidFarmId)));
}

#[test]
fn jumbo_harvest_adds_the_new_shares_to_the_seed() {
    let mut c = vault();
    assert_eq!(
        c.create_jumbo_strategy(
            10,
            AccountFee::new(s("creator.near"), 10),
            10,
            s("jumbo.near"),
            s("jumbo-farm.near"),
            s("a.near"),
            s("b.near"),
            3,
            50,
        ),
        s("VersionedStrategy for jumbo.near@3 created successfully")
    );
    let seed = s("jumbo.near@3");
    assert_eq!(
        c.add_farm_to_jumbo_strategy(&seed, 1, 2, s("jmb.near"), s("0")),
        Ok(s("Farm with index 0 for jumbo.near@3 created successfully"))
    );
    assert_eq!(c.callback_jumbo_post_get_pool_shares(&s("jumbo.near@3#0"), None), Err(SafeError::PromiseFailed));
    assert_eq!(
        c.callback_jumbo_post_get_pool_shares(&s("jumbo.near@3#1"), Some(10)),
        Err(SafeError::FarmDoesNotExist)
    );
    assert_eq!(c.callback_jumbo_post_get_pool_shares(&s("ref.near@7#0"), Some(10)), Err(SafeError::StrategyDoesNotExist));
    // below the minimum deposit: recorded, not staked
    assert_eq!(c.callback_jumbo_post_get_pool_shares(&s("jumbo.near@3#0"), Some(30)), Ok(None));
    assert_eq!(c.ledger.seed_total_amount(&seed), Some(30));
    // the next answer counts only the shares beyond those waiting
    assert_eq!(c.callback_jumbo_post_get_pool_shares(&s("jumbo.near@3#0"), Some(80)), Ok(Some(80)));
    assert_eq!(c.ledger.seed_total_amount(&seed), Some(80));
    assert_eq!(c.get_strategies_info_for_jumbo()[0].current_shares_to_stake, 80);
    assert_eq!(c.get_strategy_for_jumbo(&s("jumbo.near@3#0")), Ok(JumboAutoCompounderState::Running));
}

#[test]
fn resolve_returns_what_was_refunded() {
    let mut c = vault_with_farm();
    let seed = s("ref.near@7");
    c.callback_stake_result(&seed, &s("alice"), 100, Some(0)).unwrap();
    let share = c.ledger.fft_token_seed_id(&seed).unwrap();
    // the receiver holds nothing: nothing is refunded
    assert_eq!(c.mft_resolve_transfer(share.clone(), s("alice"), s("bob"), 40, None), Ok(0));
    c.mft_transfer(&s("alice"), 1, share.clone(), s("bob"), 10).unwrap();
    // 40 unused but bob holds 10: 10 come back
    assert_eq!(c.mft_resolve_transfer(share.clone(), s("alice"), s("bob"), 40, None), Ok(10));
    assert_eq!(c.ledger.users_fft_share_amount(&share, &s("bob")), 0);
    // nothing unused
    assert_eq!(c.mft_resolve_transfer(share.clone(), s("alice"), s("bob"), 40, Some(0)), Ok(0));
}

#[test]
fn withdrawn_reward_owes_the_protocol_fee_to_the_treasury() {
    let mut c = vault_with_farm();
    let i = c.strategies.find(&s("ref.near@7")).unwrap();
    match c.strategies.value_at_mut(i) {
        VersionedStrategy::AutoCompounder(a) => a.farms[0].last_reward_amount = 1000,
        _ => panic!("not a Ref Finance strategy"),
    }
    assert_eq!(c.callback_post_withdraw(false, &s("ref.near@7#0"), &s(VAULT)), Err(SafeError::PromiseFailed));
    assert_eq!(c.callback_post_withdraw(true, &s("ref.near@7#3"), &s(VAULT)), Err(SafeError::FarmDoesNotExist));
    assert_eq!(c.treasury.current_amount, 0);
    assert_eq!(c.callback_post_withdraw(true, &s("ref.near@7#0"), &s(VAULT)), Ok(980));
    assert_eq!(c.treasury.current_amount, 80);
    match c.get_strat(&s("ref.near@7")).unwrap() {
        VersionedStrategy::AutoCompounder(a) => {
            assert_eq!(a.farms[0].last_reward_amount, 900);
            assert_eq!(a.admin_fees.strat_creator.current_amount, 10);
            assert_eq!(a.admin_fees.sentries.get(&s(VAULT)), Some(&10));
        }
        _ => panic!("not a Ref Finance strategy"),
    }
    assert_eq!(c.stable_callback_post_withdraw(true, &s("ref.near@7#0"), &s(VAULT)), Err(SafeError::WrongStrategyKind));
    assert_eq!(c.callback_jumbo_post_withdraw(true, &s("ref.near@7#0"), &s(VAULT)), Err(SafeError::WrongStrategyKind));
}

#[test]
fn jumbo_withdrawn_reward_owes_the_protocol_fee_to_the_treasury() {
    let mut c = vault();
    assert_eq!(
        c.create_jumbo_strategy(
            10,
            AccountFee::new(s("creator.near"), 10),
            10,
            s("jumbo.near"),
            s("jumbo-farm.near"),
            s("a.near"),
            s("b.near"),
            3,
            50,
        ),
        s("VersionedStrategy for jumbo.near@3 created successfully")
    );
    c.add_farm_to_jumbo_strategy(&s("jumbo.near@3"), 1, 2, s("jmb.near"), s("0")).unwrap();
    let i = c.strategies.find(&s("jumbo.near@3")).unwrap();
    match c.strategies.value_at_mut(i) {
        VersionedStrategy::JumboAutoCompounder(a) => a.farms[0].last_reward_amount = 500,
        _ => panic!("not a Jumbo strategy"),
    }
    assert_eq!(c.callback_jumbo_post_withdraw(true, &s("jumbo.near@3#0"), &s(VAULT)), Ok(490));
    assert_eq!(c.treasury.current_amount, 40);
}

#[test]
fn pembrock_claim_owes_the_protocol_fee_to_the_treasury() {
    let mut c = vault();
    c.pembrock_create_strategy(
        &s(OWNER),
        &s(VAULT),
        10,
        AccountFee::new(s("creator.near"), 10),
        10,
        s(EXCHANGE),
        s("lend.pembrock.near"),
        s("rewards.pembrock.near"),
        s("usdt.near"),
        461,
        s("pem.near"),
    )
    .unwrap();
    let name = s("pembrock@usdt.near");
    assert!(matches!(c.callback_pembrock_rewards(&name, None, &s(VAULT)), Err(SafeError::PromiseFailed)));
    assert!(matches!(c.callback_pembrock_rewards(&name, Some(0), &s(VAULT)), Err(SafeError::ZeroRewardsEarned)));
    assert!(matches!(
        c.callback_pembrock_rewards(&s("pembrock@dai.near"), Some(5), &s(VAULT)),
        Err(SafeError::StrategyDoesNotExist)
    ));
    let plan = c.callback_pembrock_rewards(&name, Some(1000), &s(VAULT)).unwrap();
    assert_eq!(plan.protocol_amount, 80);
    assert_eq!(c.treasury.current_amount, 80);
    assert_eq!(c.current_strat_step(&s(""), &name).unwrap(), s("SwapAndLend"));
}

#[test]
fn only_the_owner_sets_the_minimum_deposit() {
    let mut c = vault_with_farm();
    let seed = s("ref.near@7");
    assert_eq!(c.update_seed_min_deposit(&s("mallory"), &s(VAULT), &seed, 5), Err(SafeError::NotAllowed));
    assert_eq!(c.update_seed_min_deposit(&s(OWNER), &s(VAULT), &s("ref.near@8"), 5), Err(SafeError::StrategyDoesNotExist));
    assert_eq!(c.update_seed_min_deposit(&s(OWNER), &s(VAULT), &seed, 5), Ok(5));
    assert_eq!(c.get_seed_min_deposit(&seed), Ok(5));
    assert_eq!(c.get_harvest_info().len(), 1);
}
