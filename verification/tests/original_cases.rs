use fluxus::fees::AccountFee;
use fluxus::ids::wrap_mft_token_id;
use fluxus::safe::Contract;
use fluxus::treasurer::Treasurer;

fn s(v: &str) -> String {
    v.to_string()
}

fn safe_contract() -> Contract {
    Contract::new(
        s("auto_compounder.near"),
        s("dev-1656420526638-61041719201929"),
        s("auto_compounder.near"),
    )
}

fn treasurer() -> Treasurer {
    Treasurer::new(s("auto_compounder.near"), s("wnear"), s("exchange.near"))
}

const OWNER: &str = "auto_compounder.near";

#[test]
fn test_mint() {
    let mut contract = safe_contract();
    contract.ledger.register_seed(s("fft_share_1"));
    let mut deposit = contract.ledger.mft_mint(s("fft_share_1"), 10, s("user1")).unwrap();
    assert_eq!(deposit, 10_u128);
    let balance = contract.ledger.users_fft_share_amount(&s("fft_share_1"), &s("user1"));
    assert_eq!(balance, 10_u128);
    deposit = contract.ledger.mft_mint(s("fft_share_1"), 10, s("user1")).unwrap();
    assert_eq!(deposit, 20_u128);
}

#[test]
fn test_burn() {
    let mut contract = safe_contract();
    contract.ledger.register_seed(s("fft_share_1"));
    let deposit = contract.ledger.mft_mint(s("fft_share_1"), 10, s("user1")).unwrap();
    assert_eq!(deposit, 10_u128);
    let mut balance = contract.ledger.mft_burn(s("fft_share_1"), 2, s("user1")).unwrap();
    assert_eq!(balance, 8_u128);
    balance = contract.ledger.total_supply_amount(&s("fft_share_1"));
    assert_eq!(balance, 8_u128);
}

#[test]
fn test_transfer() {
    let mut contract = safe_contract();
    contract.ledger.register_seed(s("fft_share_1"));
    let mut balance_user1 = contract.ledger.mft_mint(s("fft_share_1"), 10, s(OWNER)).unwrap();
    assert_eq!(balance_user1, 10_u128);
    let mut balance_user2 = contract.ledger.mft_mint(s("fft_share_1"), 10, s("user2")).unwrap();
    assert_eq!(balance_user2, 10_u128);
    let mut balance_user3 = contract.ledger.mft_mint(s("fft_share_1"), 999, s("user3")).unwrap();
    assert_eq!(balance_user3, 999_u128);
    let total_supply = contract.ledger.total_supply_amount(&s("fft_share_1"));
    assert_eq!(total_supply, 1019_u128);
    contract.mft_transfer(&s(OWNER), 1, s("fft_share_1"), s("user2"), 5).unwrap();
    balance_user1 = contract.ledger.users_fft_share_amount(&s("fft_share_1"), &s(OWNER));
    assert_eq!(balance_user1, 5_u128);
    balance_user2 = contract.ledger.users_fft_share_amount(&s("fft_share_1"), &s("user2"));
    assert_eq!(balance_user2, 15_u128);
    contract.mft_transfer(&s(OWNER), 1, s("fft_share_1"), s("user3"), 5).unwrap();
    balance_user1 = contract.ledger.users_fft_share_amount(&s("fft_share_1"), &s(OWNER));
    assert_eq!(balance_user1, 0_u128);
    balance_user3 = contract.ledger.users_fft_share_amount(&s("fft_share_1"), &s("user3"));
    assert_eq!(balance_user3, 1004_u128);
}

#[test]
#[should_panic]
fn test_update_token_pool() {
    let mut contract = treasurer();
    let token = s("usn.near");
    let pool_id = 100u64;
    contract.token_to_pool.insert(token.clone(), pool_id);
    contract.update_token_pool(&s(OWNER), &s(OWNER), token, pool_id + 1).unwrap();
    let token2 = s("dai.near");
    contract.update_token_pool(&s(OWNER), &s(OWNER), token2, pool_id).unwrap();
}

#[test]
fn test_get_token_to_pool() {
    let mut contract = treasurer();
    let token = s("usn.near");
    let pool_id = 100u64;
    contract.token_to_pool.insert(token.clone(), pool_id);
    let registered_tokens = contract.get_registered_tokens();
    assert_eq!(registered_tokens.len(), 1, "ERR_COULD_NOT_GET_REGISTERED_TOKENS");
    let pool = registered_tokens.get(&token).unwrap();
    assert_eq!(pool_id, *pool, "ERR_COULD_NOT_REGISTER_TOKENS");
}

#[test]
fn test_add_stakeholders() {
    let mut contract = treasurer();
    let acc0 = s("fluxus0");
    let acc1 = s("fluxus1");
    let fee0: u128 = 40;
    let fee1: u128 = 50;
    contract.add_stakeholder(&s(OWNER), &s(OWNER), acc0.clone(), fee0).unwrap();
    contract.add_stakeholder(&s(OWNER), &s(OWNER), acc1.clone(), fee1).unwrap();
    let stakeholders_fees = contract.get_stakeholders(&s(OWNER), &s(OWNER)).unwrap();
    assert_eq!(stakeholders_fees.get(&acc0), Some(&fee0));
    assert_eq!(stakeholders_fees.get(&acc1), Some(&fee1));
}

#[test]
fn test_remove_stakeholders() {
    let mut contract = treasurer();
    let acc0 = s("fluxus0");
    let fee0: u128 = 40;
    contract.add_stakeholder(&s(OWNER), &s(OWNER), acc0.clone(), fee0).unwrap();
    let stakeholders_fees = contract.get_stakeholders(&s(OWNER), &s(OWNER)).unwrap();
    assert_eq!(stakeholders_fees.len(), 1);
    contract.remove_stakeholder(&s(OWNER), &s(OWNER), &acc0).unwrap();
    let stakeholders_fees = contract.get_stakeholders(&s(OWNER), &s(OWNER)).unwrap();
    assert_eq!(stakeholders_fees.len(), 0);
}

#[test]
#[should_panic]
fn test_fee_greater_than_one() {
    let mut contract = treasurer();
    let acc0 = s("fluxus0");
    let acc1 = s("fluxus1");
    contract.add_stakeholder(&s(OWNER), &s(OWNER), acc0, 50).unwrap();
    contract.add_stakeholder(&s(OWNER), &s(OWNER), acc1, 60).unwrap();
}

#[test]
fn test_update_fee_percentage() {
    let mut contract = treasurer();
    let acc0 = s("fluxus0");
    let acc1 = s("fluxus1");
    let fee0: u128 = 50;
    let fee1: u128 = 40;
    contract.add_stakeholder(&s(OWNER), &s(OWNER), acc0.clone(), fee0).unwrap();
    contract.add_stakeholder(&s(OWNER), &s(OWNER), acc1.clone(), fee1).unwrap();
    let stakeholders_fees = contract.get_stakeholders(&s(OWNER), &s(OWNER)).unwrap();
    assert_eq!(stakeholders_fees.get(&acc0), Some(&fee0));
    let new_fee_percentage = 60u128;
    contract.update_stakeholder_percentage(&s(OWNER), &s(OWNER), &acc0, new_fee_percentage).unwrap();
    let stakeholders_fees = contract.get_stakeholders(&s(OWNER), &s(OWNER)).unwrap();
    let mut total_fees = 0u128;
    for (_, perc) in stakeholders_fees.entries.iter() {
        total_fees += perc;
    }
    assert_eq!(total_fees, 100u128, "ERR_WRONG_FEE_TOTAL_AMOUNT");
    assert_eq!(stakeholders_fees.get(&acc0), Some(&new_fee_percentage), "ERR_UPDATE_PERCENTAGE");
}

#[test]
fn test_storage() {
    let mut contract = safe_contract();
    let deposited_total: u128 = 1000000000000000000000000;
    let (what_is_deposited, _) = contract
        .storage_deposit(&s(OWNER), Some(s(OWNER)), Some(false), deposited_total)
        .unwrap();
    assert_eq!(what_is_deposited.total, deposited_total);
    assert_eq!(what_is_deposited.available, deposited_total - 1020000000000000000000_u128);
}

#[test]
fn test_unstorage() {
    let mut contract = safe_contract();
    let deposited_total: u128 = 1000000000000000000000000;
    let deposited_available: u128 = 998980000000000000000000;
    contract
        .storage_deposit(&s(OWNER), Some(s(OWNER)), Some(false), deposited_total)
        .unwrap();
    let (rest, _) = contract.storage_withdraw(&s(OWNER), Some(deposited_available)).unwrap();
    assert_eq!(rest.total, 1020000000000000000000_u128);
    assert_eq!(rest.available, 0_u128);
}

#[test]
fn test_storage_balance_of() {
    let mut contract = safe_contract();
    contract
        .storage_deposit(&s(OWNER), Some(s(OWNER)), Some(false), 1000000000000000000000000)
        .unwrap();
    let balance = contract.storage_balance_of(&s(OWNER)).unwrap();
    assert_eq!(balance.total, 1000000000000000000000000_u128);
    assert_eq!(balance.available, 998980000000000000000000_u128);
}

#[test]
fn test_unregister() {
    let mut contract = safe_contract();
    contract
        .storage_deposit(&s(OWNER), Some(s(OWNER)), Some(false), 1000000000000000000000000)
        .unwrap();
    let unregister = contract.storage_unregister(&s(OWNER)).unwrap();
    assert_eq!(unregister.is_some(), true);
}

#[test]
fn test_pool_to_token_id() {
    assert_eq!(wrap_mft_token_id("100"), s(":100"));
    assert_ne!(wrap_mft_token_id("100"), s("100"));
}

#[test]
fn test_whitelisted_tokens() {
    let mut contract = safe_contract();
    assert_eq!(contract.get_whitelisted_tokens(), Vec::<String>::new());
    contract.extend_whitelisted_tokens(&s(OWNER), vec![s("usn.near")]).unwrap();
    assert_eq!(contract.get_whitelisted_tokens(), vec![s("usn.near")]);
}

#[test]
#[should_panic]
fn test_allowed_accounts() {
    let mut contract = safe_contract();
    assert_eq!(contract.get_allowed_accounts(), vec![s(OWNER)]);
    contract.add_allowed_account(&s(OWNER), &s(OWNER), s("manager.near")).unwrap();
    assert_eq!(contract.get_allowed_accounts(), vec![s(OWNER), s("manager.near")]);
    contract.remove_allowed_account(&s(OWNER), &s(OWNER), &s(OWNER)).unwrap();
    assert_eq!(contract.get_allowed_accounts(), vec![s("manager.near")]);
    contract.remove_allowed_account(&s(OWNER), &s(OWNER), &s(OWNER)).unwrap();
}

#[test]
fn test_callers_checks() {
    let contract = safe_contract();
    assert!(contract.is_allowed_account(&s(OWNER)).is_ok());
    assert!(contract.is_owner(&s(OWNER), &s(OWNER)).is_ok());
    assert!(contract.is_caller(&s(OWNER), &s(OWNER), &s(OWNER)).is_ok());
    let result = contract.is_allowed_account(&s("fluxus.near"));
    assert!(result.is_err());
    let result = contract.is_owner(&s("fluxus.near"), &s(OWNER));
    assert!(result.is_err());
    let result = contract.is_caller(&s("fluxus.near"), &s(OWNER), &s("fluxus_finance.near"));
    assert!(result.is_err());
}

#[test]
fn account_fee_new_keeps_fee() {
    let fee = AccountFee::new(s("creator.near"), 5);
    assert_eq!(fee.fee_percentage, 5);
    assert_eq!(fee.current_amount, 0);
}

#[test]
fn test_update_minimum_deposit() {
    let mut contract = safe_contract();
    assert_eq!(
        contract.create_strategy(
            0,
            AccountFee::new(s("creator.near"), 0),
            0,
            s("ref.near"),
            s("farm.near"),
            s("eth.near"),
            s("dai.near"),
            1,
            100,
        ),
        s("VersionedStrategy for :1 created successfully")
    );
    let seed = s("ref.near@1");
    assert_eq!(contract.get_seed_min_deposit(&seed), Ok(100));
    contract.update_seed_min_deposit(&s(OWNER), &s(OWNER), &seed, 1000).unwrap();
    assert_eq!(contract.get_seed_min_deposit(&seed), Ok(1000));
}
