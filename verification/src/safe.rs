//! The vault: its owner and guardians, its treasury, its strategies and the
//! ledger of its shares.
use vstd::prelude::*;
use crate::errors::SafeError;
use crate::fees::{compute_fees, fee_split, AccountFee};
use crate::shares::ShareLedger;
use crate::strategy::{fees_of, harvest_proxy_step, kind_name, reward_token_views, strategy_active, AutoCompounderInfo, VersionedStrategy};
use crate::compounder::{first_farm, has_farm, lemma_first_farm, lemma_no_farm, others_unchanged, HarvestAction};
use crate::ids::{decimal, farm_farm_id, farm_seed_id, get_ids_from_farm, is_farm_id, is_farm_id_spec, joined, seed_id_of, wrap_mft_token_id, wrapped_token_id};
use crate::compounder::AutoCompounder;
use crate::stable::StableAutoCompounder;
use crate::jumbo::JumboAutoCompounder;
use crate::pembrock::PembrockAutoCompounder;
use crate::shares::{deposit_step, fft_share_name, unstake_plan_is, withdraw_step};
use crate::farm::{StratFarmView, cycle_name, jumbo_cycle_name, pemb_cycle_name, AutoCompounderCycle, AutoCompounderState, JumboAutoCompounderCycle, JumboAutoCompounderState, StratFarmInfo, StableStratFarmInfo, JumboStratFarmInfo, DEFAULT_SLIPPAGE};
use crate::strmap::lemma_map_of_update;
use crate::strmap::StrMap;
use crate::messages::{farm_created, farm_created_message, farm_exists, farm_exists_message, strategy_created, strategy_created_message, strategy_exists, strategy_exists_message};

verus! {

/// The least NEAR an account holds for its storage once registered.
pub const MIN_STORAGE_BALANCE: u128 = 1_020_000_000_000_000_000_000;

/// The NEAR an account holds for its storage, and how much of it is free.
#[derive(PartialEq, Eq, Structural, Clone, Copy, Debug)]
pub struct StorageBalance {
    pub total: u128,
    pub available: u128,
}

/// Whether the vault takes deposits and harvests.
#[derive(PartialEq, Eq, Structural, Clone, Copy, Debug)]
pub enum RunningState {
    Running,
    Paused,
}

impl RunningState {
    /// `Running` or `Paused`.
    pub fn name(&self) -> (res: String)
        ensures
            res@ == (if *self == RunningState::Running {
                seq!['R', 'u', 'n', 'n', 'i', 'n', 'g']
            } else {
                seq!['P', 'a', 'u', 's', 'e', 'd']
            }),
    {
        match self {
            RunningState::Running => {
                let r = String::from_str("Running");
                proof {
                    reveal_strlit("Running");
                }
                assert(r@ =~= seq!['R', 'u', 'n', 'n', 'i', 'n', 'g']);
                r
            },
            RunningState::Paused => {
                let r = String::from_str("Paused");
                proof {
                    reveal_strlit("Paused");
                }
                assert(r@ =~= seq!['P', 'a', 'u', 's', 'e', 'd']);
                r
            },
        }
    }
}

/// The vault's state.
pub struct Contract {
    /// Account that administers the vault.
    pub owner_id: String,
    /// Accounts that may administer strategies besides the owner.
    pub guardians: StrMap<()>,
    /// The treasury and the fees it is owed.
    pub treasury: AccountFee,
    /// Accounts allowed to call restricted methods.
    pub allowed_accounts: Vec<String>,
    /// Tokens the vault accepts.
    pub whitelisted_tokens: StrMap<()>,
    /// Whether the vault runs.
    pub state: RunningState,
    /// NEAR each user deposited for storage.
    pub users_total_near_deposited: StrMap<u128>,
    /// NEAR held for the storage of each registered account.
    pub accounts: StrMap<u128>,
    /// Balances and supplies of the share tokens, and the seeds held.
    pub ledger: ShareLedger,
    /// The strategy of every seed id (or strategy name).
    pub strategies: StrMap<VersionedStrategy>,
}

impl Contract {
    /// Well-formedness: every map is, and so is every strategy.
    pub open spec fn wf(&self) -> bool {
        &&& self.guardians.wf()
        &&& self.whitelisted_tokens.wf()
        &&& self.users_total_near_deposited.wf()
        &&& self.accounts.wf()
        &&& forall|a: Seq<char>| #[trigger] self.accounts@.dom().contains(a) ==> self.users_total_near_deposited@.dom().contains(a)
            && self.accounts@[a] >= MIN_STORAGE_BALANCE
        &&& self.ledger.wf()
        &&& self.strategies.wf()
        &&& forall|k: Seq<char>| #[trigger] self.strategies@.dom().contains(k) ==> self.strategies@[k].wf()
    }

    /// The allowed accounts, as texts.
    pub open spec fn allowed_views(&self) -> Seq<Seq<char>> {
        self.allowed_accounts@.map_values(|a: String| a@)
    }

    /// `caller` owns the vault, or is the vault itself.
    pub open spec fn owner_call(&self, caller: Seq<char>, current_account: Seq<char>) -> bool {
        caller == current_account || caller == self.owner_id@
    }

    /// `caller` is the owner or a guardian.
    pub open spec fn owner_or_guardian(&self, caller: Seq<char>) -> bool {
        caller == self.owner_id@ || self.guardians@.dom().contains(caller)
    }

    /// A new vault of `owner_id`, whose treasury is `treasure_contract_id`
    /// (taking 10 percent), running, allowing only itself
    /// (`current_account`), with no strategy, share or deposit.
    pub fn new(owner_id: String, treasure_contract_id: String, current_account: String) -> (res: Self)
        ensures
            res.wf(),
            res.owner_id == owner_id,
            res.guardians@ == Map::<Seq<char>, ()>::empty(),
            res.treasury.account_id == treasure_contract_id,
            res.treasury.fee_percentage == 10,
            res.treasury.current_amount == 0,
            res.allowed_accounts@.len() == 1,
            res.allowed_accounts@[0] == current_account,
            res.whitelisted_tokens@ == Map::<Seq<char>, ()>::empty(),
            res.state == RunningState::Running,
            res.users_total_near_deposited@ == Map::<Seq<char>, u128>::empty(),
            res.accounts@ == Map::<Seq<char>, u128>::empty(),
            res.strategies@ == Map::<Seq<char>, VersionedStrategy>::empty(),
            forall|s: Seq<char>, u: Seq<char>| #[trigger] res.ledger.balance_of(s, u) == 0,
            forall|s: Seq<char>| #[trigger] res.ledger.supply_of(s) == 0,
            res.ledger.fft_share_by_seed_id@ == Map::<Seq<char>, String>::empty(),
            res.ledger.seed_id_amount@ == Map::<Seq<char>, u128>::empty(),
    {
        let mut allowed_accounts: Vec<String> = Vec::new();
        allowed_accounts.push(current_account);
        Contract {
            owner_id,
            guardians: StrMap::new(),
            treasury: AccountFee { account_id: treasure_contract_id, fee_percentage: 10, current_amount: 0 },
            allowed_accounts,
            whitelisted_tokens: StrMap::new(),
            state: RunningState::Running,
            users_total_near_deposited: StrMap::new(),
            accounts: StrMap::new(),
            ledger: ShareLedger::new(),
            strategies: StrMap::new(),
        }
    }

    /// Refused (`NotAllowed`) unless `caller` owns the vault or is the vault.
    pub fn is_owner(&self, caller: &String, current_account: &String) -> (res: Result<(), SafeError>)
        ensures
            res is Ok <==> self.owner_call(caller@, current_account@),
            res matches Err(e) ==> e == SafeError::NotAllowed,
    {
        if *caller == *current_account || *caller == self.owner_id {
            Ok(())
        } else {
            Err(SafeError::NotAllowed)
        }
    }

    /// Whether `caller` is the owner or a guardian.
    pub fn is_owner_or_guardians(&self, caller: &String) -> (res: bool)
        requires
            self.wf(),
        ensures
            res == self.owner_or_guardian(caller@),
    {
        *caller == self.owner_id || self.guardians.contains_key(caller)
    }

    /// Refused (`NotAllowed`) unless `caller` is `account_id` or the vault.
    pub fn is_caller(&self, caller: &String, current_account: &String, account_id: &String) -> (res: Result<(), SafeError>)
        ensures
            res is Ok <==> (caller@ == account_id@ || caller@ == current_account@),
            res matches Err(e) ==> e == SafeError::NotAllowed,
    {
        if *caller == *account_id || *caller == *current_account {
            Ok(())
        } else {
            Err(SafeError::NotAllowed)
        }
    }

    /// Refused (`NotAllowed`) unless `caller` is an allowed account.
    pub fn is_allowed_account(&self, caller: &String) -> (res: Result<(), SafeError>)
        ensures
            res is Ok <==> self.allowed_views().contains(caller@),
            res matches Err(e) ==> e == SafeError::NotAllowed,
    {
        let mut i: usize = 0;
        while i < self.allowed_accounts.len()
            invariant
                i <= self.allowed_accounts@.len(),
                forall|j: int| 0 <= j < i ==> (#[trigger] self.allowed_accounts@[j])@ != caller@,
            decreases self.allowed_accounts@.len() - i,
        {
            if self.allowed_accounts[i] == *caller {
                assert(self.allowed_views()[i as int] == caller@);
                return Ok(());
            }
            i = i + 1;
        }
        proof {
            if self.allowed_views().contains(caller@) {
                let j = choose|j: int| 0 <= j < self.allowed_views().len() && self.allowed_views()[j] == caller@;
                assert(self.allowed_accounts@[j]@ == caller@);
            }
        }
        Err(SafeError::NotAllowed)
    }

    /// The owner (or the vault) sets whether the vault runs.
    pub fn update_contract_state(&mut self, caller: &String, current_account: &String, state: RunningState) -> (res:
        Result<(), SafeError>)
        ensures
            res is Ok <==> old(self).owner_call(caller@, current_account@),
            res is Ok ==> *final(self) == (Contract { state, ..*old(self) }),
            res is Err ==> res == Err::<(), SafeError>(SafeError::NotAllowed) && *final(self) == *old(self),
    {
        self.is_owner(caller, current_account)?;
        self.state = state;
        Ok(())
    }

    /// The owner (or the vault) sets the treasury's account.
    pub fn update_treasure_contract(&mut self, caller: &String, current_account: &String, contract_id: String) -> (res:
        Result<(), SafeError>)
        ensures
            res is Ok <==> old(self).owner_call(caller@, current_account@),
            res is Ok ==> *final(self) == (Contract {
                treasury: AccountFee { account_id: contract_id, ..old(self).treasury },
                ..*old(self)
            }),
            res is Err ==> res == Err::<(), SafeError>(SafeError::NotAllowed) && *final(self) == *old(self),
    {
        self.is_owner(caller, current_account)?;
        self.treasury.account_id = contract_id;
        Ok(())
    }

    /// The owner (or the vault) adds guardians.
    pub fn extend_guardians(&mut self, caller: &String, current_account: &String, guardians: Vec<String>) -> (res:
        Result<(), SafeError>)
        requires
            old(self).wf(),
        ensures
            final(self).wf(),
            res is Ok <==> old(self).owner_call(caller@, current_account@),
            res is Err ==> res == Err::<(), SafeError>(SafeError::NotAllowed) && *final(self) == *old(self),
            res is Ok ==> (forall|g: Seq<char>| #[trigger] final(self).guardians@.dom().contains(g) <==> (old(
                self,
            ).guardians@.dom().contains(g) || listed(guardians@, g))) && final(self).owner_id == old(self).owner_id && final(self).strategies == old(self).strategies
                && final(self).ledger == old(self).ledger && final(self).treasury == old(self).treasury,
    {
        self.is_owner(caller, current_account)?;
        let mut i: usize = 0;
        while i < guardians.len()
            invariant
                i <= guardians@.len(),
                self.guardians.wf(),
                forall|g: Seq<char>| #[trigger] self.guardians@.dom().contains(g) <==> (old(self).guardians@.dom().contains(g)
                    || listed(guardians@.take(i as int), g)),
                *self == (Contract { guardians: self.guardians, ..*old(self) }),
                old(self).wf(),
            decreases guardians@.len() - i,
        {
            self.guardians.insert(guardians[i].clone(), ());
            proof {
                lemma_listed_take(guardians@, i as int);
            }
            i = i + 1;
        }
        assert(guardians@.take(guardians@.len() as int) =~= guardians@);
        Ok(())
    }

    /// The owner (or the vault) removes guardians.
    pub fn remove_guardians(&mut self, caller: &String, current_account: &String, guardians: Vec<String>) -> (res:
        Result<(), SafeError>)
        requires
            old(self).wf(),
        ensures
            final(self).wf(),
            res is Ok <==> old(self).owner_call(caller@, current_account@),
            res is Err ==> res == Err::<(), SafeError>(SafeError::NotAllowed) && *final(self) == *old(self),
            res is Ok ==> (forall|g: Seq<char>| #[trigger] final(self).guardians@.dom().contains(g) <==> (old(
                self,
            ).guardians@.dom().contains(g) && !listed(guardians@, g))) && final(self).owner_id == old(self).owner_id && final(self).strategies == old(self).strategies
                && final(self).ledger == old(self).ledger && final(self).treasury == old(self).treasury,
    {
        self.is_owner(caller, current_account)?;
        let mut i: usize = 0;
        while i < guardians.len()
            invariant
                i <= guardians@.len(),
                self.guardians.wf(),
                forall|g: Seq<char>| #[trigger] self.guardians@.dom().contains(g) <==> (old(self).guardians@.dom().contains(g)
                    && !listed(guardians@.take(i as int), g)),
                *self == (Contract { guardians: self.guardians, ..*old(self) }),
                old(self).wf(),
            decreases guardians@.len() - i,
        {
            self.guardians.remove(&guardians[i]);
            proof {
                lemma_listed_take(guardians@, i as int);
            }
            i = i + 1;
        }
        assert(guardians@.take(guardians@.len() as int) =~= guardians@);
        Ok(())
    }
}


/// The call of the harvest names its strategy: by `strat_name`, with a farm
/// id string that is empty or well formed, or by the seed of a well-formed
/// farm id string.
pub open spec fn harvest_names_strategy(farm_id_str: Seq<char>, strat_name: Seq<char>) -> bool {
    if strat_name.len() > 0 {
        farm_id_str.len() == 0 || is_farm_id_spec(farm_id_str)
    } else {
        is_farm_id_spec(farm_id_str)
    }
}

/// The strategy a call of the harvest names.
pub open spec fn harvest_key(farm_id_str: Seq<char>, strat_name: Seq<char>) -> Seq<char> {
    if strat_name.len() > 0 {
        strat_name
    } else {
        farm_seed_id(farm_id_str)
    }
}

/// A part of a farm id string, empty where the string is.
pub open spec fn part_or_empty(farm_id_str: Seq<char>, part: Seq<char>) -> Seq<char> {
    if farm_id_str.len() == 0 {
        Seq::empty()
    } else {
        part
    }
}

impl Contract {
    /// A call of the harvest by the sentry `predecessor`, for the farm
    /// `farm_id_str` (`exchange@pool_id#farm_id`) or the strategy
    /// `strat_name`: the strategy named moves on as
    /// [`harvest_proxy_step`] says, with the vault's treasury. Refused where
    /// the names are not well formed (`InvalidFarmId`) or name no strategy
    /// (`StrategyDoesNotExist`).
    pub fn harvest(
        &mut self,
        farm_id_str: &String,
        strat_name: &String,
        current_account: &String,
        predecessor: &String,
    ) -> (res: Result<HarvestAction, SafeError>)
        requires
            old(self).wf(),
        ensures
            final(self).wf(),
            !harvest_names_strategy(farm_id_str@, strat_name@) ==> res == Err::<HarvestAction, SafeError>(
                SafeError::InvalidFarmId,
            ) && *final(self) == *old(self),
            harvest_names_strategy(farm_id_str@, strat_name@) && !old(self).strategies@.dom().contains(
                harvest_key(farm_id_str@, strat_name@),
            ) ==> res == Err::<HarvestAction, SafeError>(SafeError::StrategyDoesNotExist) && *final(self)
                == *old(self),
            harvest_names_strategy(farm_id_str@, strat_name@) && old(self).strategies@.dom().contains(
                harvest_key(farm_id_str@, strat_name@),
            ) ==> {
                let key = harvest_key(farm_id_str@, strat_name@);
                &&& final(self).strategies@ == old(self).strategies@.insert(key, final(self).strategies@[key])
                &&& harvest_proxy_step(
                    old(self).strategies@[key],
                    final(self).strategies@[key],
                    part_or_empty(farm_id_str@, farm_farm_id(farm_id_str@)),
                    part_or_empty(farm_id_str@, farm_seed_id(farm_id_str@)),
                    old(self).treasury,
                    current_account@,
                    predecessor@,
                    res,
                )
                &&& final(self).treasury == old(self).treasury
                &&& final(self).ledger == old(self).ledger
                &&& final(self).owner_id == old(self).owner_id
            },
    {
        let named = if strat_name.unicode_len() > 0 {
            farm_id_str.unicode_len() == 0 || is_farm_id(farm_id_str.as_str())
        } else {
            is_farm_id(farm_id_str.as_str())
        };
        if !named {
            return Err(SafeError::InvalidFarmId);
        }
        let (seed_id, farm_id) = if farm_id_str.unicode_len() == 0 {
            (String::new(), String::new())
        } else {
            let (seed, _, farm) = get_ids_from_farm(farm_id_str.clone());
            (seed, farm)
        };
        let key = if strat_name.unicode_len() > 0 {
            strat_name.clone()
        } else {
            seed_id.clone()
        };
        let i = match self.strategies.find(&key) {
            Some(i) => i,
            None => return Err(SafeError::StrategyDoesNotExist),
        };
        let treasury = self.treasury.duplicate();
        let ghost old_entries = self.strategies.entries@;
        proof {
            crate::strmap::lemma_map_of_value(old_entries, i as int);
        }
        let strat = self.strategies.value_at_mut(i);
        let res = strat.harvest_proxy(&farm_id, &seed_id, &treasury, current_account, predecessor);
        let ghost new_strat = *strat;
        proof {
            lemma_map_of_update(old_entries, i as int, new_strat);
            crate::strmap::lemma_map_of_value(self.strategies.entries@, i as int);
            assert forall|k: Seq<char>| #[trigger] self.strategies@.dom().contains(k) implies self.strategies@[k].wf() by {
                if k != key@ {
                    assert(old(self).strategies@.dom().contains(k));
                }
            }
        }
        res
    }
}


/// The ledger after a new strategy for `seed` was registered: a seed with a
/// share token keeps it; otherwise it gets the next share token, with no
/// holders and no supply.
pub open spec fn ledger_registers(old: ShareLedger, new: ShareLedger, seed: Seq<char>) -> bool {
    &&& new.wf()
    &&& new.seed_id_amount@ == old.seed_id_amount@
    &&& if old.fft_share_by_seed_id@.dom().contains(seed) {
        new == old
    } else {
        let share = fft_share_name(old.fft_share_by_seed_id@.dom().len() + 1);
        &&& new.fft_share_by_seed_id@.dom() == old.fft_share_by_seed_id@.dom().insert(seed)
        &&& new.fft_share_by_seed_id@[seed]@ == share
        &&& forall|k: Seq<char>| k != seed && #[trigger] old.fft_share_by_seed_id@.dom().contains(k)
            ==> new.fft_share_by_seed_id@[k] == old.fft_share_by_seed_id@[k]
        &&& new.supply_of(share) == 0
        &&& forall|u: Seq<char>| #[trigger] new.balance_of(share, u) == 0
        &&& forall|sh: Seq<char>, u: Seq<char>| sh != share ==> #[trigger] new.balance_of(sh, u) == old.balance_of(sh, u)
        &&& new.supplies_agree_except(&old, share)
    }
}

impl Contract {
    /// Registers the share token of a new strategy's seed and stores the
    /// strategy under `key`.
    fn store_new_strategy(&mut self, key: String, strat: VersionedStrategy)
        requires
            old(self).wf(),
            strat.wf(),
        ensures
            final(self).wf(),
            final(self).strategies@ == old(self).strategies@.insert(key@, strat),
            ledger_registers(old(self).ledger, final(self).ledger, key@),
            final(self).owner_id == old(self).owner_id,
            final(self).treasury == old(self).treasury,
            final(self).guardians == old(self).guardians,
            final(self).allowed_accounts == old(self).allowed_accounts,
    {
        match self.ledger.new_fft_share(&key) {
            Some(share) => {
                self.ledger.register_share_for_seed(key.clone(), share);
            },
            None => {},
        }
        self.strategies.insert(key, strat);
        proof {
            assert forall|k: Seq<char>| #[trigger] self.strategies@.dom().contains(k) implies self.strategies@[k].wf() by {
                if k != key@ {
                    assert(old(self).strategies@.dom().contains(k));
                }
            }
        }
    }

    /// The owner (or the vault) allows `account_id`; `AlreadyExists` if it is
    /// allowed already.
    pub fn add_allowed_account(&mut self, caller: &String, current_account: &String, account_id: String) -> (res:
        Result<(), SafeError>)
        ensures
            !old(self).owner_call(caller@, current_account@) ==> res == Err::<(), SafeError>(SafeError::NotAllowed)
                && *final(self) == *old(self),
            old(self).owner_call(caller@, current_account@) && old(self).allowed_views().contains(account_id@)
                ==> res == Err::<(), SafeError>(SafeError::AlreadyExists) && *final(self) == *old(self),
            old(self).owner_call(caller@, current_account@) && !old(self).allowed_views().contains(account_id@)
                ==> res is Ok && *final(self) == (Contract {
                allowed_accounts: final(self).allowed_accounts,
                ..*old(self)
            }) && final(self).allowed_accounts@ == old(self).allowed_accounts@.push(account_id),
    {
        self.is_owner(caller, current_account)?;
        if self.is_allowed_account(&account_id).is_ok() {
            return Err(SafeError::AlreadyExists);
        }
        self.allowed_accounts.push(account_id);
        Ok(())
    }

    /// The owner (or the vault) no longer allows `account_id`: its entry is
    /// replaced by the last one. `DoesNotExist` if it is not allowed.
    pub fn remove_allowed_account(&mut self, caller: &String, current_account: &String, account_id: &String) -> (res:
        Result<(), SafeError>)
        ensures
            !old(self).owner_call(caller@, current_account@) ==> res == Err::<(), SafeError>(SafeError::NotAllowed)
                && *final(self) == *old(self),
            old(self).owner_call(caller@, current_account@) && !old(self).allowed_views().contains(account_id@)
                ==> res == Err::<(), SafeError>(SafeError::DoesNotExist) && *final(self) == *old(self),
            old(self).owner_call(caller@, current_account@) && old(self).allowed_views().contains(account_id@)
                ==> {
                let v = old(self).allowed_accounts@;
                let i = choose|i: int| 0 <= i < v.len() && v[i]@ == account_id@ && forall|j: int| 0 <= j < i ==> #[trigger] v[j]@ != account_id@;
                &&& res is Ok
                &&& *final(self) == (Contract { allowed_accounts: final(self).allowed_accounts, ..*old(self) })
                &&& final(self).allowed_accounts@ == v.update(i, v.last()).drop_last()
            },
    {
        self.is_owner(caller, current_account)?;
        let mut i: usize = 0;
        while i < self.allowed_accounts.len()
            invariant
                i <= self.allowed_accounts@.len(),
                self.allowed_accounts == old(self).allowed_accounts,
                *self == *old(self),
                old(self).owner_call(caller@, current_account@),
                forall|j: int| 0 <= j < i ==> (#[trigger] self.allowed_accounts@[j])@ != account_id@,
            decreases self.allowed_accounts@.len() - i,
        {
            if self.allowed_accounts[i] == *account_id {
                let ghost v = self.allowed_accounts@;
                proof {
                    let k = choose|k: int| 0 <= k < v.len() && v[k]@ == account_id@ && forall|j: int| 0 <= j < k ==> #[trigger] v[j]@ != account_id@;
                    assert(0 <= i < v.len() && v[i as int]@ == account_id@ && forall|j: int| 0 <= j < i ==> #[trigger] v[j]@ != account_id@);
                    if k < i {
                        assert(v[k]@ != account_id@);
                    }
                    if i < k {
                        assert(v[i as int]@ != account_id@);
                    }
                    assert(self.allowed_views()[i as int] == account_id@);
                }
                self.allowed_accounts.swap_remove(i);
                assert(self.allowed_accounts@ =~= v.update(i as int, v.last()).drop_last());
                return Ok(());
            }
            i = i + 1;
        }
        proof {
            if self.allowed_views().contains(account_id@) {
                let j = choose|j: int| 0 <= j < self.allowed_views().len() && self.allowed_views()[j] == account_id@;
                assert(self.allowed_accounts@[j]@ == account_id@);
            }
        }
        Err(SafeError::DoesNotExist)
    }

    /// The owner adds tokens to those the vault accepts.
    pub fn extend_whitelisted_tokens(&mut self, caller: &String, tokens: Vec<String>) -> (res: Result<(), SafeError>)
        requires
            old(self).wf(),
        ensures
            final(self).wf(),
            res is Ok <==> caller@ == old(self).owner_id@,
            res is Err ==> res == Err::<(), SafeError>(SafeError::NotAllowed) && *final(self) == *old(self),
            res is Ok ==> (forall|g: Seq<char>| #[trigger] final(self).whitelisted_tokens@.dom().contains(g) <==> (
            old(self).whitelisted_tokens@.dom().contains(g) || listed(tokens@, g))) && *final(self) == (Contract {
                whitelisted_tokens: final(self).whitelisted_tokens,
                ..*old(self)
            }),
    {
        if *caller != self.owner_id {
            return Err(SafeError::NotAllowed);
        }
        let mut i: usize = 0;
        while i < tokens.len()
            invariant
                i <= tokens@.len(),
                self.whitelisted_tokens.wf(),
                *self == (Contract { whitelisted_tokens: self.whitelisted_tokens, ..*old(self) }),
                forall|g: Seq<char>| #[trigger] self.whitelisted_tokens@.dom().contains(g) <==> (old(
                    self,
                ).whitelisted_tokens@.dom().contains(g) || listed(tokens@.take(i as int), g)),
            decreases tokens@.len() - i,
        {
            self.whitelisted_tokens.insert(tokens[i].clone(), ());
            proof {
                lemma_listed_take(tokens@, i as int);
            }
            i = i + 1;
        }
        assert(tokens@.take(tokens@.len() as int) =~= tokens@);
        Ok(())
    }

    /// A Ref Finance strategy over the pool `pool_id` of `exchange_contract_id`,
    /// under the seed `exchange@pool_id`. Answers
    /// `VersionedStrategy for :pool_id created successfully`, or, changing
    /// nothing, the refusal [`strategy_exists_message`] where that seed has a
    /// strategy already.
    pub fn create_strategy(
        &mut self,
        strategy_fee: u128,
        strat_creator: AccountFee,
        sentry_fee: u128,
        exchange_contract_id: String,
        farm_contract_id: String,
        token1_address: String,
        token2_address: String,
        pool_id: u64,
        seed_min_deposit: u128,
    ) -> (res: String)
        requires
            old(self).wf(),
        ensures
            final(self).wf(),
            ({
                let seed = joined(exchange_contract_id@, '@', decimal(pool_id as nat));
                if old(self).strategies@.dom().contains(seed) {
                    res@ == strategy_exists_message() && *final(self) == *old(self)
                } else {
                    &&& res@ == strategy_created_message(wrapped_token_id(decimal(pool_id as nat)))
                    &&& final(self).strategies@.dom() == old(self).strategies@.dom().insert(seed)
                    &&& forall|k: Seq<char>| k != seed ==> #[trigger] final(self).strategies@.dom().contains(k)
                        ==> final(self).strategies@[k] == old(self).strategies@[k]
                    &&& final(self).strategies@[seed] matches VersionedStrategy::AutoCompounder(c)
                        && c.admin_fees.strategy_fee == strategy_fee && c.admin_fees.strat_creator == strat_creator
                        && c.admin_fees.sentries_fee == sentry_fee && c.admin_fees.sentries@.dom().len() == 0
                        && c.exchange_contract_id == exchange_contract_id && c.farm_contract_id == farm_contract_id
                        && c.token1_address == token1_address && c.token2_address == token2_address
                        && c.pool_id == pool_id && c.seed_id@ == seed && c.seed_min_deposit == seed_min_deposit
                        && c.farms@.len() == 0 && c.harvest_timestamp == 0
                    &&& ledger_registers(old(self).ledger, final(self).ledger, seed)
                }
            }),
    {
        let seed_id = seed_id_of(exchange_contract_id.as_str(), pool_id);
        if self.strategies.contains_key(&seed_id) {
            return strategy_exists();
        }
        let strat = VersionedStrategy::AutoCompounder(
            AutoCompounder::new(
                strategy_fee,
                strat_creator,
                sentry_fee,
                exchange_contract_id,
                farm_contract_id,
                token1_address,
                token2_address,
                pool_id,
                seed_id.clone(),
                seed_min_deposit,
            ),
        );
        self.store_new_strategy(seed_id, strat);
        let digits = crate::ids::u128_to_string(pool_id as u128);
        let token_id = wrap_mft_token_id(digits.as_str());
        strategy_created(token_id.as_str())
    }

    /// A Ref Finance strategy over the stable pool `pool_id`, under the seed
    /// `exchange@pool_id`. Answers
    /// `VersionedStrategy for :pool_id created successfully`, or, changing
    /// nothing, the refusal [`strategy_exists_message`] where that seed has a
    /// strategy already.
    pub fn create_stable_strategy(
        &mut self,
        strategy_fee: u128,
        strat_creator: AccountFee,
        sentry_fee: u128,
        exchange_contract_id: String,
        farm_contract_id: String,
        pool_id: u64,
        seed_min_deposit: u128,
    ) -> (res: String)
        requires
            old(self).wf(),
        ensures
            final(self).wf(),
            ({
                let seed = joined(exchange_contract_id@, '@', decimal(pool_id as nat));
                if old(self).strategies@.dom().contains(seed) {
                    res@ == strategy_exists_message() && *final(self) == *old(self)
                } else {
                    &&& res@ == strategy_created_message(wrapped_token_id(decimal(pool_id as nat)))
                    &&& final(self).strategies@.dom() == old(self).strategies@.dom().insert(seed)
                    &&& forall|k: Seq<char>| k != seed ==> #[trigger] final(self).strategies@.dom().contains(k)
                        ==> final(self).strategies@[k] == old(self).strategies@[k]
                    &&& final(self).strategies@[seed] matches VersionedStrategy::StableAutoCompounder(c)
                        && c.admin_fees.strategy_fee == strategy_fee && c.admin_fees.strat_creator == strat_creator
                        && c.admin_fees.sentries_fee == sentry_fee && c.admin_fees.sentries@.dom().len() == 0
                        && c.exchange_contract_id == exchange_contract_id && c.farm_contract_id == farm_contract_id
                        && c.pool_id == pool_id && c.seed_id@ == seed && c.seed_min_deposit == seed_min_deposit
                        && c.farms@.len() == 0 && c.harvest_timestamp == 0
                    &&& ledger_registers(old(self).ledger, final(self).ledger, seed)
                }
            }),
    {
        let seed_id = seed_id_of(exchange_contract_id.as_str(), pool_id);
        if self.strategies.contains_key(&seed_id) {
            return strategy_exists();
        }
        let strat = VersionedStrategy::StableAutoCompounder(
            StableAutoCompounder::new(
                strategy_fee,
                strat_creator,
                sentry_fee,
                exchange_contract_id,
                farm_contract_id,
                pool_id,
                seed_id.clone(),
                seed_min_deposit,
            ),
        );
        self.store_new_strategy(seed_id, strat);
        let digits = crate::ids::u128_to_string(pool_id as u128);
        let token_id = wrap_mft_token_id(digits.as_str());
        strategy_created(token_id.as_str())
    }

    /// A Jumbo strategy over the pool `pool_id`, under the seed
    /// `exchange@pool_id`. Whether one exists already is checked under the
    /// multi-token id `:pool_id`: answers, changing nothing, the refusal
    /// [`strategy_exists_message`] where a strategy is stored under that id,
    /// else `VersionedStrategy for exchange@pool_id created successfully`.
    pub fn create_jumbo_strategy(
        &mut self,
        strategy_fee: u128,
        strat_creator: AccountFee,
        sentry_fee: u128,
        exchange_contract_id: String,
        farm_contract_id: String,
        token1_address: String,
        token2_address: String,
        pool_id: u64,
        seed_min_deposit: u128,
    ) -> (res: String)
        requires
            old(self).wf(),
        ensures
            final(self).wf(),
            ({
                let token_id = wrapped_token_id(decimal(pool_id as nat));
                let seed = joined(exchange_contract_id@, '@', decimal(pool_id as nat));
                if old(self).strategies@.dom().contains(token_id) {
                    res@ == strategy_exists_message() && *final(self) == *old(self)
                } else {
                    &&& res@ == strategy_created_message(seed)
                    &&& final(self).strategies@.dom() == old(self).strategies@.dom().insert(seed)
                    &&& forall|k: Seq<char>| k != seed ==> #[trigger] final(self).strategies@.dom().contains(k)
                        ==> final(self).strategies@[k] == old(self).strategies@[k]
                    &&& final(self).strategies@[seed] matches VersionedStrategy::JumboAutoCompounder(c)
                        && c.admin_fees.strategy_fee == strategy_fee && c.admin_fees.strat_creator == strat_creator
                        && c.admin_fees.sentries_fee == sentry_fee && c.admin_fees.sentries@.dom().len() == 0
                        && c.exchange_contract_id == exchange_contract_id && c.farm_contract_id == farm_contract_id
                        && c.token1_address == token1_address && c.token2_address == token2_address
                        && c.pool_id == pool_id && c.seed_id@ == seed && c.seed_min_deposit == seed_min_deposit
                        && c.farms@.len() == 0 && c.harvest_timestamp == 0
                    &&& ledger_registers(old(self).ledger, final(self).ledger, seed)
                }
            }),
    {
        let digits = crate::ids::u128_to_string(pool_id as u128);
        let token_id = wrap_mft_token_id(digits.as_str());
        if self.strategies.contains_key(&token_id) {
            return strategy_exists();
        }
        let seed_id = seed_id_of(exchange_contract_id.as_str(), pool_id);
        let strat = VersionedStrategy::JumboAutoCompounder(
            JumboAutoCompounder::new(
                strategy_fee,
                strat_creator,
                sentry_fee,
                exchange_contract_id,
                farm_contract_id,
                token1_address,
                token2_address,
                pool_id,
                seed_id.clone(),
                seed_min_deposit,
            ),
        );
        let message = strategy_created(seed_id.as_str());
        self.store_new_strategy(seed_id, strat);
        message
    }
}


/// `new` is `old` with the strategy under `key` replaced by `strat`.
pub open spec fn strategy_replaced(old: Contract, new: Contract, key: Seq<char>, strat: VersionedStrategy) -> bool {
    &&& new == (Contract { strategies: new.strategies, ..old })
    &&& new.strategies@ == old.strategies@.insert(key, strat)
}

/// A new farm of a Ref Finance strategy: running, about to claim, with a
/// slippage of 99 and nothing earned or held yet.
pub open spec fn new_farm_is(
    f: StratFarmInfo,
    pool_id_token1_reward: u64,
    pool_id_token2_reward: u64,
    reward_token: Seq<char>,
    farm_id: Seq<char>,
) -> bool {
    &&& f.state == AutoCompounderState::Running
    &&& f.cycle_stage == AutoCompounderCycle::ClaimReward
    &&& f.slippage == DEFAULT_SLIPPAGE
    &&& f.last_reward_amount == 0
    &&& f.last_fee_amount == 0
    &&& f.pool_id_token1_reward == pool_id_token1_reward
    &&& f.pool_id_token2_reward == pool_id_token2_reward
    &&& f.reward_token@ == reward_token
    &&& f.available_balance@ == seq![0u128, 0u128]
    &&& f.id@ == farm_id
}

impl Contract {
    /// Adds a farm to the Ref Finance strategy of `seed_id`. A farm with the
    /// same id is added all the same. `StrategyDoesNotExist` and
    /// `WrongStrategyKind` change nothing.
    pub fn add_farm_to_strategy(
        &mut self,
        seed_id: &String,
        pool_id_token1_reward: u64,
        pool_id_token2_reward: u64,
        reward_token: String,
        farm_id: String,
    ) -> (res: Result<String, SafeError>)
        requires
            old(self).wf(),
        ensures
            final(self).wf(),
            !old(self).strategies@.dom().contains(seed_id@) ==> res == Err::<String, SafeError>(
                SafeError::StrategyDoesNotExist,
            ) && *final(self) == *old(self),
            old(self).strategies@.dom().contains(seed_id@) ==> match old(self).strategies@[seed_id@] {
                VersionedStrategy::AutoCompounder(c) => (res matches Ok(m) && m@ == farm_created_message(farm_id@, seed_id@)) && (final(self).strategies@[seed_id@] matches VersionedStrategy::AutoCompounder(n)
                    && strategy_replaced(*old(self), *final(self), seed_id@, VersionedStrategy::AutoCompounder(n))
                    && n == (AutoCompounder { farms: n.farms, ..c }) && n.farms@.len() == c.farms@.len() + 1
                    && n.farms@.drop_last() == c.farms@ && new_farm_is(
                    n.farms@.last(),
                    pool_id_token1_reward,
                    pool_id_token2_reward,
                    reward_token@,
                    farm_id@,
                )),
                _ => res == Err::<String, SafeError>(SafeError::WrongStrategyKind) && *final(self) == *old(self),
            },
    {
        let i = match self.strategies.find(seed_id) {
            Some(i) => i,
            None => return Err(SafeError::StrategyDoesNotExist),
        };
        let ghost old_entries = self.strategies.entries@;
        proof {
            crate::strmap::lemma_map_of_value(old_entries, i as int);
        }
        let message = farm_created(farm_id.as_str(), seed_id.as_str());
        let mut balances: Vec<u128> = Vec::new();
        balances.push(0);
        balances.push(0);
        let farm = StratFarmInfo {
            state: AutoCompounderState::Running,
            cycle_stage: AutoCompounderCycle::ClaimReward,
            slippage: DEFAULT_SLIPPAGE,
            last_reward_amount: 0,
            last_fee_amount: 0,
            pool_id_token1_reward,
            pool_id_token2_reward,
            reward_token,
            available_balance: balances,
            id: farm_id,
        };
        assert(farm.available_balance@ =~= seq![0u128, 0u128]);
        let is_ref = match &self.strategies.entries[i].1 {
            VersionedStrategy::AutoCompounder(_) => true,
            _ => false,
        };
        if !is_ref {
            return Err(SafeError::WrongStrategyKind);
        }
        let strat = self.strategies.value_at_mut(i);
        match strat {
            VersionedStrategy::AutoCompounder(c) => {
                c.farms.push(farm);
            },
            _ => {},
        }
        let ghost nv = *strat;
        proof {
            lemma_map_of_update(old_entries, i as int, nv);
            crate::strmap::lemma_map_of_value(self.strategies.entries@, i as int);
            assert forall|k: Seq<char>| #[trigger] self.strategies@.dom().contains(k) implies self.strategies@[k].wf() by {
                if k != seed_id@ {
                    assert(old(self).strategies@.dom().contains(k));
                }
            }
            match nv {
                VersionedStrategy::AutoCompounder(n) => {
                    assert(n.farms@.drop_last() =~= old(self).strategies@[seed_id@]->AutoCompounder_0.farms@);
                },
                _ => {},
            }
        }
        Ok(message)
    }
}


impl Contract {
    /// Adds a farm to the stable strategy of `seed_id`, with the given token
    /// balances, answering `Farm with index farm_id for seed_id created
    /// successfully`; answers, changing nothing, the refusal
    /// [`farm_exists_message`] where the strategy has a farm with that id
    /// already. `StrategyDoesNotExist` and
    /// `WrongStrategyKind` change nothing.
    pub fn add_farm_to_stable_strategy(
        &mut self,
        seed_id: &String,
        token_address: String,
        pool_id_token_reward: u64,
        token_position: u64,
        reward_token: String,
        available_balance: Vec<u128>,
        farm_id: String,
    ) -> (res: Result<String, SafeError>)
        requires
            old(self).wf(),
        ensures
            final(self).wf(),
            !old(self).strategies@.dom().contains(seed_id@) ==> res == Err::<String, SafeError>(
                SafeError::StrategyDoesNotExist,
            ) && *final(self) == *old(self),
            old(self).strategies@.dom().contains(seed_id@) ==> match old(self).strategies@[seed_id@] {
                VersionedStrategy::StableAutoCompounder(c) => if has_farm(c.farm_ids(), farm_id@) {
                    (res matches Ok(m) && m@ == farm_exists_message()) && *final(self) == *old(self)
                } else {
                    (res matches Ok(m) && m@ == farm_created_message(farm_id@, seed_id@)) && (final(self).strategies@[seed_id@] matches VersionedStrategy::StableAutoCompounder(n)
                        && strategy_replaced(*old(self), *final(self), seed_id@, VersionedStrategy::StableAutoCompounder(n))
                        && n == (StableAutoCompounder { farms: n.farms, ..c }) && n.farms@.len() == c.farms@.len() + 1
                        && n.farms@.drop_last() == c.farms@ && n.farms@.last() == (StableStratFarmInfo {
                        state: AutoCompounderState::Running,
                        cycle_stage: AutoCompounderCycle::ClaimReward,
                        slippage: DEFAULT_SLIPPAGE,
                        last_reward_amount: 0,
                        last_fee_amount: 0,
                        token_address,
                        pool_id_token_reward,
                        token_position,
                        reward_token,
                        available_balance,
                        id: farm_id,
                    }))
                },
                _ => res == Err::<String, SafeError>(SafeError::WrongStrategyKind) && *final(self) == *old(self),
            },
    {
        let i = match self.strategies.find(seed_id) {
            Some(i) => i,
            None => return Err(SafeError::StrategyDoesNotExist),
        };
        let ghost old_entries = self.strategies.entries@;
        proof {
            crate::strmap::lemma_map_of_value(old_entries, i as int);
        }
        match &self.strategies.entries[i].1 {
            VersionedStrategy::StableAutoCompounder(c) => {
                match c.farm_index(&farm_id) {
                    Some(j) => {
                        proof {
                            lemma_first_farm(c.farm_ids(), farm_id@, j as int);
                        }
                        return Ok(farm_exists());
                    },
                    None => {
                        proof {
                            lemma_no_farm(c.farm_ids(), farm_id@);
                        }
                    },
                }
            },
            _ => return Err(SafeError::WrongStrategyKind),
        }
        let message = farm_created(farm_id.as_str(), seed_id.as_str());
        let farm = StableStratFarmInfo {
            state: AutoCompounderState::Running,
            cycle_stage: AutoCompounderCycle::ClaimReward,
            slippage: DEFAULT_SLIPPAGE,
            last_reward_amount: 0,
            last_fee_amount: 0,
            token_address,
            pool_id_token_reward,
            token_position,
            reward_token,
            available_balance,
            id: farm_id,
        };
        let strat = self.strategies.value_at_mut(i);
        match strat {
            VersionedStrategy::StableAutoCompounder(c) => {
                c.farms.push(farm);
            },
            _ => {},
        }
        let ghost nv = *strat;
        proof {
            lemma_map_of_update(old_entries, i as int, nv);
            crate::strmap::lemma_map_of_value(self.strategies.entries@, i as int);
            assert forall|k: Seq<char>| #[trigger] self.strategies@.dom().contains(k) implies self.strategies@[k].wf() by {
                if k != seed_id@ {
                    assert(old(self).strategies@.dom().contains(k));
                }
            }
            match nv {
                VersionedStrategy::StableAutoCompounder(n) => {
                    assert(n.farms@.drop_last() =~= old(self).strategies@[seed_id@]->StableAutoCompounder_0.farms@);
                },
                _ => {},
            }
        }
        Ok(message)
    }

    /// Adds a farm to the Jumbo strategy of `seed_id`, answering `Farm with
    /// index farm_id for seed_id created successfully`; answers, changing
    /// nothing, the refusal [`farm_exists_message`] where the strategy has a
    /// farm with that id already.
    /// `StrategyDoesNotExist` and `WrongStrategyKind` change nothing.
    pub fn add_farm_to_jumbo_strategy(
        &mut self,
        seed_id: &String,
        pool_id_token1_reward: u64,
        pool_id_token2_reward: u64,
        reward_token: String,
        farm_id: String,
    ) -> (res: Result<String, SafeError>)
        requires
            old(self).wf(),
        ensures
            final(self).wf(),
            !old(self).strategies@.dom().contains(seed_id@) ==> res == Err::<String, SafeError>(
                SafeError::StrategyDoesNotExist,
            ) && *final(self) == *old(self),
            old(self).strategies@.dom().contains(seed_id@) ==> match old(self).strategies@[seed_id@] {
                VersionedStrategy::JumboAutoCompounder(c) => if has_farm(c.farm_ids(), farm_id@) {
                    (res matches Ok(m) && m@ == farm_exists_message()) && *final(self) == *old(self)
                } else {
                    (res matches Ok(m) && m@ == farm_created_message(farm_id@, seed_id@)) && (final(self).strategies@[seed_id@] matches VersionedStrategy::JumboAutoCompounder(n)
                        && strategy_replaced(*old(self), *final(self), seed_id@, VersionedStrategy::JumboAutoCompounder(n))
                        && n == (JumboAutoCompounder { farms: n.farms, ..c }) && n.farms@.len() == c.farms@.len() + 1
                        && n.farms@.drop_last() == c.farms@ && ({
                        let f = n.farms@.last();
                        &&& f.state == JumboAutoCompounderState::Running
                        &&& f.cycle_stage == JumboAutoCompounderCycle::ClaimReward
                        &&& f.slippage == DEFAULT_SLIPPAGE
                        &&& f.last_reward_amount == 0
                        &&& f.current_shares_to_stake == 0
                        &&& f.last_fee_amount == 0
                        &&& f.pool_id_token1_reward == pool_id_token1_reward
                        &&& f.pool_id_token2_reward == pool_id_token2_reward
                        &&& f.reward_token == reward_token
                        &&& f.available_balance@ == seq![0u128, 0u128]
                        &&& f.id == farm_id
                    }))
                },
                _ => res == Err::<String, SafeError>(SafeError::WrongStrategyKind) && *final(self) == *old(self),
            },
    {
        let i = match self.strategies.find(seed_id) {
            Some(i) => i,
            None => return Err(SafeError::StrategyDoesNotExist),
        };
        let ghost old_entries = self.strategies.entries@;
        proof {
            crate::strmap::lemma_map_of_value(old_entries, i as int);
        }
        match &self.strategies.entries[i].1 {
            VersionedStrategy::JumboAutoCompounder(c) => {
                match c.farm_index(&farm_id) {
                    Some(j) => {
                        proof {
                            lemma_first_farm(c.farm_ids(), farm_id@, j as int);
                        }
                        return Ok(farm_exists());
                    },
                    None => {
                        proof {
                            lemma_no_farm(c.farm_ids(), farm_id@);
                        }
                    },
                }
            },
            _ => return Err(SafeError::WrongStrategyKind),
        }
        let message = farm_created(farm_id.as_str(), seed_id.as_str());
        let mut balances: Vec<u128> = Vec::new();
        balances.push(0);
        balances.push(0);
        let farm = JumboStratFarmInfo {
            state: JumboAutoCompounderState::Running,
            cycle_stage: JumboAutoCompounderCycle::ClaimReward,
            slippage: DEFAULT_SLIPPAGE,
            last_reward_amount: 0,
            current_shares_to_stake: 0,
            last_fee_amount: 0,
            pool_id_token1_reward,
            pool_id_token2_reward,
            reward_token,
            available_balance: balances,
            id: farm_id,
        };
        assert(farm.available_balance@ =~= seq![0u128, 0u128]);
        let strat = self.strategies.value_at_mut(i);
        match strat {
            VersionedStrategy::JumboAutoCompounder(c) => {
                c.farms.push(farm);
            },
            _ => {},
        }
        let ghost nv = *strat;
        proof {
            lemma_map_of_update(old_entries, i as int, nv);
            crate::strmap::lemma_map_of_value(self.strategies.entries@, i as int);
            assert forall|k: Seq<char>| #[trigger] self.strategies@.dom().contains(k) implies self.strategies@[k].wf() by {
                if k != seed_id@ {
                    assert(old(self).strategies@.dom().contains(k));
                }
            }
            match nv {
                VersionedStrategy::JumboAutoCompounder(n) => {
                    assert(n.farms@.drop_last() =~= old(self).strategies@[seed_id@]->JumboAutoCompounder_0.farms@);
                },
                _ => {},
            }
        }
        Ok(message)
    }
}


/// `new` is `old` with only its ledger changed.
pub open spec fn ledger_only(old: Contract, new: Contract) -> bool {
    new == (Contract { ledger: new.ledger, ..old })
}

/// How a withdrawal of `withdraw_amount` of seed is sent when the vault holds
/// `shares_on_exchange` on the exchange: `None` where they suffice; otherwise
/// the missing amount is first taken from the farm.
pub open spec fn missing_on_exchange(shares_on_exchange: u128, withdraw_amount: u128) -> Option<u128> {
    if shares_on_exchange >= withdraw_amount {
        None
    } else {
        Some((withdraw_amount - shares_on_exchange) as u128)
    }
}

/// How a withdrawal of shares is sent: the part the exchange does not hold is
/// first withdrawn from the farm (`from_farm`), then the whole amount is
/// transferred by the exchange.
pub struct WithdrawOrder {
    /// Exchange that transfers the shares.
    pub exchange_contract_id: String,
    /// Farm the missing part is withdrawn from.
    pub farm_contract_id: String,
    /// Seed of the strategy on the farm.
    pub farm_seed_id: String,
    /// The part withdrawn from the farm first, if any.
    pub from_farm: Option<u128>,
}

/// `o` sends `withdraw_amount` through the exchange `exchange` and the farm
/// `farm` (seed `seed`), as [`missing_on_exchange`] says.
pub open spec fn withdraw_order_is(
    o: WithdrawOrder,
    exchange: Seq<char>,
    farm: Seq<char>,
    seed: Seq<char>,
    shares_on_exchange: u128,
    withdraw_amount: u128,
) -> bool {
    &&& o.exchange_contract_id@ == exchange
    &&& o.farm_contract_id@ == farm
    &&& o.farm_seed_id@ == seed
    &&& o.from_farm == missing_on_exchange(shares_on_exchange, withdraw_amount)
}

/// What the answer of the exchange about the shares it holds
/// (`shares_result`, `None` where the call failed) leads to for a withdrawal
/// from the strategy of `seed_id`, where `order_of` says which kind the
/// strategy must be and gives its exchange, farm and farm seed.
pub open spec fn pool_shares_step(
    c: Contract,
    shares_result: Option<u128>,
    seed_id: Seq<char>,
    withdraw_amount: u128,
    res: Result<WithdrawOrder, SafeError>,
    order_of: spec_fn(VersionedStrategy) -> Option<(Seq<char>, Seq<char>, Seq<char>)>,
) -> bool {
    match shares_result {
        None => res == Err::<WithdrawOrder, SafeError>(SafeError::PromiseFailed),
        Some(shares) => if !c.strategies@.dom().contains(seed_id) {
            res == Err::<WithdrawOrder, SafeError>(SafeError::StrategyDoesNotExist)
        } else {
            match order_of(c.strategies@[seed_id]) {
                Some(t) => res matches Ok(o) && withdraw_order_is(o, t.0, t.1, t.2, shares, withdraw_amount),
                None => res == Err::<WithdrawOrder, SafeError>(SafeError::WrongStrategyKind),
            }
        },
    }
}

/// The exchange, farm and farm seed of a Ref Finance strategy over a
/// two-token pool.
pub open spec fn ref_order_of(s: VersionedStrategy) -> Option<(Seq<char>, Seq<char>, Seq<char>)> {
    match s {
        VersionedStrategy::AutoCompounder(a) => Some((a.exchange_contract_id@, a.farm_contract_id@, a.seed_id@)),
        _ => None,
    }
}

/// The exchange, farm and farm seed of a Ref Finance strategy over a stable
/// pool.
pub open spec fn stable_order_of(s: VersionedStrategy) -> Option<(Seq<char>, Seq<char>, Seq<char>)> {
    match s {
        VersionedStrategy::StableAutoCompounder(a) => Some((a.exchange_contract_id@, a.farm_contract_id@, a.seed_id@)),
        _ => None,
    }
}

/// The exchange, farm and farm seed of a Jumbo strategy.
pub open spec fn jumbo_order_of(s: VersionedStrategy) -> Option<(Seq<char>, Seq<char>, Seq<char>)> {
    match s {
        VersionedStrategy::JumboAutoCompounder(a) => Some((a.exchange_contract_id@, a.farm_contract_id@, a.seed_id@)),
        _ => None,
    }
}

/// The order for the exchange `exchange`, the farm `farm` and the farm seed
/// `seed`, as [`missing_on_exchange`] says.
fn withdraw_order(exchange: &String, farm: &String, seed: &String, shares_on_exchange: u128, withdraw_amount: u128) -> (res:
    WithdrawOrder)
    ensures
        withdraw_order_is(res, exchange@, farm@, seed@, shares_on_exchange, withdraw_amount),
{
    let from_farm = if shares_on_exchange >= withdraw_amount {
        None
    } else {
        Some(withdraw_amount - shares_on_exchange)
    };
    WithdrawOrder {
        exchange_contract_id: exchange.clone(),
        farm_contract_id: farm.clone(),
        farm_seed_id: seed.clone(),
        from_farm,
    }
}

impl Contract {
    /// After the exchange answered how many shares of the vault it holds, for
    /// a withdrawal of `withdraw_amount` from the Ref Finance strategy (two-token
    /// pool) of `seed_id`: the order that sends it.
    pub fn callback_get_pool_shares(&self, shares_result: Option<u128>, seed_id: &String, withdraw_amount: u128) -> (res:
        Result<WithdrawOrder, SafeError>)
        requires
            self.wf(),
        ensures
            pool_shares_step(*self, shares_result, seed_id@, withdraw_amount, res, |s: VersionedStrategy| ref_order_of(s)),
    {
        let shares = match shares_result {
            Some(v) => v,
            None => return Err(SafeError::PromiseFailed),
        };
        match self.get_strat(seed_id)? {
            VersionedStrategy::AutoCompounder(a) => Ok(
                withdraw_order(&a.exchange_contract_id, &a.farm_contract_id, &a.seed_id, shares, withdraw_amount),
            ),
            _ => Err(SafeError::WrongStrategyKind),
        }
    }

    /// As [`Contract::callback_get_pool_shares`], for a Ref Finance strategy
    /// over a stable pool.
    pub fn stable_callback_get_pool_shares(&self, shares_result: Option<u128>, seed_id: &String, withdraw_amount: u128) -> (res:
        Result<WithdrawOrder, SafeError>)
        requires
            self.wf(),
        ensures
            pool_shares_step(*self, shares_result, seed_id@, withdraw_amount, res, |s: VersionedStrategy| stable_order_of(s)),
    {
        let shares = match shares_result {
            Some(v) => v,
            None => return Err(SafeError::PromiseFailed),
        };
        match self.get_strat(seed_id)? {
            VersionedStrategy::StableAutoCompounder(a) => Ok(
                withdraw_order(&a.exchange_contract_id, &a.farm_contract_id, &a.seed_id, shares, withdraw_amount),
            ),
            _ => Err(SafeError::WrongStrategyKind),
        }
    }

    /// As [`Contract::callback_get_pool_shares`], for a Jumbo strategy.
    pub fn callback_jumbo_get_pool_shares(&self, shares_result: Option<u128>, seed_id: &String, withdraw_amount: u128) -> (res:
        Result<WithdrawOrder, SafeError>)
        requires
            self.wf(),
        ensures
            pool_shares_step(*self, shares_result, seed_id@, withdraw_amount, res, |s: VersionedStrategy| jumbo_order_of(s)),
    {
        let shares = match shares_result {
            Some(v) => v,
            None => return Err(SafeError::PromiseFailed),
        };
        match self.get_strat(seed_id)? {
            VersionedStrategy::JumboAutoCompounder(a) => Ok(
                withdraw_order(&a.exchange_contract_id, &a.farm_contract_id, &a.seed_id, shares, withdraw_amount),
            ),
            _ => Err(SafeError::WrongStrategyKind),
        }
    }
}

impl Contract {
    /// After `shares` of `seed_id` deposited by `account_id` were staked on
    /// the farm, whose answer is `transfer_result` (the amount it did not take,
    /// `None` where the call failed): anything but a full stake is refused
    /// (`StakeFailed`); otherwise the shares are minted as
    /// [`deposit_step`] says.
    pub fn callback_stake_result(
        &mut self,
        seed_id: &String,
        account_id: &String,
        shares: u128,
        transfer_result: Option<u128>,
    ) -> (res: Result<u128, SafeError>)
        requires
            old(self).wf(),
        ensures
            final(self).wf(),
            ledger_only(*old(self), *final(self)),
            transfer_result != Some(0u128) ==> res == Err::<u128, SafeError>(SafeError::StakeFailed) && *final(self)
                == *old(self),
            transfer_result == Some(0u128) ==> deposit_step(
                old(self).ledger,
                final(self).ledger,
                *seed_id,
                *account_id,
                shares,
                res,
            ),
    {
        match transfer_result {
            Some(0) => {},
            _ => return Err(SafeError::StakeFailed),
        }
        self.ledger.deposit_shares(seed_id, account_id, shares)
    }

    /// After `shares` of the token of a Pembrock strategy `seed_id` were lent:
    /// an answer of zero is refused (`StakeFailed`); otherwise, the call
    /// having failed or not, the shares are minted as [`deposit_step`] says.
    pub fn callback_pembrock_stake_result(
        &mut self,
        seed_id: &String,
        account_id: &String,
        shares: u128,
        transfer_result: Option<u128>,
    ) -> (res: Result<u128, SafeError>)
        requires
            old(self).wf(),
        ensures
            final(self).wf(),
            ledger_only(*old(self), *final(self)),
            transfer_result == Some(0u128) ==> res == Err::<u128, SafeError>(SafeError::StakeFailed) && *final(self)
                == *old(self),
            transfer_result != Some(0u128) ==> deposit_step(
                old(self).ledger,
                final(self).ledger,
                *seed_id,
                *account_id,
                shares,
                res,
            ),
    {
        if transfer_result == Some(0u128) {
            return Err(SafeError::StakeFailed);
        }
        self.ledger.deposit_shares(seed_id, account_id, shares)
    }

    /// What `caller` withdraws from the strategy of `seed_id`, and the shares
    /// it burns: all it holds, or `amount_withdrawal` of seed. A caller with no
    /// share is refused. See [`unstake_plan_is`].
    pub fn unstake(&self, seed_id: &String, caller: &String, amount_withdrawal: Option<u128>) -> (res: Result<
        (u128, u128),
        SafeError,
    >)
        requires
            self.wf(),
        ensures
            unstake_plan_is(self.ledger, *seed_id, *caller, amount_withdrawal, true, res),
    {
        self.ledger.unstake_plan(seed_id, caller, amount_withdrawal, true)
    }

    /// What `caller` withdraws from the Pembrock strategy of `token_name`
    /// (seed `pembrock@token_name`), and the shares it burns. See
    /// [`unstake_plan_is`]; a caller with no share is not refused first.
    pub fn pembrock_unstake(&self, token_name: &String, caller: &String, amount_withdrawal: Option<u128>) -> (res: (
        String,
        Result<(u128, u128), SafeError>,
    ))
        requires
            self.wf(),
        ensures
            res.0@ == seq!['p', 'e', 'm', 'b', 'r', 'o', 'c', 'k', '@'] + token_name@,
            unstake_plan_is(self.ledger, res.0, *caller, amount_withdrawal, false, res.1),
    {
        let mut seed_id = String::from_str("pembrock@");
        proof {
            reveal_strlit("pembrock@");
        }
        seed_id.append(token_name.as_str());
        let plan = self.ledger.unstake_plan(&seed_id, caller, amount_withdrawal, false);
        (seed_id, plan)
    }

    /// After the seed was sent to `account_id` (`transfer_ok` false where it
    /// failed, which is refused with `PromiseFailed`): the ledger changes as
    /// [`withdraw_step`] says.
    pub fn callback_withdraw_shares(
        &mut self,
        transfer_ok: bool,
        seed_id: &String,
        account_id: &String,
        amount: u128,
        fft_shares: u128,
    ) -> (res: Result<(), SafeError>)
        requires
            old(self).wf(),
        ensures
            final(self).wf(),
            ledger_only(*old(self), *final(self)),
            !transfer_ok ==> res == Err::<(), SafeError>(SafeError::PromiseFailed) && *final(self) == *old(self),
            transfer_ok ==> withdraw_step(
                old(self).ledger,
                final(self).ledger,
                *seed_id,
                *account_id,
                amount,
                fft_shares,
                res,
            ),
    {
        if !transfer_ok {
            return Err(SafeError::PromiseFailed);
        }
        self.ledger.withdraw_shares(seed_id, account_id, amount, fft_shares)
    }

    /// The treasury's fees of a harvest are added to what it is owed;
    /// `ArithmeticOverflow`, changing nothing, where that would overflow.
    pub fn add_treasury_fees(&mut self, protocol_amount: u128) -> (res: Result<(), SafeError>)
        ensures
            old(self).treasury.current_amount + protocol_amount > u128::MAX ==> res == Err::<(), SafeError>(
                SafeError::ArithmeticOverflow,
            ) && *final(self) == *old(self),
            old(self).treasury.current_amount + protocol_amount <= u128::MAX ==> res is Ok && *final(self) == (
            Contract {
                treasury: AccountFee {
                    current_amount: (old(self).treasury.current_amount + protocol_amount) as u128,
                    ..old(self).treasury
                },
                ..*old(self)
            }),
    {
        if self.treasury.current_amount > u128::MAX - protocol_amount {
            return Err(SafeError::ArithmeticOverflow);
        }
        self.treasury.current_amount = self.treasury.current_amount + protocol_amount;
        Ok(())
    }

    /// After the treasury's fees were sent: nothing is owed to it any more if
    /// the transfer succeeded.
    pub fn callback_post_treasury_mft_transfer(&mut self, transfer_ok: bool)
        ensures
            *final(self) == (if transfer_ok {
                Contract { treasury: AccountFee { current_amount: 0, ..old(self).treasury }, ..*old(self) }
            } else {
                *old(self)
            }),
    {
        if transfer_ok {
            self.treasury.current_amount = 0;
        }
    }

    /// The vault holds `shares` more of the seed `seed_id` (none recorded
    /// counting as zero); returns the new amount. `ArithmeticOverflow`,
    /// changing nothing, where that would overflow.
    pub fn add_seed_shares(&mut self, seed_id: &String, shares: u128) -> (res: Result<u128, SafeError>)
        requires
            old(self).wf(),
        ensures
            final(self).wf(),
            ({
                let total = old(self).ledger.seed_amount_or_zero(seed_id@);
                if total + shares > u128::MAX {
                    res == Err::<u128, SafeError>(SafeError::ArithmeticOverflow) && *final(self) == *old(self)
                } else {
                    &&& res == Ok::<u128, SafeError>((total + shares) as u128)
                    &&& final(self).ledger.seed_id_amount@ == old(self).ledger.seed_id_amount@.insert(
                        seed_id@,
                        (total + shares) as u128,
                    )
                    &&& final(self).ledger.fft_share_by_seed_id@ == old(self).ledger.fft_share_by_seed_id@
                    &&& final(self).ledger.users_balance_by_fft_share@ == old(self).ledger.users_balance_by_fft_share@
                    &&& final(self).ledger.total_supply_by_fft_share@ == old(self).ledger.total_supply_by_fft_share@
                    &&& ledger_only(*old(self), *final(self))
                }
            }),
    {
        let total = match self.ledger.seed_total_amount(seed_id) {
            Some(v) => v,
            None => 0,
        };
        if total > u128::MAX - shares {
            return Err(SafeError::ArithmeticOverflow);
        }
        self.ledger.set_seed_amount(seed_id.clone(), total + shares);
        Ok(total + shares)
    }
}


impl Contract {
    /// The storage balance of a registered account: all it holds, of which
    /// what exceeds [`MIN_STORAGE_BALANCE`] is free.
    pub open spec fn balance_spec(&self, account: Seq<char>) -> Option<StorageBalance> {
        if self.accounts@.dom().contains(account) {
            Some(
                StorageBalance {
                    total: self.accounts@[account],
                    available: (self.accounts@[account] - MIN_STORAGE_BALANCE) as u128,
                },
            )
        } else {
            None
        }
    }

    /// The storage balance of `account_id`, if registered.
    pub fn storage_balance_of(&self, account_id: &String) -> (res: Option<StorageBalance>)
        requires
            self.wf(),
        ensures
            res == self.balance_spec(account_id@),
    {
        match self.accounts.get(account_id) {
            Some(v) => Some(StorageBalance { total: *v, available: *v - MIN_STORAGE_BALANCE }),
            None => None,
        }
    }

    /// The least and the most (none) an account may hold for its storage.
    pub fn storage_balance_bounds(&self) -> (res: (u128, Option<u128>))
        ensures
            res == (MIN_STORAGE_BALANCE, None::<u128>),
    {
        (MIN_STORAGE_BALANCE, None)
    }

    /// A deposit of `amount` for the storage of `account_id` (by default the
    /// caller). An account not yet registered needs at least
    /// [`MIN_STORAGE_BALANCE`]; with `registration_only`, a registered account
    /// gets all of it back and a new one what exceeds the minimum, and is
    /// registered with the minimum; otherwise the account holds `amount` more.
    /// The deposit is added to what the account deposited. Returns the
    /// account's balance and the refund. Refused, changing nothing, where the
    /// vault is paused, the deposit is too small or an amount would overflow.
    pub fn storage_deposit(
        &mut self,
        caller: &String,
        account_id: Option<String>,
        registration_only: Option<bool>,
        amount: u128,
    ) -> (res: Result<(StorageBalance, u128), SafeError>)
        requires
            old(self).wf(),
        ensures
            final(self).wf(),
            ({
                let account = match account_id {
                    Some(a) => a@,
                    None => caller@,
                };
                let reg_only = registration_only == Some(true);
                let already = old(self).accounts@.dom().contains(account);
                let held = if !reg_only {
                    if already {
                        old(self).accounts@[account] + amount
                    } else {
                        amount as int
                    }
                } else if already {
                    old(self).accounts@[account] as int
                } else {
                    MIN_STORAGE_BALANCE as int
                };
                let deposited = if already {
                    old(self).users_total_near_deposited@[account] + amount
                } else {
                    amount as int
                };
                let refund = if !reg_only {
                    0
                } else if already {
                    amount as int
                } else {
                    amount - MIN_STORAGE_BALANCE
                };
                if old(self).state == RunningState::Paused {
                    res == Err::<(StorageBalance, u128), SafeError>(SafeError::ContractPaused) && *final(self) == *old(self)
                } else if amount < MIN_STORAGE_BALANCE && !already {
                    res == Err::<(StorageBalance, u128), SafeError>(SafeError::DepositLessThanMinStorage) && *final(self)
                        == *old(self)
                } else if held > u128::MAX || deposited > u128::MAX {
                    res == Err::<(StorageBalance, u128), SafeError>(SafeError::ArithmeticOverflow) && *final(self)
                        == *old(self)
                } else {
                    &&& final(self).accounts@ == old(self).accounts@.insert(account, held as u128)
                    &&& final(self).users_total_near_deposited@ == old(self).users_total_near_deposited@.insert(
                        account,
                        deposited as u128,
                    )
                    &&& *final(self) == (Contract {
                        accounts: final(self).accounts,
                        users_total_near_deposited: final(self).users_total_near_deposited,
                        ..*old(self)
                    })
                    &&& res matches Ok((b, r)) && Some(b) == final(self).balance_spec(account) && r == refund
                }
            }),
    {
        if self.state == RunningState::Paused {
            return Err(SafeError::ContractPaused);
        }
        let account = match account_id {
            Some(a) => a,
            None => caller.clone(),
        };
        let reg_only = registration_only == Some(true);
        let current = match self.accounts.get(&account) {
            Some(v) => Some(*v),
            None => None,
        };
        let already = current.is_some();
        if amount < MIN_STORAGE_BALANCE && !already {
            return Err(SafeError::DepositLessThanMinStorage);
        }
        let (held, refund) = match current {
            Some(v) => {
                if reg_only {
                    (v, amount)
                } else {
                    if v > u128::MAX - amount {
                        return Err(SafeError::ArithmeticOverflow);
                    }
                    (v + amount, 0)
                }
            },
            None => {
                if reg_only {
                    (MIN_STORAGE_BALANCE, amount - MIN_STORAGE_BALANCE)
                } else {
                    (amount, 0)
                }
            },
        };
        let deposited = if already {
            let before = match self.users_total_near_deposited.get(&account) {
                Some(v) => *v,
                None => 0,
            };
            if before > u128::MAX - amount {
                return Err(SafeError::ArithmeticOverflow);
            }
            before + amount
        } else {
            amount
        };
        self.accounts.insert(account.clone(), held);
        self.users_total_near_deposited.insert(account.clone(), deposited);
        proof {
            assert forall|a: Seq<char>| #[trigger] self.accounts@.dom().contains(a) implies self.users_total_near_deposited@.dom().contains(a)
                && self.accounts@[a] >= MIN_STORAGE_BALANCE by {
                if a != account@ {
                    assert(old(self).accounts@.dom().contains(a));
                }
            }
        }
        Ok((StorageBalance { total: held, available: held - MIN_STORAGE_BALANCE }, refund))
    }

    /// The caller takes back `amount` (by default, all that is free) of its
    /// storage deposit; returns its balance and the amount sent. Refused,
    /// changing nothing, where the vault is paused, the caller is not
    /// registered, or asks for more than it deposited or than is free
    /// (`NotEnoughBalance`).
    pub fn storage_withdraw(&mut self, caller: &String, amount: Option<u128>) -> (res: Result<
        (StorageBalance, u128),
        SafeError,
    >)
        requires
            old(self).wf(),
        ensures
            final(self).wf(),
            ({
                let a = match amount {
                    Some(v) => v,
                    None => 0,
                };
                let registered = old(self).accounts@.dom().contains(caller@);
                let held = old(self).accounts@[caller@];
                let deposited = old(self).users_total_near_deposited@[caller@];
                let free = held - MIN_STORAGE_BALANCE;
                let sent = if a == 0 {
                    free
                } else {
                    a as int
                };
                if old(self).state == RunningState::Paused {
                    res == Err::<(StorageBalance, u128), SafeError>(SafeError::ContractPaused) && *final(self) == *old(self)
                } else if !registered {
                    res == Err::<(StorageBalance, u128), SafeError>(SafeError::AccountNotRegistered) && *final(self)
                        == *old(self)
                } else if deposited < a || sent > free {
                    res == Err::<(StorageBalance, u128), SafeError>(SafeError::NotEnoughBalance) && *final(self)
                        == *old(self)
                } else {
                    &&& final(self).accounts@ == old(self).accounts@.insert(caller@, (held - sent) as u128)
                    &&& final(self).users_total_near_deposited@ == old(self).users_total_near_deposited@.insert(
                        caller@,
                        (deposited - a) as u128,
                    )
                    &&& *final(self) == (Contract {
                        accounts: final(self).accounts,
                        users_total_near_deposited: final(self).users_total_near_deposited,
                        ..*old(self)
                    })
                    &&& res matches Ok((b, r)) && Some(b) == final(self).balance_spec(caller@) && r == sent
                }
            }),
    {
        if self.state == RunningState::Paused {
            return Err(SafeError::ContractPaused);
        }
        let a = match amount {
            Some(v) => v,
            None => 0,
        };
        let held = match self.accounts.get(caller) {
            Some(v) => *v,
            None => return Err(SafeError::AccountNotRegistered),
        };
        let deposited = match self.users_total_near_deposited.get(caller) {
            Some(v) => *v,
            None => 0,
        };
        if deposited < a {
            return Err(SafeError::NotEnoughBalance);
        }
        let free = held - MIN_STORAGE_BALANCE;
        let sent = if a == 0 {
            free
        } else {
            a
        };
        if sent > free {
            return Err(SafeError::NotEnoughBalance);
        }
        self.users_total_near_deposited.insert(caller.clone(), deposited - a);
        self.accounts.insert(caller.clone(), held - sent);
        proof {
            assert forall|x: Seq<char>| #[trigger] self.accounts@.dom().contains(x) implies self.users_total_near_deposited@.dom().contains(x)
                && self.accounts@[x] >= MIN_STORAGE_BALANCE by {
                if x != caller@ {
                    assert(old(self).accounts@.dom().contains(x));
                }
            }
        }
        Ok((StorageBalance { total: held - sent, available: held - sent - MIN_STORAGE_BALANCE }, sent))
    }

    /// The caller leaves: a registered caller is removed and gets back all it
    /// holds (`Some(amount)`); otherwise nothing happens (`None`). Refused
    /// where the vault is paused.
    pub fn storage_unregister(&mut self, caller: &String) -> (res: Result<Option<u128>, SafeError>)
        requires
            old(self).wf(),
        ensures
            final(self).wf(),
            old(self).state == RunningState::Paused ==> res == Err::<Option<u128>, SafeError>(SafeError::ContractPaused)
                && *final(self) == *old(self),
            old(self).state != RunningState::Paused && !old(self).accounts@.dom().contains(caller@) ==> res == Ok::<
                Option<u128>,
                SafeError,
            >(None) && *final(self) == *old(self),
            old(self).state != RunningState::Paused && old(self).accounts@.dom().contains(caller@) ==> res == Ok::<
                Option<u128>,
                SafeError,
            >(Some(old(self).accounts@[caller@])) && final(self).accounts@ == old(self).accounts@.remove(caller@)
                && *final(self) == (Contract { accounts: final(self).accounts, ..*old(self) }),
    {
        if self.state == RunningState::Paused {
            return Err(SafeError::ContractPaused);
        }
        let held = match self.accounts.get(caller) {
            Some(v) => *v,
            None => return Ok(None),
        };
        self.accounts.remove(caller);
        Ok(Some(held))
    }
}


/// The part of `amount` a receiver did not use, from its answer `reported`
/// (`None` where the call failed or gave no amount): at most `amount`.
pub open spec fn unused_of(amount: u128, reported: Option<u128>) -> u128 {
    match reported {
        Some(u) => if u < amount {
            u
        } else {
            amount
        },
        None => amount,
    }
}

impl Contract {
    /// Moves `amount` of the share token `token_id` from the caller to
    /// `receiver_id`; the caller attaches exactly one yoctoNEAR
    /// (`attached_deposit`), else `DepositNotOneYocto`. Refused where the
    /// vault is paused, and as [`ShareLedger::internal_mft_transfer`] says.
    /// Nothing changes on a refusal.
    pub fn mft_transfer(
        &mut self,
        caller: &String,
        attached_deposit: u128,
        token_id: String,
        receiver_id: String,
        amount: u128,
    ) -> (res: Result<(), SafeError>)
        requires
            old(self).wf(),
        ensures
            final(self).wf(),
            ledger_only(*old(self), *final(self)),
            res is Err ==> *final(self) == *old(self),
            attached_deposit != 1 ==> res == Err::<(), SafeError>(SafeError::DepositNotOneYocto),
            attached_deposit == 1 && old(self).state == RunningState::Paused ==> res == Err::<(), SafeError>(
                SafeError::ContractPaused,
            ),
            res is Ok ==> attached_deposit == 1 && old(self).state == RunningState::Running,
            res is Ok ==> {
                &&& caller@ != receiver_id@
                &&& old(self).ledger.balance_of(token_id@, caller@) >= amount
                &&& final(self).ledger.balance_of(token_id@, caller@) == old(self).ledger.balance_of(token_id@, caller@)
                    - amount
                &&& final(self).ledger.balance_of(token_id@, receiver_id@) == old(self).ledger.balance_of(
                    token_id@,
                    receiver_id@,
                ) + amount
                &&& final(self).ledger.balances_agree_except_two(&old(self).ledger, token_id@, caller@, receiver_id@)
                &&& final(self).ledger.total_supply_by_fft_share@ == old(self).ledger.total_supply_by_fft_share@
            },
            attached_deposit == 1 && old(self).state == RunningState::Running && res is Err ==> (caller@
                == receiver_id@ ==> res == Err::<(), SafeError>(SafeError::TransferToSelf)) && (caller@ != receiver_id@
                && old(self).ledger.balance_of(token_id@, caller@) < amount ==> res == Err::<(), SafeError>(
                SafeError::NotEnoughBalance,
            )),
            attached_deposit == 1 && old(self).state == RunningState::Running && caller@ != receiver_id@
                && old(self).ledger.balance_of(token_id@, caller@) >= amount && old(self).ledger.balance_of(
                token_id@,
                receiver_id@,
            ) + amount <= u128::MAX ==> res is Ok,
    {
        if attached_deposit != 1 {
            return Err(SafeError::DepositNotOneYocto);
        }
        if self.state == RunningState::Paused {
            return Err(SafeError::ContractPaused);
        }
        self.ledger.internal_mft_transfer(token_id, caller.clone(), receiver_id, amount)
    }

    /// After a transfer of `amount` of `token_id` from `sender_id` to
    /// `receiver_id` with a call on the receiver: what the receiver did not
    /// use ([`unused_of`]) goes back, as far as the receiver still holds it,
    /// to the sender, or to the owner where the sender is no longer
    /// registered. Returns how much was refunded: zero where nothing was
    /// unused or the receiver holds nothing. Tokens are never burnt.
    pub fn mft_resolve_transfer(
        &mut self,
        token_id: String,
        sender_id: String,
        receiver_id: String,
        amount: u128,
        reported: Option<u128>,
    ) -> (res: Result<u128, SafeError>)
        requires
            old(self).wf(),
        ensures
            final(self).wf(),
            ledger_only(*old(self), *final(self)),
            final(self).ledger.total_supply_by_fft_share@ == old(self).ledger.total_supply_by_fft_share@,
            ({
                let unused = unused_of(amount, reported);
                let held = old(self).ledger.balance_of(token_id@, receiver_id@);
                let refund = if held < unused {
                    held
                } else {
                    unused
                };
                let refund_to = if old(self).accounts@.dom().contains(sender_id@) {
                    sender_id@
                } else {
                    old(self).owner_id@
                };
                if unused == 0 || held == 0 {
                    res == Ok::<u128, SafeError>(0) && *final(self) == *old(self)
                } else if refund_to == receiver_id@ {
                    res == Err::<u128, SafeError>(SafeError::TransferToSelf) && *final(self) == *old(self)
                } else if old(self).ledger.balance_of(token_id@, refund_to) + refund > u128::MAX {
                    res == Err::<u128, SafeError>(SafeError::ArithmeticOverflow) && *final(self) == *old(self)
                } else {
                    &&& res == Ok::<u128, SafeError>(refund)
                    &&& final(self).ledger.balance_of(token_id@, receiver_id@) == held - refund
                    &&& final(self).ledger.balance_of(token_id@, refund_to) == old(self).ledger.balance_of(
                        token_id@,
                        refund_to,
                    ) + refund
                    &&& final(self).ledger.balances_agree_except_two(&old(self).ledger, token_id@, receiver_id@, refund_to)
                }
            }),
    {
        let unused = match reported {
            Some(u) => if u < amount {
                u
            } else {
                amount
            },
            None => amount,
        };
        if unused == 0 {
            return Ok(0);
        }
        let held = self.ledger.users_fft_share_amount(&token_id, &receiver_id);
        if held == 0 {
            return Ok(0);
        }
        let refund = if held < unused {
            held
        } else {
            unused
        };
        let refund_to = if self.accounts.contains_key(&sender_id) {
            sender_id
        } else {
            self.owner_id.clone()
        };
        match self.ledger.internal_mft_transfer(token_id, receiver_id, refund_to, refund) {
            Ok(_) => Ok(refund),
            Err(e) => Err(e),
        }
    }
}


/// The number of farms of the strategies of a list of entries (one for a
/// Pembrock strategy).
pub open spec fn farms_total(s: Seq<(String, VersionedStrategy)>) -> int
    decreases s.len(),
{
    if s.len() == 0 {
        0
    } else {
        farms_total(s.drop_last()) + reward_token_views(s.last().1).len()
    }
}

/// The seed held for each key of a list of entries, added up (none recorded
/// counting as zero).
pub open spec fn seed_total(ledger: ShareLedger, s: Seq<(String, VersionedStrategy)>) -> int
    decreases s.len(),
{
    if s.len() == 0 {
        0
    } else {
        seed_total(ledger, s.drop_last()) + ledger.seed_amount_or_zero(s.last().0@)
    }
}

impl Contract {
    /// What the vault tells of each strategy: its seed, whether a farm of it
    /// runs, and its reward tokens.
    pub fn get_strategies(&self) -> (res: Vec<AutoCompounderInfo>)
        requires
            self.wf(),
        ensures
            res@.len() == self.strategies.entries@.len(),
            forall|i: int| 0 <= i < res@.len() ==> {
                let info = #[trigger] res@[i];
                let e = self.strategies.entries@[i];
                &&& info.seed_id@ == e.0@
                &&& info.is_active == strategy_active(e.1)
                &&& info.reward_tokens@.len() == reward_token_views(e.1).len()
                &&& forall|j: int| 0 <= j < info.reward_tokens@.len() ==> #[trigger] info.reward_tokens@[j]@
                    == reward_token_views(e.1)[j]
            },
    {
        let mut out: Vec<AutoCompounderInfo> = Vec::new();
        let mut i: usize = 0;
        while i < self.strategies.entries.len()
            invariant
                i <= self.strategies.entries@.len(),
                out@.len() == i,
                forall|k: int| 0 <= k < i ==> {
                    let info = #[trigger] out@[k];
                    let e = self.strategies.entries@[k];
                    &&& info.seed_id@ == e.0@
                    &&& info.is_active == strategy_active(e.1)
                    &&& info.reward_tokens@.len() == reward_token_views(e.1).len()
                    &&& forall|j: int| 0 <= j < info.reward_tokens@.len() ==> #[trigger] info.reward_tokens@[j]@
                        == reward_token_views(e.1)[j]
                },
            decreases self.strategies.entries@.len() - i,
        {
            let entry = &self.strategies.entries[i];
            out.push(entry.1.info(entry.0.clone()));
            i = i + 1;
        }
        out
    }

    /// The seed ids (and strategy names) that have a strategy.
    pub fn get_allowed_tokens(&self) -> (res: Vec<String>)
        ensures
            res@.len() == self.strategies.entries@.len(),
            forall|j: int| 0 <= j < res@.len() ==> #[trigger] res@[j]@ == self.strategies.entries@[j].0@,
    {
        self.strategies.keys()
    }

    /// The guardians.
    pub fn get_guardians(&self) -> (res: Vec<String>)
        ensures
            res@.len() == self.guardians.entries@.len(),
            forall|j: int| 0 <= j < res@.len() ==> #[trigger] res@[j]@ == self.guardians.entries@[j].0@,
    {
        self.guardians.keys()
    }

    /// The allowed accounts.
    pub fn get_allowed_accounts(&self) -> (res: Vec<String>)
        ensures
            res@.len() == self.allowed_accounts@.len(),
            forall|j: int| 0 <= j < res@.len() ==> #[trigger] res@[j]@ == self.allowed_accounts@[j]@,
    {
        let mut out: Vec<String> = Vec::new();
        let mut i: usize = 0;
        while i < self.allowed_accounts.len()
            invariant
                i <= self.allowed_accounts@.len(),
                out@.len() == i,
                forall|j: int| 0 <= j < i ==> #[trigger] out@[j]@ == self.allowed_accounts@[j]@,
            decreases self.allowed_accounts@.len() - i,
        {
            out.push(self.allowed_accounts[i].clone());
            i = i + 1;
        }
        out
    }

    /// The strategy stored under `key`; `StrategyDoesNotExist` if none is.
    pub fn get_strat(&self, key: &String) -> (res: Result<&VersionedStrategy, SafeError>)
        requires
            self.wf(),
        ensures
            match res {
                Ok(v) => self.strategies@.dom().contains(key@) && *v == self.strategies@[key@] && v.wf(),
                Err(e) => e == SafeError::StrategyDoesNotExist && !self.strategies@.dom().contains(key@),
            },
    {
        match self.strategies.get(key) {
            Some(v) => Ok(v),
            None => Err(SafeError::StrategyDoesNotExist),
        }
    }

    /// Whether a farm of the strategy of `seed_id` runs.
    pub fn is_strategy_active(&self, seed_id: &String) -> (res: Result<bool, SafeError>)
        requires
            self.wf(),
        ensures
            match res {
                Ok(b) => self.strategies@.dom().contains(seed_id@) && b == strategy_active(self.strategies@[seed_id@]),
                Err(e) => e == SafeError::StrategyDoesNotExist && !self.strategies@.dom().contains(seed_id@),
            },
    {
        let strat = self.get_strat(seed_id)?;
        Ok(strat.is_active())
    }

    /// The number of farms of the strategy of `seed_id` (one for Pembrock).
    pub fn number_of_strategies_by_seed(&self, seed_id: &String) -> (res: Result<usize, SafeError>)
        requires
            self.wf(),
        ensures
            match res {
                Ok(n) => self.strategies@.dom().contains(seed_id@) && n == reward_token_views(
                    self.strategies@[seed_id@],
                ).len(),
                Err(e) => e == SafeError::StrategyDoesNotExist && !self.strategies@.dom().contains(seed_id@),
            },
    {
        let strat = self.get_strat(seed_id)?;
        Ok(strat.farm_count())
    }

    /// The number of farms of all strategies (one for each Pembrock strategy).
    pub fn number_of_strategies(&self) -> (res: u128)
        ensures
            res == farms_total(self.strategies.entries@),
    {
        let mut count: u128 = 0;
        let mut i: usize = 0;
        while i < self.strategies.entries.len()
            invariant
                i <= self.strategies.entries@.len(),
                count == farms_total(self.strategies.entries@.take(i as int)),
                count <= i * 0xFFFF_FFFF_FFFF_FFFFu128,
            decreases self.strategies.entries@.len() - i,
        {
            let n = self.strategies.entries[i].1.farm_count();
            proof {
                assert(self.strategies.entries@.take(i + 1).drop_last() =~= self.strategies.entries@.take(i as int));
                assert(n <= 0xFFFF_FFFF_FFFF_FFFFu128);
                assert(count + n <= (i + 1) * 0xFFFF_FFFF_FFFF_FFFFu128) by (nonlinear_arith)
                    requires
                        count <= i * 0xFFFF_FFFF_FFFF_FFFFu128,
                        n <= 0xFFFF_FFFF_FFFF_FFFFu128,
                ;
                assert((i + 1) * 0xFFFF_FFFF_FFFF_FFFFu128 <= u128::MAX) by (nonlinear_arith)
                    requires
                        i < 0xFFFF_FFFF_FFFF_FFFFu128,
                ;
            }
            count = count + n as u128;
            i = i + 1;
        }
        assert(self.strategies.entries@.take(i as int) =~= self.strategies.entries@);
        count
    }

    /// The seed the vault holds for all its strategies, added up;
    /// `ArithmeticOverflow` where the sum does not fit.
    pub fn get_contract_amount(&self) -> (res: Result<u128, SafeError>)
        requires
            self.wf(),
        ensures
            match res {
                Ok(v) => v == seed_total(self.ledger, self.strategies.entries@),
                Err(e) => e == SafeError::ArithmeticOverflow && seed_total(self.ledger, self.strategies.entries@)
                    > u128::MAX,
            },
    {
        let mut amount: u128 = 0;
        let mut i: usize = 0;
        while i < self.strategies.entries.len()
            invariant
                i <= self.strategies.entries@.len(),
                self.ledger.wf(),
                amount == seed_total(self.ledger, self.strategies.entries@.take(i as int)),
            decreases self.strategies.entries@.len() - i,
        {
            let v = match self.ledger.seed_total_amount(&self.strategies.entries[i].0) {
                Some(v) => v,
                None => 0,
            };
            proof {
                assert(self.strategies.entries@.take(i + 1).drop_last() =~= self.strategies.entries@.take(i as int));
            }
            if amount > u128::MAX - v {
                proof {
                    lemma_seed_total_monotone(self.ledger, self.strategies.entries@, i as int + 1);
                }
                return Err(SafeError::ArithmeticOverflow);
            }
            amount = amount + v;
            i = i + 1;
        }
        assert(self.strategies.entries@.take(i as int) =~= self.strategies.entries@);
        Ok(amount)
    }

    /// The strategy's fee, written `fee%`.
    pub fn check_fee_by_strategy(&self, seed_id: &String) -> (res: Result<String, SafeError>)
        requires
            self.wf(),
        ensures
            match res {
                Ok(t) => self.strategies@.dom().contains(seed_id@) && t@ == decimal(
                    fees_of(self.strategies@[seed_id@]).strategy_fee as nat,
                ) + seq!['%'],
                Err(e) => e == SafeError::StrategyDoesNotExist && !self.strategies@.dom().contains(seed_id@),
            },
    {
        let strat = self.get_strat(seed_id)?;
        let mut t = crate::ids::u128_to_string(strat.strategy_fee());
        proof {
            reveal_strlit("%");
        }
        t.append("%");
        Ok(t)
    }

    /// The owner sets the least amount the strategy of `seed_id` stakes;
    /// returns it. Refused, changing nothing, where the caller may not
    /// (`NotAllowed`), there is no such strategy, or it is a Pembrock one,
    /// which has no minimum deposit (`WrongStrategyKind`).
    pub fn update_seed_min_deposit(
        &mut self,
        caller: &String,
        current_account: &String,
        seed_id: &String,
        min_deposit: u128,
    ) -> (res: Result<u128, SafeError>)
        requires
            old(self).wf(),
        ensures
            final(self).wf(),
            !old(self).owner_call(caller@, current_account@) ==> res == Err::<u128, SafeError>(SafeError::NotAllowed)
                && *final(self) == *old(self),
            old(self).owner_call(caller@, current_account@) && !old(self).strategies@.dom().contains(seed_id@) ==> res
                == Err::<u128, SafeError>(SafeError::StrategyDoesNotExist) && *final(self) == *old(self),
            old(self).owner_call(caller@, current_account@) && old(self).strategies@.dom().contains(seed_id@) ==> match old(
                self,
            ).strategies@[seed_id@] {
                VersionedStrategy::AutoCompounder(a) => res == Ok::<u128, SafeError>(min_deposit) && strategy_replaced(
                    *old(self),
                    *final(self),
                    seed_id@,
                    VersionedStrategy::AutoCompounder(AutoCompounder { seed_min_deposit: min_deposit, ..a }),
                ),
                VersionedStrategy::StableAutoCompounder(a) => res == Ok::<u128, SafeError>(min_deposit)
                    && strategy_replaced(
                    *old(self),
                    *final(self),
                    seed_id@,
                    VersionedStrategy::StableAutoCompounder(StableAutoCompounder { seed_min_deposit: min_deposit, ..a }),
                ),
                VersionedStrategy::JumboAutoCompounder(a) => res == Ok::<u128, SafeError>(min_deposit)
                    && strategy_replaced(
                    *old(self),
                    *final(self),
                    seed_id@,
                    VersionedStrategy::JumboAutoCompounder(JumboAutoCompounder { seed_min_deposit: min_deposit, ..a }),
                ),
                VersionedStrategy::PembrockAutoCompounder(_) => res == Err::<u128, SafeError>(
                    SafeError::WrongStrategyKind,
                ) && *final(self) == *old(self),
            },
    {
        self.is_owner(caller, current_account)?;
        let i = match self.strategies.find(seed_id) {
            Some(i) => i,
            None => return Err(SafeError::StrategyDoesNotExist),
        };
        let ghost old_entries = self.strategies.entries@;
        let ghost key = old_entries[i as int].0@;
        proof {
            crate::strmap::lemma_map_of_value(old_entries, i as int);
        }
        if let VersionedStrategy::PembrockAutoCompounder(_) = &self.strategies.entries[i].1 {
            return Err(SafeError::WrongStrategyKind);
        }
        let strat = self.strategies.value_at_mut(i);
        match strat {
            VersionedStrategy::AutoCompounder(c) => {
                c.seed_min_deposit = min_deposit;
            },
            VersionedStrategy::StableAutoCompounder(c) => {
                c.seed_min_deposit = min_deposit;
            },
            VersionedStrategy::JumboAutoCompounder(c) => {
                c.seed_min_deposit = min_deposit;
            },
            VersionedStrategy::PembrockAutoCompounder(_) => {},
        }
        let ghost nv = *strat;
        proof {
            lemma_map_of_update(old_entries, i as int, nv);
            crate::strmap::lemma_map_of_value(self.strategies.entries@, i as int);
            assert forall|k: Seq<char>| #[trigger] self.strategies@.dom().contains(k) implies self.strategies@[k].wf() by {
                if k != key {
                    assert(old(self).strategies@.dom().contains(k));
                }
            }
        }
        Ok(min_deposit)
    }

    /// The least amount the strategy of `seed_id` stakes (none for Pembrock).
    pub fn get_seed_min_deposit(&self, seed_id: &String) -> (res: Result<u128, SafeError>)
        requires
            self.wf(),
        ensures
            match res {
                Ok(v) => self.strategies@.dom().contains(seed_id@) && v == match self.strategies@[seed_id@] {
                    VersionedStrategy::AutoCompounder(c) => c.seed_min_deposit,
                    VersionedStrategy::StableAutoCompounder(c) => c.seed_min_deposit,
                    VersionedStrategy::JumboAutoCompounder(c) => c.seed_min_deposit,
                    VersionedStrategy::PembrockAutoCompounder(_) => 0,
                },
                Err(e) => e == SafeError::StrategyDoesNotExist && !self.strategies@.dom().contains(seed_id@),
            },
    {
        let strat = self.get_strat(seed_id)?;
        Ok(strat.seed_min_deposit())
    }

    /// When the strategy of `seed_id` was last harvested.
    pub fn get_harvest_timestamp(&self, seed_id: &String) -> (res: Result<u64, SafeError>)
        requires
            self.wf(),
        ensures
            match res {
                Ok(v) => self.strategies@.dom().contains(seed_id@) && v == match self.strategies@[seed_id@] {
                    VersionedStrategy::AutoCompounder(c) => c.harvest_timestamp,
                    VersionedStrategy::StableAutoCompounder(c) => c.harvest_timestamp,
                    VersionedStrategy::JumboAutoCompounder(c) => c.harvest_timestamp,
                    VersionedStrategy::PembrockAutoCompounder(p) => p.harvest_timestamp,
                },
                Err(e) => e == SafeError::StrategyDoesNotExist && !self.strategies@.dom().contains(seed_id@),
            },
    {
        let strat = self.get_strat(seed_id)?;
        Ok(strat.harvest_timestamp())
    }

    /// The kind of the strategy of `seed_id`.
    pub fn get_strategy_kind(&self, seed_id: &String) -> (res: Result<String, SafeError>)
        requires
            self.wf(),
        ensures
            match res {
                Ok(t) => self.strategies@.dom().contains(seed_id@) && t@ == kind_name(self.strategies@[seed_id@]),
                Err(e) => e == SafeError::StrategyDoesNotExist && !self.strategies@.dom().contains(seed_id@),
            },
    {
        let strat = self.get_strat(seed_id)?;
        Ok(strat.kind())
    }

    /// `current_account is Running` or `current_account is Paused`.
    pub fn get_contract_state(&self, current_account: &String) -> (res: String)
        ensures
            res@ == current_account@ + seq![' ', 'i', 's', ' '] + (if self.state == RunningState::Running {
                seq!['R', 'u', 'n', 'n', 'i', 'n', 'g']
            } else {
                seq!['P', 'a', 'u', 's', 'e', 'd']
            }),
    {
        let mut t = current_account.clone();
        proof {
            reveal_strlit(" is ");
        }
        t.append(" is ");
        let name = self.state.name();
        t.append(name.as_str());
        t
    }
}

/// The seed held for the first `i` entries is at most that held for all.
pub proof fn lemma_seed_total_monotone(ledger: ShareLedger, s: Seq<(String, VersionedStrategy)>, i: int)
    requires
        0 <= i <= s.len(),
    ensures
        seed_total(ledger, s.take(i)) <= seed_total(ledger, s),
    decreases s.len(),
{
    if i < s.len() {
        assert(s.drop_last().take(i) =~= s.take(i));
        lemma_seed_total_monotone(ledger, s.drop_last(), i);
    } else {
        assert(s.take(i) =~= s);
    }
}


/// The stage of a harvest that [`Contract::current_strat_step`] shows: of the
/// Pembrock strategy `strat_name`, or of the farm of a farm id string.
pub open spec fn strat_step_is(c: Contract, farm_id_str: Seq<char>, strat_name: Seq<char>, res: Result<String, SafeError>) -> bool {
    if strat_name.len() > 0 {
        if !c.strategies@.dom().contains(strat_name) {
            res == Err::<String, SafeError>(SafeError::StrategyDoesNotExist)
        } else {
            match c.strategies@[strat_name] {
                VersionedStrategy::PembrockAutoCompounder(p) => res matches Ok(t) && t@ == pemb_cycle_name(p.cycle_stage),
                _ => res == Err::<String, SafeError>(SafeError::WrongStrategyKind),
            }
        }
    } else if !is_farm_id_spec(farm_id_str) {
        res == Err::<String, SafeError>(SafeError::InvalidFarmId)
    } else {
        let seed = farm_seed_id(farm_id_str);
        let farm_id = farm_farm_id(farm_id_str);
        if !c.strategies@.dom().contains(seed) {
            res == Err::<String, SafeError>(SafeError::StrategyDoesNotExist)
        } else {
            match c.strategies@[seed] {
                VersionedStrategy::AutoCompounder(a) => if has_farm(a.farm_ids(), farm_id) {
                    res matches Ok(t) && t@ == cycle_name(a.farms@[first_farm(a.farm_ids(), farm_id)].cycle_stage)
                } else {
                    res == Err::<String, SafeError>(SafeError::FarmDoesNotExist)
                },
                VersionedStrategy::StableAutoCompounder(a) => if has_farm(a.farm_ids(), farm_id) {
                    res matches Ok(t) && t@ == cycle_name(a.farms@[first_farm(a.farm_ids(), farm_id)].cycle_stage)
                } else {
                    res == Err::<String, SafeError>(SafeError::FarmDoesNotExist)
                },
                VersionedStrategy::JumboAutoCompounder(a) => if has_farm(a.farm_ids(), farm_id) {
                    res matches Ok(t) && t@ == jumbo_cycle_name(
                        a.farms@[first_farm(a.farm_ids(), farm_id)].cycle_stage,
                    )
                } else {
                    res == Err::<String, SafeError>(SafeError::FarmDoesNotExist)
                },
                VersionedStrategy::PembrockAutoCompounder(_) => res == Err::<String, SafeError>(
                    SafeError::WrongStrategyKind,
                ),
            }
        }
    }
}

impl Contract {
    /// The stage of the harvest of the Pembrock strategy `strat_name`, or, with
    /// no name, of the farm `farm_id_str`: see [`strat_step_is`].
    pub fn current_strat_step(&self, farm_id_str: &String, strat_name: &String) -> (res: Result<String, SafeError>)
        requires
            self.wf(),
        ensures
            strat_step_is(*self, farm_id_str@, strat_name@, res),
    {
        if strat_name.unicode_len() > 0 {
            let strat = self.get_strat(strat_name)?;
            return match strat {
                VersionedStrategy::PembrockAutoCompounder(p) => Ok(p.cycle_stage.name()),
                _ => Err(SafeError::WrongStrategyKind),
            };
        }
        if !is_farm_id(farm_id_str.as_str()) {
            return Err(SafeError::InvalidFarmId);
        }
        let (seed_id, _, farm_id) = get_ids_from_farm(farm_id_str.clone());
        let strat = self.get_strat(&seed_id)?;
        match strat {
            VersionedStrategy::AutoCompounder(a) => match a.farm_index(&farm_id) {
                Some(i) => {
                    proof {
                        lemma_first_farm(a.farm_ids(), farm_id@, i as int);
                    }
                    Ok(a.farms[i].cycle_stage.name())
                },
                None => {
                    proof {
                        lemma_no_farm(a.farm_ids(), farm_id@);
                    }
                    Err(SafeError::FarmDoesNotExist)
                },
            },
            VersionedStrategy::StableAutoCompounder(a) => match a.farm_index(&farm_id) {
                Some(i) => {
                    proof {
                        lemma_first_farm(a.farm_ids(), farm_id@, i as int);
                    }
                    Ok(a.farms[i].cycle_stage.name())
                },
                None => {
                    proof {
                        lemma_no_farm(a.farm_ids(), farm_id@);
                    }
                    Err(SafeError::FarmDoesNotExist)
                },
            },
            VersionedStrategy::JumboAutoCompounder(a) => match a.farm_index(&farm_id) {
                Some(i) => {
                    proof {
                        lemma_first_farm(a.farm_ids(), farm_id@, i as int);
                    }
                    Ok(a.farms[i].cycle_stage.name())
                },
                None => {
                    proof {
                        lemma_no_farm(a.farm_ids(), farm_id@);
                    }
                    Err(SafeError::FarmDoesNotExist)
                },
            },
            VersionedStrategy::PembrockAutoCompounder(_) => Err(SafeError::WrongStrategyKind),
        }
    }
}


/// Where `farm_id_str` names a farm of a Ref Finance strategy: the strategy's
/// key, the strategy and the farm's position.
pub open spec fn names_ref_farm(c: Contract, farm_id_str: Seq<char>) -> bool {
    &&& is_farm_id_spec(farm_id_str)
    &&& c.strategies@.dom().contains(farm_seed_id(farm_id_str))
    &&& c.strategies@[farm_seed_id(farm_id_str)] matches VersionedStrategy::AutoCompounder(a)
        && has_farm(a.farm_ids(), farm_farm_id(farm_id_str))
}

/// Why a farm id string names no farm of a Ref Finance strategy.
pub open spec fn ref_farm_error(c: Contract, farm_id_str: Seq<char>) -> SafeError {
    if !is_farm_id_spec(farm_id_str) {
        SafeError::InvalidFarmId
    } else if !c.strategies@.dom().contains(farm_seed_id(farm_id_str)) {
        SafeError::StrategyDoesNotExist
    } else if !(c.strategies@[farm_seed_id(farm_id_str)] is AutoCompounder) {
        SafeError::WrongStrategyKind
    } else {
        SafeError::FarmDoesNotExist
    }
}

/// `new` is `old` with the first farm named by `farm_id_str` (of a Ref Finance
/// strategy) replaced by `f`.
pub open spec fn ref_farm_replaced(old: Contract, new: Contract, farm_id_str: Seq<char>, f: StratFarmInfo) -> bool {
    let seed = farm_seed_id(farm_id_str);
    let a = old.strategies@[seed]->AutoCompounder_0;
    let i = first_farm(a.farm_ids(), farm_farm_id(farm_id_str));
    new.strategies@[seed] matches VersionedStrategy::AutoCompounder(n) && strategy_replaced(
        old,
        new,
        seed,
        VersionedStrategy::AutoCompounder(n),
    ) && n == (AutoCompounder { farms: n.farms, ..a }) && n.farms@ == a.farms@.update(i, f)
}

/// What the farm's answer on the withdrawal of the reward of the farm
/// `farm_id_str` (of a Ref Finance strategy over a two-token pool) does
/// (`old` becoming `new`), as the strategy's own step
/// ([`AutoCompounder::callback_post_withdraw`]) and the vault's treasury
/// together see it: the reward is split by [`fee_split`], the creator's fee is
/// added to what the creator is owed, the sentry's fee is held under
/// `current_account`, the farm keeps what is left, and the protocol fee is
/// added to what the vault's treasury is owed. Returns the amount sent on to
/// the exchange: what is left and the protocol fee. Refused, changing nothing,
/// where the withdrawal failed, the farm is not found, the fees cannot be
/// split or an amount owed would overflow.
pub open spec fn post_withdraw_step(
    old: Contract,
    new: Contract,
    withdraw_ok: bool,
    farm_id_str: Seq<char>,
    current_account: Seq<char>,
    res: Result<u128, SafeError>,
) -> bool {
    if !withdraw_ok {
        res == Err::<u128, SafeError>(SafeError::PromiseFailed) && new == old
    } else if !names_ref_farm(old, farm_id_str) {
        res == Err::<u128, SafeError>(ref_farm_error(old, farm_id_str)) && new == old
    } else {
        let seed = farm_seed_id(farm_id_str);
        let a = old.strategies@[seed]->AutoCompounder_0;
        let i = first_farm(a.farm_ids(), farm_farm_id(farm_id_str));
        let f = a.farms@[i]@;
        let fees = a.admin_fees;
        match fee_split(
            fees.strategy_fee as int,
            fees.sentries_fee as int,
            fees.strat_creator.fee_percentage as int,
            f.last_reward_amount as int,
        ) {
            None => res == Err::<u128, SafeError>(SafeError::FeeNotValid) && new == old,
            Some(t) => if fees.strat_creator.current_amount + t.3 > u128::MAX || old.treasury.current_amount + t.1
                > u128::MAX {
                res == Err::<u128, SafeError>(SafeError::ArithmeticOverflow) && new == old
            } else {
                &&& res == Ok::<u128, SafeError>((t.0 + t.1) as u128)
                &&& new == (Contract {
                    strategies: new.strategies,
                    treasury: AccountFee {
                        current_amount: (old.treasury.current_amount + t.1) as u128,
                        ..old.treasury
                    },
                    ..old
                })
                &&& new.strategies@ == old.strategies@.insert(seed, new.strategies@[seed])
                &&& new.strategies@[seed] matches VersionedStrategy::AutoCompounder(n) && n == (AutoCompounder {
                    admin_fees: n.admin_fees,
                    farms: n.farms,
                    ..a
                }) && others_unchanged(a.farms@, n.farms@, i) && n.farms@[i]@ == (StratFarmView {
                    last_reward_amount: t.0 as u128,
                    ..f
                }) && n.admin_fees.strat_creator == (AccountFee {
                    current_amount: (fees.strat_creator.current_amount + t.3) as u128,
                    ..fees.strat_creator
                }) && n.admin_fees.strategy_fee == fees.strategy_fee && n.admin_fees.sentries_fee
                    == fees.sentries_fee && n.admin_fees.sentries@ == fees.sentries@.insert(
                    current_account,
                    t.2 as u128,
                )
            },
        }
    }
}

impl Contract {
    /// Finds the first farm named by `farm_id_str` among those of a Ref
    /// Finance strategy: `(position of the strategy's entry, farm position)`.
    fn find_ref_farm(&self, farm_id_str: &String) -> (res: Result<(usize, usize), SafeError>)
        requires
            self.wf(),
        ensures
            match res {
                Ok((i, j)) => names_ref_farm(*self, farm_id_str@) && i < self.strategies.entries@.len()
                    && self.strategies.entries@[i as int].0@ == farm_seed_id(farm_id_str@)
                    && j == first_farm(
                    self.strategies@[farm_seed_id(farm_id_str@)]->AutoCompounder_0.farm_ids(),
                    farm_farm_id(farm_id_str@),
                ) && j < self.strategies@[farm_seed_id(farm_id_str@)]->AutoCompounder_0.farms@.len(),
                Err(e) => !names_ref_farm(*self, farm_id_str@) && e == ref_farm_error(*self, farm_id_str@),
            },
    {
        if !is_farm_id(farm_id_str.as_str()) {
            return Err(SafeError::InvalidFarmId);
        }
        let (seed_id, _, farm_id) = get_ids_from_farm(farm_id_str.clone());
        let i = match self.strategies.find(&seed_id) {
            Some(i) => i,
            None => return Err(SafeError::StrategyDoesNotExist),
        };
        proof {
            crate::strmap::lemma_map_of_value(self.strategies.entries@, i as int);
        }
        match &self.strategies.entries[i].1 {
            VersionedStrategy::AutoCompounder(a) => match a.farm_index(&farm_id) {
                Some(j) => {
                    proof {
                        lemma_first_farm(a.farm_ids(), farm_id@, j as int);
                    }
                    Ok((i, j))
                },
                None => {
                    proof {
                        lemma_no_farm(a.farm_ids(), farm_id@);
                    }
                    Err(SafeError::FarmDoesNotExist)
                },
            },
            _ => Err(SafeError::WrongStrategyKind),
        }
    }

    /// An owner or guardian sets how much a swap of the farm `farm_id_str`
    /// (of a Ref Finance strategy) may lose: its slippage becomes
    /// `100 - new_slippage`. Refused, changing nothing, where the caller may
    /// not, the farm is not found, or `new_slippage` exceeds 100
    /// (`ArithmeticOverflow`).
    pub fn update_strat_slippage(&mut self, caller: &String, farm_id_str: &String, new_slippage: u128) -> (res: Result<
        (),
        SafeError,
    >)
        requires
            old(self).wf(),
        ensures
            final(self).wf(),
            !old(self).owner_or_guardian(caller@) ==> res == Err::<(), SafeError>(SafeError::NotAllowed)
                && *final(self) == *old(self),
            old(self).owner_or_guardian(caller@) && !names_ref_farm(*old(self), farm_id_str@) ==> res == Err::<
                (),
                SafeError,
            >(ref_farm_error(*old(self), farm_id_str@)) && *final(self) == *old(self),
            old(self).owner_or_guardian(caller@) && names_ref_farm(*old(self), farm_id_str@) && new_slippage > 100
                ==> res == Err::<(), SafeError>(SafeError::ArithmeticOverflow) && *final(self) == *old(self),
            old(self).owner_or_guardian(caller@) && names_ref_farm(*old(self), farm_id_str@) && new_slippage <= 100
                ==> res is Ok && ({
                let a = old(self).strategies@[farm_seed_id(farm_id_str@)]->AutoCompounder_0;
                let f = a.farms@[first_farm(a.farm_ids(), farm_farm_id(farm_id_str@))];
                ref_farm_replaced(
                    *old(self),
                    *final(self),
                    farm_id_str@,
                    StratFarmInfo { slippage: (100 - new_slippage) as u128, ..f },
                )
            }),
    {
        if !self.is_owner_or_guardians(caller) {
            return Err(SafeError::NotAllowed);
        }
        let (i, j) = self.find_ref_farm(farm_id_str)?;
        if new_slippage > 100 {
            return Err(SafeError::ArithmeticOverflow);
        }
        let ghost old_entries = self.strategies.entries@;
        let ghost key = old_entries[i as int].0@;
        proof {
            crate::strmap::lemma_map_of_value(old_entries, i as int);
        }
        let strat = self.strategies.value_at_mut(i);
        match strat {
            VersionedStrategy::AutoCompounder(c) => {
                c.farms[j].slippage = 100 - new_slippage;
            },
            _ => {},
        }
        let ghost nv = *strat;
        proof {
            let a = old_entries[i as int].1->AutoCompounder_0;
            let n = nv->AutoCompounder_0;
            assert forall|x: int| 0 <= x < n.farms@.len() implies crate::compounder::farm_wf(#[trigger] n.farms@[x]@) by {
                assert(crate::compounder::farm_wf(a.farms@[x]@));
            }
            lemma_map_of_update(old_entries, i as int, nv);
            crate::strmap::lemma_map_of_value(self.strategies.entries@, i as int);
            assert forall|k: Seq<char>| #[trigger] self.strategies@.dom().contains(k) implies self.strategies@[k].wf() by {
                if k != key {
                    assert(old(self).strategies@.dom().contains(k));
                }
            }
        }
        Ok(())
    }

    /// After the farm answered the withdrawal of the reward of the farm
    /// `farm_id_str` (`withdraw_ok` false where it failed): the fees are taken
    /// and the protocol fee is owed to the treasury, as [`post_withdraw_step`]
    /// says.
    pub fn callback_post_withdraw(&mut self, withdraw_ok: bool, farm_id_str: &String, current_account: &String) -> (res:
        Result<u128, SafeError>)
        requires
            old(self).wf(),
        ensures
            final(self).wf(),
            post_withdraw_step(*old(self), *final(self), withdraw_ok, farm_id_str@, current_account@, res),
    {
        if !withdraw_ok {
            return Err(SafeError::PromiseFailed);
        }
        let (i, j) = self.find_ref_farm(farm_id_str)?;
        let ghost old_entries = self.strategies.entries@;
        let ghost key = old_entries[i as int].0@;
        proof {
            crate::strmap::lemma_map_of_value(old_entries, i as int);
        }
        let protocol = match &self.strategies.entries[i].1 {
            VersionedStrategy::AutoCompounder(c) => {
                let t = match compute_fees(&c.admin_fees, c.farms[j].last_reward_amount) {
                    Some(t) => t,
                    None => return Err(SafeError::FeeNotValid),
                };
                if c.admin_fees.strat_creator.current_amount > u128::MAX - t.3 {
                    return Err(SafeError::ArithmeticOverflow);
                }
                t.1
            },
            _ => 0,
        };
        if self.treasury.current_amount > u128::MAX - protocol {
            return Err(SafeError::ArithmeticOverflow);
        }
        let strat = self.strategies.value_at_mut(i);
        let sent = match strat {
            VersionedStrategy::AutoCompounder(c) => match c.callback_post_withdraw(j, current_account) {
                Ok(r) => r.1,
                Err(_) => 0,
            },
            _ => 0,
        };
        let ghost nv = *strat;
        proof {
            lemma_map_of_update(old_entries, i as int, nv);
            crate::strmap::lemma_map_of_value(self.strategies.entries@, i as int);
            assert forall|k: Seq<char>| #[trigger] self.strategies@.dom().contains(k) implies self.strategies@[k].wf() by {
                if k != key {
                    assert(old(self).strategies@.dom().contains(k));
                }
            }
        }
        self.treasury.current_amount = self.treasury.current_amount + protocol;
        Ok(sent)
    }

    /// Sets the state of the farm `farm_id_str` of a Ref Finance strategy.
    /// Refused, changing nothing, where the farm is not found.
    pub fn update_compounder_state(&mut self, farm_id_str: &String, state: AutoCompounderState) -> (res: Result<
        (),
        SafeError,
    >)
        requires
            old(self).wf(),
        ensures
            final(self).wf(),
            !names_ref_farm(*old(self), farm_id_str@) ==> res == Err::<(), SafeError>(
                ref_farm_error(*old(self), farm_id_str@),
            ) && *final(self) == *old(self),
            names_ref_farm(*old(self), farm_id_str@) ==> res is Ok && ({
                let a = old(self).strategies@[farm_seed_id(farm_id_str@)]->AutoCompounder_0;
                let f = a.farms@[first_farm(a.farm_ids(), farm_farm_id(farm_id_str@))];
                ref_farm_replaced(*old(self), *final(self), farm_id_str@, StratFarmInfo { state, ..f })
            }),
    {
        let (i, j) = self.find_ref_farm(farm_id_str)?;
        let ghost old_entries = self.strategies.entries@;
        let ghost key = old_entries[i as int].0@;
        proof {
            crate::strmap::lemma_map_of_value(old_entries, i as int);
        }
        let strat = self.strategies.value_at_mut(i);
        match strat {
            VersionedStrategy::AutoCompounder(c) => {
                c.farms[j].state = state;
            },
            _ => {},
        }
        let ghost nv = *strat;
        proof {
            let a = old_entries[i as int].1->AutoCompounder_0;
            let n = nv->AutoCompounder_0;
            assert forall|x: int| 0 <= x < n.farms@.len() implies crate::compounder::farm_wf(#[trigger] n.farms@[x]@) by {
                assert(crate::compounder::farm_wf(a.farms@[x]@));
            }
            lemma_map_of_update(old_entries, i as int, nv);
            crate::strmap::lemma_map_of_value(self.strategies.entries@, i as int);
            assert forall|k: Seq<char>| #[trigger] self.strategies@.dom().contains(k) implies self.strategies@[k].wf() by {
                if k != key {
                    assert(old(self).strategies@.dom().contains(k));
                }
            }
        }
        Ok(())
    }

    /// Removes the strategy stored under `strat_name`, if any.
    pub fn delete_strategy_by_strat_name(&mut self, strat_name: &String)
        requires
            old(self).wf(),
        ensures
            final(self).wf(),
            final(self).strategies@ == old(self).strategies@.remove(strat_name@),
            *final(self) == (Contract { strategies: final(self).strategies, ..*old(self) }),
    {
        self.strategies.remove(strat_name);
        proof {
            assert forall|k: Seq<char>| #[trigger] self.strategies@.dom().contains(k) implies self.strategies@[k].wf() by {
                assert(old(self).strategies@.dom().contains(k));
            }
        }
    }
}


/// What deleting the farm named by `farm_id_str` does: the first farm with
/// that id is removed from its (Ref Finance, stable or Jumbo) strategy, if
/// there is one.
pub open spec fn farm_deleted(old: Contract, new: Contract, farm_id_str: Seq<char>, res: Result<(), SafeError>) -> bool {
    let seed = farm_seed_id(farm_id_str);
    let farm_id = farm_farm_id(farm_id_str);
    if !is_farm_id_spec(farm_id_str) {
        res == Err::<(), SafeError>(SafeError::InvalidFarmId) && new == old
    } else if !old.strategies@.dom().contains(seed) {
        res == Err::<(), SafeError>(SafeError::StrategyDoesNotExist) && new == old
    } else {
        match old.strategies@[seed] {
            VersionedStrategy::AutoCompounder(a) => res is Ok && if has_farm(a.farm_ids(), farm_id) {
                new.strategies@[seed] matches VersionedStrategy::AutoCompounder(n) && strategy_replaced(
                    old,
                    new,
                    seed,
                    VersionedStrategy::AutoCompounder(n),
                ) && n == (AutoCompounder { farms: n.farms, ..a }) && n.farms@ == a.farms@.remove(
                    first_farm(a.farm_ids(), farm_id),
                )
            } else {
                new == old
            },
            VersionedStrategy::StableAutoCompounder(a) => res is Ok && if has_farm(a.farm_ids(), farm_id) {
                new.strategies@[seed] matches VersionedStrategy::StableAutoCompounder(n) && strategy_replaced(
                    old,
                    new,
                    seed,
                    VersionedStrategy::StableAutoCompounder(n),
                ) && n == (StableAutoCompounder { farms: n.farms, ..a }) && n.farms@ == a.farms@.remove(
                    first_farm(a.farm_ids(), farm_id),
                )
            } else {
                new == old
            },
            VersionedStrategy::JumboAutoCompounder(a) => res is Ok && if has_farm(a.farm_ids(), farm_id) {
                new.strategies@[seed] matches VersionedStrategy::JumboAutoCompounder(n) && strategy_replaced(
                    old,
                    new,
                    seed,
                    VersionedStrategy::JumboAutoCompounder(n),
                ) && n == (JumboAutoCompounder { farms: n.farms, ..a }) && n.farms@ == a.farms@.remove(
                    first_farm(a.farm_ids(), farm_id),
                )
            } else {
                new == old
            },
            VersionedStrategy::PembrockAutoCompounder(_) => res == Err::<(), SafeError>(SafeError::WrongStrategyKind)
                && new == old,
        }
    }
}

impl Contract {
    /// Deletes the farm `farm_id_str` from its strategy (see
    /// [`farm_deleted`]), or else the strategy `strat_name`; `NoArguments`
    /// where neither is given.
    pub fn delete_strategy(&mut self, farm_id_str: Option<String>, strat_name: Option<String>) -> (res: Result<
        (),
        SafeError,
    >)
        requires
            old(self).wf(),
        ensures
            final(self).wf(),
            match (farm_id_str, strat_name) {
                (None, None) => res == Err::<(), SafeError>(SafeError::NoArguments) && *final(self) == *old(self),
                (Some(f), _) => farm_deleted(*old(self), *final(self), f@, res),
                (None, Some(n)) => res is Ok && final(self).strategies@ == old(self).strategies@.remove(n@)
                    && *final(self) == (Contract { strategies: final(self).strategies, ..*old(self) }),
            },
    {
        let f = match farm_id_str {
            Some(f) => f,
            None => {
                match strat_name {
                    Some(n) => {
                        self.delete_strategy_by_strat_name(&n);
                        return Ok(());
                    },
                    None => return Err(SafeError::NoArguments),
                }
            },
        };
        if !is_farm_id(f.as_str()) {
            return Err(SafeError::InvalidFarmId);
        }
        let (seed_id, _, farm_id) = get_ids_from_farm(f.clone());
        let i = match self.strategies.find(&seed_id) {
            Some(i) => i,
            None => return Err(SafeError::StrategyDoesNotExist),
        };
        let ghost old_entries = self.strategies.entries@;
        proof {
            crate::strmap::lemma_map_of_value(old_entries, i as int);
        }
        let j = match &self.strategies.entries[i].1 {
            VersionedStrategy::AutoCompounder(a) => {
                let r = a.farm_index(&farm_id);
                proof {
                    match r {
                        Some(j) => lemma_first_farm(a.farm_ids(), farm_id@, j as int),
                        None => lemma_no_farm(a.farm_ids(), farm_id@),
                    }
                }
                r
            },
            VersionedStrategy::StableAutoCompounder(a) => {
                let r = a.farm_index(&farm_id);
                proof {
                    match r {
                        Some(j) => lemma_first_farm(a.farm_ids(), farm_id@, j as int),
                        None => lemma_no_farm(a.farm_ids(), farm_id@),
                    }
                }
                r
            },
            VersionedStrategy::JumboAutoCompounder(a) => {
                let r = a.farm_index(&farm_id);
                proof {
                    match r {
                        Some(j) => lemma_first_farm(a.farm_ids(), farm_id@, j as int),
                        None => lemma_no_farm(a.farm_ids(), farm_id@),
                    }
                }
                r
            },
            VersionedStrategy::PembrockAutoCompounder(_) => return Err(SafeError::WrongStrategyKind),
        };
        let j = match j {
            Some(j) => j,
            None => return Ok(()),
        };
        let strat = self.strategies.value_at_mut(i);
        match strat {
            VersionedStrategy::AutoCompounder(c) => {
                c.farms.remove(j);
            },
            VersionedStrategy::StableAutoCompounder(c) => {
                c.farms.remove(j);
            },
            VersionedStrategy::JumboAutoCompounder(c) => {
                c.farms.remove(j);
            },
            _ => {},
        }
        let ghost nv = *strat;
        proof {
            lemma_map_of_update(old_entries, i as int, nv);
            crate::strmap::lemma_map_of_value(self.strategies.entries@, i as int);
            match old_entries[i as int].1 {
                VersionedStrategy::AutoCompounder(a) => {
                    let n = nv->AutoCompounder_0;
                    assert forall|x: int| 0 <= x < n.farms@.len() implies crate::compounder::farm_wf(#[trigger] n.farms@[x]@) by {
                        if x < j {
                            assert(n.farms@[x] == a.farms@[x]);
                        } else {
                            assert(n.farms@[x] == a.farms@[x + 1]);
                        }
                        assert(crate::compounder::farm_wf(a.farms@[x]@));
                        assert(crate::compounder::farm_wf(a.farms@[x + 1]@));
                    }
                },
                VersionedStrategy::StableAutoCompounder(a) => {
                    let n = nv->StableAutoCompounder_0;
                    assert forall|x: int| 0 <= x < n.farms@.len() implies (#[trigger] n.farms@[x]).slippage <= 100 by {
                        if x < j {
                            assert(n.farms@[x] == a.farms@[x]);
                        } else {
                            assert(n.farms@[x] == a.farms@[x + 1]);
                        }
                    }
                },
                VersionedStrategy::JumboAutoCompounder(a) => {
                    let n = nv->JumboAutoCompounder_0;
                    assert forall|x: int| 0 <= x < n.farms@.len() implies crate::jumbo::jumbo_farm_wf(#[trigger] n.farms@[x]@) by {
                        if x < j {
                            assert(n.farms@[x] == a.farms@[x]);
                        } else {
                            assert(n.farms@[x] == a.farms@[x + 1]);
                        }
                        assert(crate::jumbo::jumbo_farm_wf(a.farms@[x]@));
                        assert(crate::jumbo::jumbo_farm_wf(a.farms@[x + 1]@));
                    }
                },
                _ => {},
            }
            assert forall|k: Seq<char>| #[trigger] self.strategies@.dom().contains(k) implies self.strategies@[k].wf() by {
                if k != seed_id@ {
                    assert(old(self).strategies@.dom().contains(k));
                }
            }
        }
        Ok(())
    }

    /// A Pembrock strategy lending `token_address`, under the name
    /// `pembrock@token_address`, whose treasury is the vault's; the owner (or
    /// the vault) only. Answers `VersionedStrategy for token_address created
    /// successfully`, or, changing nothing, the refusal
    /// [`strategy_exists_message`] where that name has a strategy already.
    pub fn pembrock_create_strategy(
        &mut self,
        caller: &String,
        current_account: &String,
        strategy_fee: u128,
        strat_creator: AccountFee,
        sentry_fee: u128,
        exchange_contract_id: String,
        pembrock_contract_id: String,
        pembrock_reward_id: String,
        token_address: String,
        pool_id: u64,
        reward_token: String,
    ) -> (res: Result<String, SafeError>)
        requires
            old(self).wf(),
        ensures
            final(self).wf(),
            !old(self).owner_call(caller@, current_account@) ==> res == Err::<String, SafeError>(SafeError::NotAllowed)
                && *final(self) == *old(self),
            old(self).owner_call(caller@, current_account@) ==> {
                let name = seq!['p', 'e', 'm', 'b', 'r', 'o', 'c', 'k', '@'] + token_address@;
                if old(self).strategies@.dom().contains(name) {
                    res matches Ok(m) && m@ == strategy_exists_message() && *final(self) == *old(self)
                } else {
                    &&& res matches Ok(m) && m@ == strategy_created_message(token_address@)
                    &&& final(self).strategies@.dom() == old(self).strategies@.dom().insert(name)
                    &&& forall|k: Seq<char>| k != name ==> #[trigger] final(self).strategies@.dom().contains(k)
                        ==> final(self).strategies@[k] == old(self).strategies@[k]
                    &&& final(self).strategies@[name] matches VersionedStrategy::PembrockAutoCompounder(p)
                        && p.admin_fees.strategy_fee == strategy_fee && p.admin_fees.strat_creator == strat_creator
                        && p.admin_fees.sentries_fee == sentry_fee && p.treasury.account_id
                        == old(self).treasury.account_id && p.exchange_contract_id == exchange_contract_id
                        && p.pembrock_contract_id == pembrock_contract_id && p.pembrock_reward_id
                        == pembrock_reward_id && p.token_address == token_address && p.pool_id_token1_reward
                        == pool_id && p.reward_token == reward_token && p.cycle_stage
                        == crate::farm::PembAutoCompounderCycle::ClaimReward && p.last_reward_amount == 0
                    &&& ledger_registers(old(self).ledger, final(self).ledger, name)
                }
            },
    {
        self.is_owner(caller, current_account)?;
        let mut name = String::from_str("pembrock@");
        proof {
            reveal_strlit("pembrock@");
        }
        name.append(token_address.as_str());
        assert(name@ =~= seq!['p', 'e', 'm', 'b', 'r', 'o', 'c', 'k', '@'] + token_address@);
        if self.strategies.contains_key(&name) {
            return Ok(strategy_exists());
        }
        let message = strategy_created(token_address.as_str());
        let strat = VersionedStrategy::PembrockAutoCompounder(
            PembrockAutoCompounder::new(
                strategy_fee,
                strat_creator,
                sentry_fee,
                self.treasury.account_id.clone(),
                exchange_contract_id,
                pembrock_contract_id,
                pembrock_reward_id,
                token_address,
                pool_id,
                reward_token,
            ),
        );
        self.store_new_strategy(name, strat);
        Ok(message)
    }
}


impl Contract {
    /// The tokens the vault accepts.
    pub fn get_whitelisted_tokens(&self) -> (res: Vec<String>)
        ensures
            res@.len() == self.whitelisted_tokens.entries@.len(),
            forall|j: int| 0 <= j < res@.len() ==> #[trigger] res@[j]@ == self.whitelisted_tokens.entries@[j].0@,
    {
        self.whitelisted_tokens.keys()
    }
}

/// Some string of `s` is `g`.
pub open spec fn listed(s: Seq<String>, g: Seq<char>) -> bool {
    exists|j: int| 0 <= j < s.len() && (#[trigger] s[j])@ == g
}

/// A string is among the first `i + 1` of `s` when it is among the first `i`
/// or is the next one.
pub proof fn lemma_listed_take(s: Seq<String>, i: int)
    requires
        0 <= i < s.len(),
    ensures
        forall|g: Seq<char>| #[trigger] listed(s.take(i + 1), g) <==> (listed(s.take(i), g) || s[i]@ == g),
{
    assert forall|g: Seq<char>| #[trigger] listed(s.take(i + 1), g) <==> (listed(s.take(i), g) || s[i]@ == g) by {
        if listed(s.take(i + 1), g) {
            let j = choose|j: int| 0 <= j < s.take(i + 1).len() && (#[trigger] s.take(i + 1)[j])@ == g;
            if j < i {
                assert(s.take(i)[j] == s[j]);
            }
        }
        if listed(s.take(i), g) {
            let j = choose|j: int| 0 <= j < s.take(i).len() && (#[trigger] s.take(i)[j])@ == g;
            assert(s.take(i + 1)[j] == s[j]);
        }
        if s[i]@ == g {
            assert(s.take(i + 1)[i] == s[i]);
        }
    }
}

} // verus!
