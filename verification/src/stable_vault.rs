//! The steps of a harvest of a Ref Finance strategy over a stable pool that
//! touch the vault as a whole: the withdrawal of a reward, whose protocol fee
//! the treasury is owed.
use vstd::prelude::*;
use crate::compounder::{first_farm, has_farm, lemma_first_farm, lemma_no_farm};
use crate::errors::SafeError;
use crate::farm::StableStratFarmView;
use crate::fees::{compute_fees, fee_split, AccountFee};
use crate::ids::{farm_farm_id, farm_seed_id, get_ids_from_farm, is_farm_id, is_farm_id_spec};
use crate::safe::Contract;
use crate::stable::{stable_others_unchanged, StableAutoCompounder};
use crate::strategy::VersionedStrategy;
use crate::strmap::{lemma_map_of_update, lemma_map_of_value};

verus! {

/// Where `farm_id_str` names a farm of a Ref Finance strategy over a stable
/// pool.
pub open spec fn names_stable_farm(c: Contract, farm_id_str: Seq<char>) -> bool {
    &&& is_farm_id_spec(farm_id_str)
    &&& c.strategies@.dom().contains(farm_seed_id(farm_id_str))
    &&& c.strategies@[farm_seed_id(farm_id_str)] matches VersionedStrategy::StableAutoCompounder(a)
        && has_farm(a.farm_ids(), farm_farm_id(farm_id_str))
}

/// Why a farm id string names no farm of a stable strategy.
pub open spec fn stable_farm_error(c: Contract, farm_id_str: Seq<char>) -> SafeError {
    if !is_farm_id_spec(farm_id_str) {
        SafeError::InvalidFarmId
    } else if !c.strategies@.dom().contains(farm_seed_id(farm_id_str)) {
        SafeError::StrategyDoesNotExist
    } else if !(c.strategies@[farm_seed_id(farm_id_str)] is StableAutoCompounder) {
        SafeError::WrongStrategyKind
    } else {
        SafeError::FarmDoesNotExist
    }
}

impl Contract {
    /// Finds the first farm named by `farm_id_str` among those of a stable
    /// strategy: `(position of the strategy's entry, farm position)`.
    fn find_stable_farm(&self, farm_id_str: &String) -> (res: Result<(usize, usize), SafeError>)
        requires
            self.wf(),
        ensures
            match res {
                Ok((i, j)) => names_stable_farm(*self, farm_id_str@) && i < self.strategies.entries@.len()
                    && self.strategies.entries@[i as int].0@ == farm_seed_id(farm_id_str@)
                    && j == first_farm(
                    self.strategies@[farm_seed_id(farm_id_str@)]->StableAutoCompounder_0.farm_ids(),
                    farm_farm_id(farm_id_str@),
                ) && j < self.strategies@[farm_seed_id(farm_id_str@)]->StableAutoCompounder_0.farms@.len(),
                Err(e) => !names_stable_farm(*self, farm_id_str@) && e == stable_farm_error(*self, farm_id_str@),
            },
    {
        if !is_farm_id(farm_id_str.as_str()) {
            return Err(SafeError::InvalidFarmId);
        }
        let (seed_id, _, farm_id) = get_ids_from_farm(farm_id_str.clone());
        let i = match self.strategies.find(&seed_id) {
            Some(i) => i,
            None => return Err(SafeError::StrategyDoesNotExist),
        };
        proof {
            lemma_map_of_value(self.strategies.entries@, i as int);
        }
        match &self.strategies.entries[i].1 {
            VersionedStrategy::StableAutoCompounder(a) => match a.farm_index(&farm_id) {
                Some(j) => {
                    proof {
                        lemma_first_farm(a.farm_ids(), farm_id@, j as int);
                    }
                    Ok((i, j))
                },
                None => {
                    proof {
                        lemma_no_farm(a.farm_ids(), farm_id@);
                    }
                    Err(SafeError::FarmDoesNotExist)
                },
            },
            _ => Err(SafeError::WrongStrategyKind),
        }
    }
}

/// What the farm's answer on the withdrawal of the reward of the farm
/// `farm_id_str` (of a Ref Finance strategy over a stable pool) does (`old` becoming `new`): the
/// strategy's own step ([`StableAutoCompounder::stable_callback_post_withdraw`]) takes the fees, and the
/// protocol fee is added to what the vault's treasury is owed. Returns the
/// amount sent on to the exchange: what is left and the protocol fee.
/// Refused, changing nothing, where the withdrawal failed, the farm is not
/// found, the fees cannot be split or an amount owed would overflow.
pub open spec fn stable_post_withdraw_step(
    old: Contract,
    new: Contract,
    withdraw_ok: bool,
    farm_id_str: Seq<char>,
    current_account: Seq<char>,
    res: Result<u128, SafeError>,
) -> bool {
    if !withdraw_ok {
        res == Err::<u128, SafeError>(SafeError::PromiseFailed) && new == old
    } else if !names_stable_farm(old, farm_id_str) {
        res == Err::<u128, SafeError>(stable_farm_error(old, farm_id_str)) && new == old
    } else {
        let seed = farm_seed_id(farm_id_str);
        let a = old.strategies@[seed]->StableAutoCompounder_0;
        let i = first_farm(a.farm_ids(), farm_farm_id(farm_id_str));
        let f = a.farms@[i]@;
        let fees = a.admin_fees;
        match fee_split(
            fees.strategy_fee as int,
            fees.sentries_fee as int,
            fees.strat_creator.fee_percentage as int,
            f.last_reward_amount as int,
        ) {
            None => res == Err::<u128, SafeError>(SafeError::FeeNotValid) && new == old,
            Some(t) => if fees.strat_creator.current_amount + t.3 > u128::MAX || old.treasury.current_amount + t.1
                > u128::MAX {
                res == Err::<u128, SafeError>(SafeError::ArithmeticOverflow) && new == old
            } else {
                &&& res == Ok::<u128, SafeError>((t.0 + t.1) as u128)
                &&& new == (Contract {
                    strategies: new.strategies,
                    treasury: AccountFee {
                        current_amount: (old.treasury.current_amount + t.1) as u128,
                        ..old.treasury
                    },
                    ..old
                })
                &&& new.strategies@ == old.strategies@.insert(seed, new.strategies@[seed])
                &&& new.strategies@[seed] matches VersionedStrategy::StableAutoCompounder(n) && n == (StableAutoCompounder {
                    admin_fees: n.admin_fees,
                    farms: n.farms,
                    ..a
                }) && stable_others_unchanged(a.farms@, n.farms@, i) && n.farms@[i]@ == (StableStratFarmView {
                    last_reward_amount: t.0 as u128,
                    ..f
                }) && n.admin_fees.strat_creator == (AccountFee {
                    current_amount: (fees.strat_creator.current_amount + t.3) as u128,
                    ..fees.strat_creator
                }) && n.admin_fees.strategy_fee == fees.strategy_fee && n.admin_fees.sentries_fee
                    == fees.sentries_fee && n.admin_fees.sentries@ == fees.sentries@.insert(
                    current_account,
                    t.2 as u128,
                )
            },
        }
    }
}

impl Contract {
    /// After the farm answered the withdrawal of the reward of the farm
    /// `farm_id_str` (`withdraw_ok` false where it failed): the fees are taken
    /// and the protocol fee is owed to the treasury, as [`stable_post_withdraw_step`] says.
    pub fn stable_callback_post_withdraw(&mut self, withdraw_ok: bool, farm_id_str: &String, current_account: &String) -> (res: Result<
        u128,
        SafeError,
    >)
        requires
            old(self).wf(),
        ensures
            final(self).wf(),
            stable_post_withdraw_step(*old(self), *final(self), withdraw_ok, farm_id_str@, current_account@, res),
    {
        if !withdraw_ok {
            return Err(SafeError::PromiseFailed);
        }
        let (i, j) = self.find_stable_farm(farm_id_str)?;
        let ghost old_entries = self.strategies.entries@;
        let ghost key = old_entries[i as int].0@;
        proof {
            lemma_map_of_value(old_entries, i as int);
        }
        let protocol = match &self.strategies.entries[i].1 {
            VersionedStrategy::StableAutoCompounder(c) => {
                let t = match compute_fees(&c.admin_fees, c.farms[j].last_reward_amount) {
                    Some(t) => t,
                    None => return Err(SafeError::FeeNotValid),
                };
                if c.admin_fees.strat_creator.current_amount > u128::MAX - t.3 {
                    return Err(SafeError::ArithmeticOverflow);
                }
                t.1
            },
            _ => 0,
        };
        if self.treasury.current_amount > u128::MAX - protocol {
            return Err(SafeError::ArithmeticOverflow);
        }
        let strat = self.strategies.value_at_mut(i);
        let sent = match strat {
            VersionedStrategy::StableAutoCompounder(c) => match c.stable_callback_post_withdraw(j, current_account) {
                Ok(r) => r.1,
                Err(_) => 0,
            },
            _ => 0,
        };
        let ghost nv = *strat;
        proof {
            lemma_map_of_update(old_entries, i as int, nv);
            lemma_map_of_value(self.strategies.entries@, i as int);
            assert forall|k: Seq<char>| #[trigger] self.strategies@.dom().contains(k) implies self.strategies@[k].wf() by {
                if k != key {
                    assert(old(self).strategies@.dom().contains(k));
                }
            }
        }
        self.treasury.current_amount = self.treasury.current_amount + protocol;
        Ok(sent)
    }
}

} // verus!
