//! The step of a Pembrock harvest that touches the vault as a whole: the
//! claim of the rewards, whose protocol fee the vault's treasury is owed.
use vstd::prelude::*;
use crate::errors::SafeError;
use crate::fees::{compute_fees, fee_split, AccountFee};
use crate::pembrock::{pemb_rewards_step, PembRewardsPlan};
use crate::safe::Contract;
use crate::strategy::VersionedStrategy;
use crate::strmap::{lemma_map_of_update, lemma_map_of_value};

verus! {

/// What the claim of the rewards `claimed` (`None` where it failed) of the
/// Pembrock strategy `strat_name` does (`old` becoming `new`): the strategy
/// moves on as [`pemb_rewards_step`] says, and the protocol fee is added to
/// what the vault's treasury is owed. Refused, changing nothing, where the
/// claim failed or gave nothing, the strategy is not found or not a Pembrock
/// one, the strategy's own step refuses, or the treasury's amount would
/// overflow.
pub open spec fn pembrock_rewards_step(
    old: Contract,
    new: Contract,
    strat_name: Seq<char>,
    claimed: Option<u128>,
    current_account: Seq<char>,
    res: Result<PembRewardsPlan, SafeError>,
) -> bool {
    if claimed is None {
        res == Err::<PembRewardsPlan, SafeError>(SafeError::PromiseFailed) && new == old
    } else if claimed == Some(0u128) {
        res == Err::<PembRewardsPlan, SafeError>(SafeError::ZeroRewardsEarned) && new == old
    } else if !old.strategies@.dom().contains(strat_name) {
        res == Err::<PembRewardsPlan, SafeError>(SafeError::StrategyDoesNotExist) && new == old
    } else {
        match old.strategies@[strat_name] {
            VersionedStrategy::PembrockAutoCompounder(p) => {
                let c = claimed->0;
                let fees = p.admin_fees;
                let treasury_overflows = fee_split(
                    fees.strategy_fee as int,
                    fees.sentries_fee as int,
                    fees.strat_creator.fee_percentage as int,
                    c as int,
                ) matches Some(t) && fees.strat_creator.current_amount + t.3 <= u128::MAX
                    && p.last_reward_amount + t.0 <= u128::MAX && old.treasury.current_amount + t.1 > u128::MAX;
                if treasury_overflows {
                    res == Err::<PembRewardsPlan, SafeError>(SafeError::ArithmeticOverflow) && new == old
                } else {
                    match res {
                        Ok(plan) => {
                            &&& new.strategies@ == old.strategies@.insert(strat_name, new.strategies@[strat_name])
                            &&& new.strategies@[strat_name] matches VersionedStrategy::PembrockAutoCompounder(n)
                                && pemb_rewards_step(p, n, claimed, current_account, res)
                            &&& new == (Contract {
                                strategies: new.strategies,
                                treasury: AccountFee {
                                    current_amount: (old.treasury.current_amount + plan.protocol_amount) as u128,
                                    ..old.treasury
                                },
                                ..old
                            })
                        },
                        Err(_) => new == old && pemb_rewards_step(p, p, claimed, current_account, res),
                    }
                }
            },
            _ => res == Err::<PembRewardsPlan, SafeError>(SafeError::WrongStrategyKind) && new == old,
        }
    }
}

impl Contract {
    /// After the rewards of the Pembrock strategy `strat_name` were claimed
    /// (`claimed`, `None` where the claim failed): the strategy takes the
    /// fees and the protocol fee is owed to the treasury, as
    /// [`pembrock_rewards_step`] says.
    pub fn callback_pembrock_rewards(
        &mut self,
        strat_name: &String,
        claimed: Option<u128>,
        current_account: &String,
    ) -> (res: Result<PembRewardsPlan, SafeError>)
        requires
            old(self).wf(),
        ensures
            final(self).wf(),
            pembrock_rewards_step(*old(self), *final(self), strat_name@, claimed, current_account@, res),
    {
        let c = match claimed {
            Some(c) => c,
            None => return Err(SafeError::PromiseFailed),
        };
        if c == 0 {
            return Err(SafeError::ZeroRewardsEarned);
        }
        let i = match self.strategies.find(strat_name) {
            Some(i) => i,
            None => return Err(SafeError::StrategyDoesNotExist),
        };
        let ghost old_entries = self.strategies.entries@;
        let ghost key = old_entries[i as int].0@;
        proof {
            lemma_map_of_value(old_entries, i as int);
        }
        let protocol = match &self.strategies.entries[i].1 {
            VersionedStrategy::PembrockAutoCompounder(p) => {
                let t = match compute_fees(&p.admin_fees, c) {
                    Some(t) => t,
                    None => return Err(SafeError::FeeNotValid),
                };
                if p.admin_fees.strat_creator.current_amount > u128::MAX - t.3 || p.last_reward_amount > u128::MAX
                    - t.0 {
                    return Err(SafeError::ArithmeticOverflow);
                }
                t.1
            },
            _ => return Err(SafeError::WrongStrategyKind),
        };
        if self.treasury.current_amount > u128::MAX - protocol {
            return Err(SafeError::ArithmeticOverflow);
        }
        let strat = self.strategies.value_at_mut(i);
        let r = match strat {
            VersionedStrategy::PembrockAutoCompounder(p) => p.callback_pembrock_rewards(claimed, current_account),
            _ => Err(SafeError::WrongStrategyKind),
        };
        let ghost nv = *strat;
        proof {
            lemma_map_of_update(old_entries, i as int, nv);
            lemma_map_of_value(self.strategies.entries@, i as int);
            assert forall|k: Seq<char>| #[trigger] self.strategies@.dom().contains(k) implies self.strategies@[k].wf() by {
                if k != key {
                    assert(old(self).strategies@.dom().contains(k));
                }
            }
        }
        let plan = match r {
            Ok(plan) => plan,
            Err(e) => return Err(e),
        };
        self.treasury.current_amount = self.treasury.current_amount + plan.protocol_amount;
        Ok(plan)
    }
}

} // verus!
