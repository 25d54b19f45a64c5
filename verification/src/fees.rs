//! Fees taken from every harvested reward.
use vstd::prelude::*;
use crate::arith::{percent_of, percent_of_spec};
use crate::strmap::StrMap;
use crate::errors::SafeError;

verus! {

/// Highest fee percentage a strategy creator may take.
pub const MAX_STRAT_CREATOR_FEE: u128 = 20;

/// Share of the fees kept for the stakers of the protocol token, in percent.
pub const FFT_STAKERS: u128 = 60;

/// An account that earns a fee, with the amount it is owed.
pub struct AccountFee {
    /// address id
    pub account_id: String,
    /// fee percentage
    pub fee_percentage: u128,
    /// current amount earned, stored to be used if a transfer fails
    pub current_amount: u128,
}

impl AccountFee {
    /// A fee account owed nothing yet; the fee is a percentage up to
    /// `MAX_STRAT_CREATOR_FEE`.
    pub fn new(acc_id: String, fee: u128) -> (res: Self)
        requires
            fee <= MAX_STRAT_CREATOR_FEE,
        ensures
            res.account_id == acc_id,
            res.fee_percentage == fee,
            res.current_amount == 0,
    {
        AccountFee { account_id: acc_id, fee_percentage: fee, current_amount: 0 }
    }

    /// A copy of this fee account.
    pub fn duplicate(&self) -> (res: Self)
        ensures
            res == *self,
    {
        AccountFee {
            account_id: self.account_id.clone(),
            fee_percentage: self.fee_percentage,
            current_amount: self.current_amount,
        }
    }
}

/// Fees of a strategy: the strategy fee is taken from every reward, and
/// then split between the sentry that ran the harvest, the strategy creator
/// and the treasury, which gets what is left.
pub struct AdminFees {
    /// Percentage of each reward taken as fees.
    pub strategy_fee: u128,
    /// Fees earned by the creator of the running strategy
    pub strat_creator: AccountFee,
    /// Fee percentage earned by sentries
    pub sentries_fee: u128,
    /// Fees earned by users that interact with the harvest method
    pub sentries: StrMap<u128>,
}

impl AdminFees {
    /// Fees of a new strategy, with no sentry owed anything.
    pub fn new(strat_creator: AccountFee, sentries_fee: u128, strategy_fee: u128) -> (res: Self)
        ensures
            res.strategy_fee == strategy_fee,
            res.strat_creator == strat_creator,
            res.sentries_fee == sentries_fee,
            res.sentries.wf(),
            res.sentries@ == Map::<Seq<char>, u128>::empty(),
    {
        AdminFees { strategy_fee, strat_creator, sentries_fee, sentries: StrMap::new() }
    }

    /// Whether `other` holds the same fees, owed to the same accounts.
    pub open spec fn same_as(&self, other: AdminFees) -> bool {
        &&& self.strategy_fee == other.strategy_fee
        &&& self.strat_creator == other.strat_creator
        &&& self.sentries_fee == other.sentries_fee
        &&& self.sentries.entries@ == other.sentries.entries@
    }

    /// A copy of the fees.
    pub fn duplicate(&self) -> (res: Self)
        requires
            self.sentries.wf(),
        ensures
            res.same_as(*self),
            res.sentries.wf(),
    {
        AdminFees {
            strategy_fee: self.strategy_fee,
            strat_creator: self.strat_creator.duplicate(),
            sentries_fee: self.sentries_fee,
            sentries: self.sentries.copy(),
        }
    }
}

/// How a reward is split: `(remaining, treasury, sentry, strat_creator)`, where
/// the fees are `strategy_fee` percent of the reward, the sentry and the creator
/// get their percentages of the fees and the treasury the rest of the fees.
/// `None` where a percentage exceeds 100, where a product exceeds 128 bits or
/// where the sentry and the creator together would get more than the fees.
pub open spec fn fee_split(strategy_fee: int, sentries_fee: int, creator_fee: int, reward: int) -> Option<
    (int, int, int, int),
> {
    if strategy_fee > 100 || reward * strategy_fee > u128::MAX {
        None
    } else {
        let all_fees = percent_of_spec(strategy_fee, reward);
        if sentries_fee > 100 || all_fees * sentries_fee > u128::MAX {
            None
        } else {
            let sentry = percent_of_spec(sentries_fee, all_fees);
            if creator_fee > 100 || all_fees * creator_fee > u128::MAX {
                None
            } else {
                let creator = percent_of_spec(creator_fee, all_fees);
                if sentry + creator > all_fees {
                    None
                } else {
                    let treasury = all_fees - sentry - creator;
                    Some((reward - all_fees, treasury, sentry, creator))
                }
            }
        }
    }
}

/// Splits `reward_amount` by the fees: `(remaining, treasury, sentry, strat_creator)`.
pub fn compute_fees(fees: &AdminFees, reward_amount: u128) -> (res: Option<(u128, u128, u128, u128)>)
    ensures
        match res {
            Some(t) => fee_split(
                fees.strategy_fee as int,
                fees.sentries_fee as int,
                fees.strat_creator.fee_percentage as int,
                reward_amount as int,
            ) == Some((t.0 as int, t.1 as int, t.2 as int, t.3 as int)),
            None => fee_split(
                fees.strategy_fee as int,
                fees.sentries_fee as int,
                fees.strat_creator.fee_percentage as int,
                reward_amount as int,
            ) is None,
        },
        res matches Some(t) ==> {
            let all_fees = percent_of_spec(fees.strategy_fee as int, reward_amount as int);
            &&& t.0 == reward_amount - all_fees
            &&& t.2 == percent_of_spec(fees.sentries_fee as int, all_fees)
            &&& t.3 == percent_of_spec(fees.strat_creator.fee_percentage as int, all_fees)
            &&& t.1 == all_fees - t.2 - t.3
        },
{
    if fees.strategy_fee > 100 {
        return None;
    }
    let all_fees_amount = match percent_of(fees.strategy_fee, reward_amount) {
        Some(v) => v,
        None => return None,
    };
    if fees.sentries_fee > 100 {
        return None;
    }
    let sentry_amount = match percent_of(fees.sentries_fee, all_fees_amount) {
        Some(v) => v,
        None => return None,
    };
    if fees.strat_creator.fee_percentage > 100 {
        return None;
    }
    let strat_creator_amount = match percent_of(fees.strat_creator.fee_percentage, all_fees_amount) {
        Some(v) => v,
        None => return None,
    };
    if strat_creator_amount > all_fees_amount - sentry_amount {
        return None;
    }
    let treasury_amount = all_fees_amount - sentry_amount - strat_creator_amount;
    let remaining_amount = reward_amount - treasury_amount - sentry_amount - strat_creator_amount;
    Some((remaining_amount, treasury_amount, sentry_amount, strat_creator_amount))
}

/// The parts of a fee split: the fees are the strategy fee's percentage of the
/// reward, the remaining amount is the reward less the fees, the sentry gets
/// the sentries' percentage of the fees, the creator its own percentage of
/// them, and the treasury what is left of the fees.
pub proof fn lemma_fee_split_parts(strategy_fee: int, sentries_fee: int, creator_fee: int, reward: int)
    ensures
        fee_split(strategy_fee, sentries_fee, creator_fee, reward) matches Some(t) ==> {
            let all_fees = reward * strategy_fee / 100;
            &&& t.0 == reward - all_fees
            &&& t.2 == all_fees * sentries_fee / 100
            &&& t.3 == all_fees * creator_fee / 100
            &&& t.1 == all_fees - t.2 - t.3
        },
{
}

/// No part of a reward is lost or created by the fee split: the remaining
/// amount, the treasury, sentry and creator fees add up to the reward, and the
/// three fees are the strategy fee's share of it.
pub proof fn lemma_fee_split_conserves(
    strategy_fee: int,
    sentries_fee: int,
    creator_fee: int,
    reward: int,
)
    requires
        reward >= 0,
        strategy_fee >= 0,
        sentries_fee >= 0,
        creator_fee >= 0,
        fee_split(strategy_fee, sentries_fee, creator_fee, reward) is Some,
    ensures
        ({
            let t = fee_split(strategy_fee, sentries_fee, creator_fee, reward)->0;
            &&& t.0 + t.1 + t.2 + t.3 == reward
            &&& t.1 + t.2 + t.3 == percent_of_spec(strategy_fee, reward)
            &&& t.0 >= 0 && t.1 >= 0 && t.2 >= 0 && t.3 >= 0
        }),
{
    let all_fees = percent_of_spec(strategy_fee, reward);
    assert(0 <= all_fees <= reward) by (nonlinear_arith)
        requires
            0 <= strategy_fee <= 100,
            reward >= 0,
            all_fees == reward * strategy_fee / 100,
    ;
    let sentry = percent_of_spec(sentries_fee, all_fees);
    let creator = percent_of_spec(creator_fee, all_fees);
    assert(sentry >= 0) by (nonlinear_arith)
        requires
            sentries_fee >= 0,
            all_fees >= 0,
            sentry == all_fees * sentries_fee / 100,
    ;
    assert(creator >= 0) by (nonlinear_arith)
        requires
            creator_fee >= 0,
            all_fees >= 0,
            creator == all_fees * creator_fee / 100,
    ;
}


/// Why the sentry's fee cannot be paid, as [`AdminFees::take_sentry_fee`]
/// refuses it, from the reward token's answer on the sentry's storage and
/// whether the vault holds a fee (`held`); `None` where it can be paid.
pub open spec fn sentry_fee_refusal(storage_total: Option<Option<u128>>, held: bool) -> Option<SafeError> {
    match storage_total {
        None => Some(SafeError::SentryNotRegistered),
        Some(None) => Some(SafeError::NotEnoughBalance),
        Some(Some(total)) => if total <= 1 {
            Some(SafeError::NotEnoughBalance)
        } else if !held {
            Some(SafeError::DoesNotExist)
        } else {
            None
        },
    }
}

impl AdminFees {
    /// Well-formedness: the sentries map is well formed.
    pub open spec fn wf(&self) -> bool {
        self.sentries.wf()
    }

    /// Takes the fees out of a withdrawn `reward`, as [`fee_split`] says: the
    /// creator's fee is added to what the creator is owed and the sentry's fee
    /// is held under `current_account` (the contract's own account) until a
    /// sentry finishes the harvest. Returns the split
    /// `(remaining, treasury, sentry, creator)`. `FeeNotValid` where the fees
    /// cannot be split and `ArithmeticOverflow` where the creator's amount
    /// would overflow; nothing changes then.
    pub fn take_fees(&mut self, reward: u128, current_account: &String) -> (res: Result<
        (u128, u128, u128, u128),
        SafeError,
    >)
        requires
            old(self).wf(),
        ensures
            final(self).wf(),
            ({
                let split = fee_split(
                    old(self).strategy_fee as int,
                    old(self).sentries_fee as int,
                    old(self).strat_creator.fee_percentage as int,
                    reward as int,
                );
                match split {
                    None => res == Err::<(u128, u128, u128, u128), SafeError>(SafeError::FeeNotValid) && *final(self)
                        == *old(self),
                    Some(t) => if old(self).strat_creator.current_amount + t.3 > u128::MAX {
                        res == Err::<(u128, u128, u128, u128), SafeError>(SafeError::ArithmeticOverflow)
                            && *final(self) == *old(self)
                    } else {
                        &&& res matches Ok(r) && r.0 == t.0 && r.1 == t.1 && r.2 == t.2 && r.3 == t.3
                        &&& final(self).strat_creator.current_amount == old(self).strat_creator.current_amount + t.3
                        &&& final(self).strat_creator.account_id == old(self).strat_creator.account_id
                        &&& final(self).strat_creator.fee_percentage == old(self).strat_creator.fee_percentage
                        &&& final(self).strategy_fee == old(self).strategy_fee
                        &&& final(self).sentries_fee == old(self).sentries_fee
                        &&& final(self).sentries@ == old(self).sentries@.insert(current_account@, t.2 as u128)
                    },
                }
            }),
    {
        let t = match compute_fees(self, reward) {
            Some(t) => t,
            None => return Err(SafeError::FeeNotValid),
        };
        if self.strat_creator.current_amount > u128::MAX - t.3 {
            return Err(SafeError::ArithmeticOverflow);
        }
        self.strat_creator.current_amount = self.strat_creator.current_amount + t.3;
        self.sentries.insert(current_account.clone(), t.2);
        Ok(t)
    }

    /// The reward token's answer on a sentry's storage, `storage_total`
    /// (`None` where the call failed, `Some(None)` where the sentry is not
    /// registered). A sentry with more than 1 of storage balance gets the fee
    /// held under `current_account`, which is taken out of the map.
    pub fn take_sentry_fee(&mut self, storage_total: Option<Option<u128>>, current_account: &String) -> (res:
        Result<u128, SafeError>)
        requires
            old(self).wf(),
        ensures
            final(self).wf(),
            match storage_total {
                None => res == Err::<u128, SafeError>(SafeError::SentryNotRegistered) && *final(self) == *old(self),
                Some(None) => res == Err::<u128, SafeError>(SafeError::NotEnoughBalance) && *final(self) == *old(self),
                Some(Some(total)) => if total <= 1 {
                    res == Err::<u128, SafeError>(SafeError::NotEnoughBalance) && *final(self) == *old(self)
                } else if !old(self).sentries@.dom().contains(current_account@) {
                    res == Err::<u128, SafeError>(SafeError::DoesNotExist) && *final(self) == *old(self)
                } else {
                    &&& res == Ok::<u128, SafeError>(old(self).sentries@[current_account@])
                    &&& final(self).sentries@ == old(self).sentries@.remove(current_account@)
                    &&& final(self).strat_creator == old(self).strat_creator
                    &&& final(self).strategy_fee == old(self).strategy_fee
                    &&& final(self).sentries_fee == old(self).sentries_fee
                },
            },
    {
        match storage_total {
            None => Err(SafeError::SentryNotRegistered),
            Some(None) => Err(SafeError::NotEnoughBalance),
            Some(Some(total)) => {
                if total <= 1 {
                    return Err(SafeError::NotEnoughBalance);
                }
                let amount = match self.sentries.get(current_account) {
                    Some(v) => *v,
                    None => return Err(SafeError::DoesNotExist),
                };
                self.sentries.remove(current_account);
                Ok(amount)
            },
        }
    }

    /// After a sentry's fee was sent: where the transfer failed, the fee is
    /// owed to the sentry, for the next harvest to send again.
    pub fn settle_sentry_transfer(&mut self, transfer_ok: bool, sentry_id: String, amount_earned: u128)
        requires
            old(self).wf(),
        ensures
            final(self).wf(),
            final(self).sentries@ == (if transfer_ok {
                old(self).sentries@
            } else {
                old(self).sentries@.insert(sentry_id@, amount_earned)
            }),
            final(self).strat_creator == old(self).strat_creator,
            final(self).strategy_fee == old(self).strategy_fee,
            final(self).sentries_fee == old(self).sentries_fee,
    {
        if !transfer_ok {
            self.sentries.insert(sentry_id, amount_earned);
        }
    }

    /// After the creator's fees were sent: nothing is owed to the creator any
    /// more if the transfer succeeded.
    pub fn settle_creator_transfer(&mut self, transfer_ok: bool)
        requires
            old(self).wf(),
        ensures
            final(self).wf(),
            final(self).sentries == old(self).sentries,
            final(self).strategy_fee == old(self).strategy_fee,
            final(self).sentries_fee == old(self).sentries_fee,
            final(self).strat_creator.account_id == old(self).strat_creator.account_id,
            final(self).strat_creator.fee_percentage == old(self).strat_creator.fee_percentage,
            final(self).strat_creator.current_amount == (if transfer_ok {
                0
            } else {
                old(self).strat_creator.current_amount
            }),
    {
        if transfer_ok {
            self.strat_creator.current_amount = 0;
        }
    }
}

} // verus!
