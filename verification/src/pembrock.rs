//! The harvest of a Pembrock strategy: a token lent on Pembrock, whose reward
//! is swapped for that token and lent too.
use vstd::prelude::*;
use crate::arith::{percent_of_spec, percentage_apply_to};
use crate::compounder::{payout_is, Payout, ReturnQuery, SwapOrder};
use crate::errors::SafeError;
use crate::farm::{next_pemb_stage, PembAutoCompounderCycle, PembAutoCompounderState, DEFAULT_SLIPPAGE};
use crate::fees::{fee_split, sentry_fee_refusal, AccountFee, AdminFees};

verus! {

/// The pool in which the Pembrock harvest swaps its reward.
pub const PEMBROCK_SWAP_POOL: u64 = 461;

/// A Pembrock strategy.
pub struct PembrockAutoCompounder {
    /// Fees struct to be distribute at each round of compound
    pub admin_fees: AdminFees,
    /// Contract address of the exchange used
    pub exchange_contract_id: String,
    /// Contract address of Pembrock's lending
    pub pembrock_contract_id: String,
    /// Contract address of Pembrock's rewards
    pub pembrock_reward_id: String,
    /// Address of the token lent
    pub token_address: String,
    /// State is used to update the contract to a Paused/Running state
    pub state: PembAutoCompounderState,
    /// Used to keep track of the current stage of the auto-compound cycle
    pub cycle_stage: PembAutoCompounderCycle,
    /// Minimum amount out of swaps, in percent of the quoted amount
    pub slippage: u128,
    /// Used to keep track of the rewards received during the auto-compound cycle
    pub last_reward_amount: u128,
    /// Treasury of the strategy
    pub treasury: AccountFee,
    /// Fees owed to the creator of the strategy
    pub strat_creator_fee_amount: u128,
    /// Used to keep track of the owned amount from fee of the token reward
    pub last_fee_amount: u128,
    /// Pool used to swap the reward received by the token lent
    pub pool_id_token1_reward: u64,
    /// Address of the reward token
    pub reward_token: String,
    /// Balance available to lend
    pub available_balance: u128,
    /// Latest harvest timestamp
    pub harvest_timestamp: u64,
    /// Tokens of a harvest whose lending failed, to be lent again
    pub harvest_value_available_to_stake: u128,
}

/// What follows the claim of the rewards: the transfers of the fees that the
/// claim gave.
pub struct PembRewardsPlan {
    /// Transfer made when the treasury earned fees.
    pub treasury_transfer: Option<Payout>,
    /// Transfer of the creator's fees.
    pub creator_transfer: Option<Payout>,
    /// The treasury's fees, for the contract's treasury account.
    pub protocol_amount: u128,
}

/// What the swap-and-lend step does once the sentry is known: pay the
/// sentry's fee and ask the exchange how much of the lent token the reward
/// buys.
pub struct PembSwapPlan {
    /// The sentry's fee, if it is positive.
    pub sentry_payout: Option<Payout>,
    /// The quote to ask for.
    pub quote: ReturnQuery,
}

/// What the claim of the rewards `claimed` (`None` where it failed) does to a
/// Pembrock strategy (`old` becoming `new`), as
/// [`PembrockAutoCompounder::callback_pembrock_rewards`] says.
pub open spec fn pemb_rewards_step(
    old: PembrockAutoCompounder,
    new: PembrockAutoCompounder,
    claimed: Option<u128>,
    current_account: Seq<char>,
    res: Result<PembRewardsPlan, SafeError>,
) -> bool {
    match claimed {
        None => res == Err::<PembRewardsPlan, SafeError>(SafeError::PromiseFailed) && new == old,
        Some(c) => {
            let fees = old.admin_fees;
            let split = fee_split(
                fees.strategy_fee as int,
                fees.sentries_fee as int,
                fees.strat_creator.fee_percentage as int,
                c as int,
            );
            if c == 0 {
                res == Err::<PembRewardsPlan, SafeError>(SafeError::ZeroRewardsEarned) && new == old
            } else {
                match split {
                    None => res == Err::<PembRewardsPlan, SafeError>(SafeError::FeeNotValid) && new
                        == old,
                    Some(t) => if fees.strat_creator.current_amount + t.3 > u128::MAX
                        || old.last_reward_amount + t.0 > u128::MAX {
                        res == Err::<PembRewardsPlan, SafeError>(SafeError::ArithmeticOverflow) && new
                            == old
                    } else {
                        &&& new.last_reward_amount == old.last_reward_amount + t.0
                        &&& new.admin_fees.strat_creator.current_amount == fees.strat_creator.current_amount
                            + t.3
                        &&& new.admin_fees.strat_creator.account_id == fees.strat_creator.account_id
                        &&& new.admin_fees.sentries@ == fees.sentries@.insert(current_account, t.2 as u128)
                        &&& new.cycle_stage == next_pemb_stage(old.cycle_stage)
                        &&& new.state == old.state
                        &&& new.slippage == old.slippage
                        &&& new.reward_token == old.reward_token
                        &&& new.token_address == old.token_address
                        &&& res matches Ok(plan) && plan.protocol_amount == t.1 && payout_is(
                            plan.creator_transfer,
                            fees.strat_creator.account_id@,
                            old.reward_token@,
                            t.3 as u128,
                        ) && (if t.1 > 0 {
                            plan.treasury_transfer matches Some(p) && p.receiver@
                                == fees.strat_creator.account_id@ && p.token@ == old.reward_token@
                                && p.amount == t.3
                        } else {
                            plan.treasury_transfer is None
                        })
                    },
                }
            }
        },
    }
}

impl PembrockAutoCompounder {
    /// Well-formedness: the fees are well formed and the slippage is a
    /// percentage.
    pub open spec fn wf(&self) -> bool {
        &&& self.admin_fees.wf()
        &&& self.slippage <= 100
    }

    /// Whether `other` is the same strategy, its fees held the same way.
    pub open spec fn same_as(&self, other: PembrockAutoCompounder) -> bool {
        &&& self.admin_fees.same_as(other.admin_fees)
        &&& PembrockAutoCompounder { admin_fees: other.admin_fees, ..*self } == other
    }

    /// A copy of the strategy.
    pub fn duplicate(&self) -> (res: Self)
        requires
            self.wf(),
        ensures
            res.same_as(*self),
            res.wf(),
    {
        PembrockAutoCompounder {
            admin_fees: self.admin_fees.duplicate(),
            exchange_contract_id: self.exchange_contract_id.clone(),
            pembrock_contract_id: self.pembrock_contract_id.clone(),
            pembrock_reward_id: self.pembrock_reward_id.clone(),
            token_address: self.token_address.clone(),
            state: self.state,
            cycle_stage: self.cycle_stage,
            slippage: self.slippage,
            last_reward_amount: self.last_reward_amount,
            treasury: self.treasury.duplicate(),
            strat_creator_fee_amount: self.strat_creator_fee_amount,
            last_fee_amount: self.last_fee_amount,
            pool_id_token1_reward: self.pool_id_token1_reward,
            reward_token: self.reward_token.clone(),
            available_balance: self.available_balance,
            harvest_timestamp: self.harvest_timestamp,
            harvest_value_available_to_stake: self.harvest_value_available_to_stake,
        }
    }

    /// A running strategy about to claim its first rewards, with a treasury
    /// that takes 10 percent.
    pub fn new(
        strategy_fee: u128,
        strat_creator: AccountFee,
        sentry_fee: u128,
        treasure_contract_id: String,
        exchange_contract_id: String,
        pembrock_contract_id: String,
        pembrock_reward_id: String,
        token_address: String,
        pool_id: u64,
        reward_token: String,
    ) -> (res: Self)
        ensures
            res.wf(),
            res.admin_fees.strategy_fee == strategy_fee,
            res.admin_fees.strat_creator == strat_creator,
            res.admin_fees.sentries_fee == sentry_fee,
            res.admin_fees.sentries@ == Map::<Seq<char>, u128>::empty(),
            res.treasury.account_id == treasure_contract_id,
            res.treasury.fee_percentage == 10,
            res.treasury.current_amount == 0,
            res.exchange_contract_id == exchange_contract_id,
            res.pembrock_contract_id == pembrock_contract_id,
            res.pembrock_reward_id == pembrock_reward_id,
            res.token_address == token_address,
            res.state == PembAutoCompounderState::Running,
            res.cycle_stage == PembAutoCompounderCycle::ClaimReward,
            res.slippage == DEFAULT_SLIPPAGE,
            res.last_reward_amount == 0,
            res.strat_creator_fee_amount == 0,
            res.last_fee_amount == 0,
            res.pool_id_token1_reward == pool_id,
            res.reward_token == reward_token,
            res.available_balance == 0,
            res.harvest_timestamp == 0,
            res.harvest_value_available_to_stake == 0,
    {
        PembrockAutoCompounder {
            admin_fees: AdminFees::new(strat_creator, sentry_fee, strategy_fee),
            exchange_contract_id,
            pembrock_contract_id,
            pembrock_reward_id,
            token_address,
            state: PembAutoCompounderState::Running,
            cycle_stage: PembAutoCompounderCycle::ClaimReward,
            slippage: DEFAULT_SLIPPAGE,
            last_reward_amount: 0,
            treasury: AccountFee { account_id: treasure_contract_id, fee_percentage: 10, current_amount: 0 },
            strat_creator_fee_amount: 0,
            last_fee_amount: 0,
            pool_id_token1_reward: pool_id,
            reward_token,
            available_balance: 0,
            harvest_timestamp: 0,
            harvest_value_available_to_stake: 0,
        }
    }

    /// Moves to the next stage of the harvest.
    pub fn next_cycle(&mut self)
        ensures
            *final(self) == (PembrockAutoCompounder { cycle_stage: next_pemb_stage(old(self).cycle_stage), ..*old(self) }),
    {
        self.cycle_stage = match self.cycle_stage {
            PembAutoCompounderCycle::ClaimReward => PembAutoCompounderCycle::SwapAndLend,
            PembAutoCompounderCycle::SwapAndLend => PembAutoCompounderCycle::ClaimReward,
        };
    }

    /// The rewards claimed from Pembrock, `claimed` (`None` where the claim
    /// failed). A failed claim and a zero claim are refused. Otherwise the
    /// fees are taken out as [`fee_split`] says (the sentry's fee held under
    /// `current_account`), the rest is added to the reward to reinvest and the
    /// harvest moves on. Where the treasury earned fees, the creator's fee is
    /// sent to the creator with the treasury's callback; where the creator
    /// earned fees, they are sent to the creator.
    pub fn callback_pembrock_rewards(&mut self, claimed: Option<u128>, current_account: &String) -> (res: Result<
        PembRewardsPlan,
        SafeError,
    >)
        requires
            old(self).wf(),
        ensures
            final(self).wf(),
            pemb_rewards_step(*old(self), *final(self), claimed, current_account@, res),
    {
        let c = match claimed {
            Some(c) => c,
            None => return Err(SafeError::PromiseFailed),
        };
        if c == 0 {
            return Err(SafeError::ZeroRewardsEarned);
        }
        let split = crate::fees::compute_fees(&self.admin_fees, c);
        let t = match split {
            Some(t) => t,
            None => return Err(SafeError::FeeNotValid),
        };
        if self.admin_fees.strat_creator.current_amount > u128::MAX - t.3 || self.last_reward_amount > u128::MAX
            - t.0 {
            return Err(SafeError::ArithmeticOverflow);
        }
        let taken = self.admin_fees.take_fees(c, current_account);
        let (remaining_amount, protocol_amount, _, strat_creator_amount) = match taken {
            Ok(t) => t,
            Err(e) => return Err(e),
        };
        self.last_reward_amount = self.last_reward_amount + remaining_amount;
        self.next_cycle();
        let creator_id = self.admin_fees.strat_creator.account_id.clone();
        let treasury_transfer = if protocol_amount > 0 {
            Some(
                Payout {
                    receiver: creator_id.clone(),
                    token: self.reward_token.clone(),
                    amount: strat_creator_amount,
                },
            )
        } else {
            None
        };
        let creator_transfer = if strat_creator_amount > 0 {
            Some(Payout { receiver: creator_id, token: self.reward_token.clone(), amount: strat_creator_amount })
        } else {
            None
        };
        Ok(PembRewardsPlan { treasury_transfer, creator_transfer, protocol_amount })
    }

    /// The reward token's answer on the sentry's storage, in the swap-and-lend
    /// step: the sentry's fee held under `current_account` is taken out (as
    /// for the other strategies; nothing changes on an error) and sent to the
    /// sentry if positive, and the exchange is asked how much of the lent token
    /// the reward buys.
    pub fn callback_pembrock_post_sentry(
        &mut self,
        storage_total: Option<Option<u128>>,
        current_account: &String,
        sentry_acc_id: String,
        reward_token: String,
    ) -> (res: Result<PembSwapPlan, SafeError>)
        requires
            old(self).wf(),
        ensures
            final(self).wf(),
            ({
                let ok = storage_total matches Some(Some(t)) && t > 1
                    && old(self).admin_fees.sentries@.dom().contains(current_account@);
                if ok {
                    let amount = old(self).admin_fees.sentries@[current_account@];
                    &&& final(self).admin_fees.sentries@ == old(self).admin_fees.sentries@.remove(current_account@)
                    &&& final(self).admin_fees.strat_creator == old(self).admin_fees.strat_creator
                    &&& final(self).admin_fees.strategy_fee == old(self).admin_fees.strategy_fee
                    &&& final(self).admin_fees.sentries_fee == old(self).admin_fees.sentries_fee
                    &&& *final(self) == (PembrockAutoCompounder { admin_fees: final(self).admin_fees, ..*old(self) })
                    &&& res matches Ok(plan) && payout_is(plan.sentry_payout, sentry_acc_id@, reward_token@, amount)
                        && plan.quote.pool_id == old(self).pool_id_token1_reward && plan.quote.token_in@
                        == old(self).reward_token@ && plan.quote.amount_in == old(self).last_reward_amount
                        && plan.quote.token_out@ == old(self).token_address@
                } else {
                    res == Err::<PembSwapPlan, SafeError>(
                        sentry_fee_refusal(storage_total, old(self).admin_fees.sentries@.dom().contains(current_account@))->0,
                    ) && *final(self) == *old(self)
                }
            }),
    {
        let amount = match self.admin_fees.take_sentry_fee(storage_total, current_account) {
            Ok(a) => a,
            Err(e) => return Err(e),
        };
        let sentry_payout = if amount > 0 {
            Some(Payout { receiver: sentry_acc_id, token: reward_token, amount })
        } else {
            None
        };
        let quote = ReturnQuery {
            pool_id: self.pool_id_token1_reward,
            token_in: self.reward_token.clone(),
            amount_in: self.last_reward_amount,
            token_out: self.token_address.clone(),
        };
        Ok(PembSwapPlan { sentry_payout, quote })
    }

    /// The exchange's quote for the reward, `amount_out` (`None` where the
    /// call failed, which is refused): the reward is swapped in
    /// [`PEMBROCK_SWAP_POOL`] for the lent token, asking for the quote less
    /// the slippage.
    pub fn callback_pembrock_swap(&self, amount_out: Option<u128>) -> (res: Result<SwapOrder, SafeError>)
        requires
            self.wf(),
            amount_out matches Some(a) ==> a * self.slippage <= u128::MAX,
        ensures
            match amount_out {
                None => res == Err::<SwapOrder, SafeError>(SafeError::CouldNotGetReturn),
                Some(a) => res matches Ok(o) && o.pool_id == PEMBROCK_SWAP_POOL && o.token_in@ == self.reward_token@
                    && o.token_out@ == self.token_address@ && o.amount_in == self.last_reward_amount
                    && o.min_amount_out == percent_of_spec(self.slippage as int, a as int),
            },
    {
        let a = match amount_out {
            Some(a) => a,
            None => return Err(SafeError::CouldNotGetReturn),
        };
        let token_min_out = percentage_apply_to(self.slippage, a);
        Ok(
            SwapOrder {
                pool_id: PEMBROCK_SWAP_POOL,
                token_in: self.reward_token.clone(),
                token_out: self.token_address.clone(),
                amount_in: self.last_reward_amount,
                min_amount_out: token_min_out,
            },
        )
    }

    /// After the swap, whose result is the amount of the lent token bought
    /// (`None` where it failed, which is refused): the reward is used up and
    /// the bought amount is lent.
    pub fn callback_pembrock_lend(&mut self, swap_result: Option<u128>) -> (res: Result<u128, SafeError>)
        requires
            old(self).wf(),
        ensures
            final(self).wf(),
            match swap_result {
                None => res == Err::<u128, SafeError>(SafeError::PromiseFailed) && *final(self) == *old(self),
                Some(a) => res == Ok::<u128, SafeError>(a) && *final(self) == (PembrockAutoCompounder {
                    last_reward_amount: 0,
                    ..*old(self)
                }),
            },
    {
        match swap_result {
            None => Err(SafeError::PromiseFailed),
            Some(a) => {
                self.last_reward_amount = 0;
                Ok(a)
            },
        }
    }

    /// After the lending of `amount`: nothing is left to lend if it
    /// succeeded; otherwise the amount waits to be lent again.
    pub fn callback_pembrock_post_lend(&mut self, lend_ok: bool, amount: u128)
        requires
            old(self).wf(),
            !lend_ok ==> old(self).harvest_value_available_to_stake + amount <= u128::MAX,
        ensures
            final(self).wf(),
            *final(self) == (PembrockAutoCompounder {
                harvest_value_available_to_stake: if lend_ok {
                    0
                } else {
                    (old(self).harvest_value_available_to_stake + amount) as u128
                },
                ..*old(self)
            }),
    {
        if lend_ok {
            self.harvest_value_available_to_stake = 0;
        } else {
            self.harvest_value_available_to_stake = self.harvest_value_available_to_stake + amount;
        }
    }
}

} // verus!
