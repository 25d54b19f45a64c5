//! The harvest of a Ref Finance strategy over a stable pool, where the reward
//! is swapped for one of the pool's tokens and added as liquidity.
use vstd::prelude::*;
use crate::arith::{percent_of_spec, percentage_apply_to};
use crate::compounder::{withdraw_plan_is, has_farm, first_farm, lemma_first_farm, lemma_no_farm, HarvestAction, 
    order_is, payout_is, reported_ended, reward_for, running_status, Payout, ReturnQuery, SwapOrder,
    WithdrawPlan,
};
use crate::errors::SafeError;
use crate::farm::{
    assert_strategy_not_cleared,
    AutoCompounderCycle, next_stage, slippage_after_failure, failure_ends_farm, AutoCompounderState, StableStratFarmInfo,
    StableStratFarmView, DEFAULT_SLIPPAGE,
};
use crate::fees::{fee_split, AccountFee, AdminFees};
use crate::strmap::StrMap;

verus! {

/// A Ref Finance strategy over a stable pool.
pub struct StableAutoCompounder {
    /// Fees struct to be distribute at each round of compound
    pub admin_fees: AdminFees,
    /// Contract address of the exchange used
    pub exchange_contract_id: String,
    /// Contract address of the farm used
    pub farm_contract_id: String,
    /// Pool used to add liquidity and farming
    pub pool_id: u64,
    /// Min LP amount accepted by the farm for stake
    pub seed_min_deposit: u128,
    /// Format expected by the farm to claim and withdraw rewards
    pub seed_id: String,
    /// Store all farms that were used to compound by some token_id
    pub farms: Vec<StableStratFarmInfo>,
    /// Latest harvest timestamp
    pub harvest_timestamp: u64,
}

/// The farms keep their number and all but the one at `idx` are unchanged.
pub open spec fn stable_others_unchanged(a: Seq<StableStratFarmInfo>, b: Seq<StableStratFarmInfo>, idx: int) -> bool {
    &&& a.len() == b.len()
    &&& forall|j: int| 0 <= j < a.len() && j != idx ==> #[trigger] b[j] == a[j]
}

/// The farm's token has a balance: its position is one of the pool's tokens.
pub open spec fn has_position(f: StableStratFarmView) -> bool {
    f.token_position < f.available_balance.len()
}

/// The farm after a failed swap: the slippage tolerance grows by 4 points, or
/// the farm ends when it cannot grow any more.
pub open spec fn stable_after_failed_swap(f: StableStratFarmView) -> StableStratFarmView {
    StableStratFarmView {
        slippage: slippage_after_failure(f.slippage as int) as u128,
        state: if failure_ends_farm(f.slippage as int) {
            AutoCompounderState::Ended
        } else {
            f.state
        },
        ..f
    }
}

/// What the swap step of a stable harvest does: pay the fees owed, then ask
/// for a quote of the reward in the farm's token, unless the reward is that
/// token.
pub struct StableSwapPlan {
    /// Fees owed to the treasury, moved inside the exchange.
    pub treasury_payout: Option<Payout>,
    /// Fees owed to the creator of the strategy.
    pub creator_payout: Option<Payout>,
    /// The quote to ask for; `None` where no swap is needed.
    pub quote: Option<ReturnQuery>,
}

/// The swap step of a stable harvest of the farm at `idx`, taking `old` to
/// `new` and giving `res`, as [`StableAutoCompounder::autocompounds_swap`]
/// describes it.
pub open spec fn stable_swap_step(
    old: StableAutoCompounder,
    new: StableAutoCompounder,
    idx: int,
    treasure: AccountFee,
    res: StableSwapPlan,
) -> bool {
    let f = old.farms@[idx]@;
    &&& stable_others_unchanged(old.farms@, new.farms@, idx)
    &&& new.admin_fees == old.admin_fees
    &&& payout_is(res.treasury_payout, treasure.account_id@, f.reward_token, treasure.current_amount)
    &&& payout_is(
        res.creator_payout,
        old.admin_fees.strat_creator.account_id@,
        f.reward_token,
        old.admin_fees.strat_creator.current_amount,
    )
    &&& if f.token_address == f.reward_token {
        &&& new.farms@[idx]@ == (StableStratFarmView {
            last_reward_amount: 0,
            available_balance: f.available_balance.update(f.token_position as int, f.last_reward_amount),
            cycle_stage: next_stage(f.cycle_stage),
            ..f
        })
        &&& res.quote is None
    } else {
        &&& new.farms@[idx]@ == f
        &&& res.quote matches Some(q) && q.pool_id == f.pool_id_token_reward && q.token_in@ == f.reward_token
            && q.amount_in == f.last_reward_amount && q.token_out@ == f.token_address
    }
}

/// The swap step of a stable harvest uses the whole reward, once: a reward
/// that is already the farm's token becomes its balance at the token's
/// position and nothing is left to swap; otherwise the quote asks for the
/// whole reward and the farm is unchanged until the swap answers.
pub proof fn lemma_stable_swap_uses_whole_reward(
    old: StableAutoCompounder,
    new: StableAutoCompounder,
    idx: int,
    treasure: AccountFee,
    res: StableSwapPlan,
)
    requires
        0 <= idx < old.farms@.len(),
        stable_swap_step(old, new, idx, treasure, res),
        old.farms@[idx].token_address@ == old.farms@[idx].reward_token@ ==> has_position(old.farms@[idx]@),
    ensures
        ({
            let f = old.farms@[idx]@;
            let g = new.farms@[idx]@;
            if f.token_address == f.reward_token {
                &&& res.quote is None
                &&& g.last_reward_amount == 0
                &&& g.available_balance[f.token_position as int] == f.last_reward_amount
            } else {
                &&& res.quote matches Some(q) && q.amount_in == f.last_reward_amount
                &&& g.last_reward_amount == f.last_reward_amount
            }
        }),
{
}

impl StableAutoCompounder {
    /// Well-formedness: the fees are well formed and every farm's slippage is
    /// a percentage.
    pub open spec fn wf(&self) -> bool {
        &&& self.admin_fees.wf()
        &&& forall|i: int| 0 <= i < self.farms@.len() ==> (#[trigger] self.farms@[i]).slippage <= 100
    }

    /// A stable strategy with no farm yet.
    pub fn new(
        strategy_fee: u128,
        strat_creator: AccountFee,
        sentry_fee: u128,
        exchange_contract_id: String,
        farm_contract_id: String,
        pool_id: u64,
        seed_id: String,
        seed_min_deposit: u128,
    ) -> (res: Self)
        ensures
            res.wf(),
            res.admin_fees.strategy_fee == strategy_fee,
            res.admin_fees.strat_creator == strat_creator,
            res.admin_fees.sentries_fee == sentry_fee,
            res.admin_fees.sentries@ == Map::<Seq<char>, u128>::empty(),
            res.exchange_contract_id == exchange_contract_id,
            res.farm_contract_id == farm_contract_id,
            res.pool_id == pool_id,
            res.seed_id == seed_id,
            res.seed_min_deposit == seed_min_deposit,
            res.farms@.len() == 0,
            res.harvest_timestamp == 0,
    {
        StableAutoCompounder {
            admin_fees: AdminFees::new(strat_creator, sentry_fee, strategy_fee),
            exchange_contract_id,
            farm_contract_id,
            pool_id,
            seed_min_deposit,
            seed_id,
            farms: Vec::new(),
            harvest_timestamp: 0,
        }
    }

    /// Position of the first farm with id `farm_id`.
    pub fn farm_index(&self, farm_id: &String) -> (res: Option<usize>)
        ensures
            match res {
                Some(i) => i < self.farms@.len() && self.farms@[i as int].id@ == farm_id@
                    && forall|j: int| 0 <= j < i ==> (#[trigger] self.farms@[j]).id@ != farm_id@,
                None => forall|j: int| 0 <= j < self.farms@.len() ==> (#[trigger] self.farms@[j]).id@
                    != farm_id@,
            },
    {
        let mut i: usize = 0;
        while i < self.farms.len()
            invariant
                i <= self.farms@.len(),
                forall|j: int| 0 <= j < i ==> (#[trigger] self.farms@[j]).id@ != farm_id@,
            decreases self.farms@.len() - i,
        {
            if self.farms[i].id == *farm_id {
                return Some(i);
            }
            i = i + 1;
        }
        None
    }

    /// The withdrawal step: withdraw the reward from the farm, or, while the
    /// fees of an earlier withdrawal are still held under the contract's
    /// account, send the reward and the treasury's fees to the exchange again.
    pub fn withdraw_of_reward(&self, idx: usize, treasury_current_amount: u128, current_account: &String) -> (res:
        WithdrawPlan)
        requires
            self.wf(),
            idx < self.farms@.len(),
            self.admin_fees.sentries@.dom().contains(current_account@) ==> self.farms@[idx as int].last_reward_amount
                + treasury_current_amount <= u128::MAX,
        ensures
            withdraw_plan_is(
                res,
                self.admin_fees.sentries@.dom().contains(current_account@),
                self.farms@[idx as int].reward_token@,
                self.farms@[idx as int].last_reward_amount,
                treasury_current_amount,
            ),
    {
        let farm = &self.farms[idx];
        if !self.admin_fees.sentries.contains_key(current_account) {
            WithdrawPlan::Withdraw { token: farm.reward_token.clone(), amount: farm.last_reward_amount }
        } else {
            WithdrawPlan::Transfer {
                token: farm.reward_token.clone(),
                amount: farm.last_reward_amount + treasury_current_amount,
            }
        }
    }

    /// Claiming the seed's rewards claims those of every farm of the seed: each
    /// farm adds what `rewards` holds of its reward token to its reward.
    pub fn update_strats_by_seed(&mut self, rewards: &StrMap<u128>)
        requires
            old(self).wf(),
            rewards.wf(),
            forall|j: int| 0 <= j < old(self).farms@.len() ==> (#[trigger] old(self).farms@[j]).last_reward_amount
                + reward_for(rewards@, old(self).farms@[j].reward_token@) <= u128::MAX,
        ensures
            final(self).wf(),
            final(self).farms@.len() == old(self).farms@.len(),
            forall|j: int| 0 <= j < old(self).farms@.len() ==> (#[trigger] final(self).farms@[j])@ == (StableStratFarmView {
                last_reward_amount: (old(self).farms@[j].last_reward_amount + reward_for(
                    rewards@,
                    old(self).farms@[j].reward_token@,
                )) as u128,
                ..old(self).farms@[j]@
            }),
            final(self).admin_fees == old(self).admin_fees,
            final(self).pool_id == old(self).pool_id,
            final(self).seed_min_deposit == old(self).seed_min_deposit,
    {
        let ghost old_farms = self.farms@;
        let mut i: usize = 0;
        while i < self.farms.len()
            invariant
                i <= self.farms@.len(),
                self.farms@.len() == old_farms.len(),
                rewards.wf(),
                self.admin_fees == old(self).admin_fees,
                self.pool_id == old(self).pool_id,
                self.seed_min_deposit == old(self).seed_min_deposit,
                old_farms == old(self).farms@,
                forall|j: int| 0 <= j < old_farms.len() ==> (#[trigger] old_farms[j]).last_reward_amount
                    + reward_for(rewards@, old_farms[j].reward_token@) <= u128::MAX,
                forall|j: int| 0 <= j < i ==> (#[trigger] self.farms@[j])@ == (StableStratFarmView {
                    last_reward_amount: (old_farms[j].last_reward_amount + reward_for(
                        rewards@,
                        old_farms[j].reward_token@,
                    )) as u128,
                    ..old_farms[j]@
                }),
                forall|j: int| i <= j < old_farms.len() ==> #[trigger] self.farms@[j] == old_farms[j],
            decreases old_farms.len() - i,
        {
            let earned = match rewards.get(&self.farms[i].reward_token) {
                Some(v) => *v,
                None => 0,
            };
            if earned > 0 {
                self.farms[i].last_reward_amount = self.farms[i].last_reward_amount + earned;
            }
            i = i + 1;
        }
        proof {
            assert forall|j: int| 0 <= j < self.farms@.len() implies (#[trigger] self.farms@[j]).slippage <= 100 by {
                assert(old_farms[j].slippage <= 100);
            }
        }
    }

    /// After the seed's rewards were claimed: every farm of the seed takes its
    /// share of `rewards`, the farm at `idx` adds `reward_amount`, and its
    /// harvest moves on to the withdrawal.
    pub fn stable_callback_post_claim_reward(&mut self, idx: usize, reward_amount: u128, rewards: &StrMap<u128>) -> (res:
        u128)
        requires
            old(self).wf(),
            rewards.wf(),
            idx < old(self).farms@.len(),
            forall|j: int| 0 <= j < old(self).farms@.len() ==> (#[trigger] old(self).farms@[j]).last_reward_amount
                + reward_for(rewards@, old(self).farms@[j].reward_token@) <= u128::MAX,
            old(self).farms@[idx as int].last_reward_amount + reward_for(
                rewards@,
                old(self).farms@[idx as int].reward_token@,
            ) + reward_amount <= u128::MAX,
        ensures
            res == reward_amount,
            final(self).wf(),
            final(self).farms@.len() == old(self).farms@.len(),
            forall|j: int| 0 <= j < old(self).farms@.len() && j != idx ==> (#[trigger] final(self).farms@[j])@
                == (StableStratFarmView {
                last_reward_amount: (old(self).farms@[j].last_reward_amount + reward_for(
                    rewards@,
                    old(self).farms@[j].reward_token@,
                )) as u128,
                ..old(self).farms@[j]@
            }),
            ({
                let f = old(self).farms@[idx as int]@;
                final(self).farms@[idx as int]@ == (StableStratFarmView {
                    last_reward_amount: (f.last_reward_amount + reward_for(rewards@, f.reward_token)
                        + reward_amount) as u128,
                    cycle_stage: next_stage(f.cycle_stage),
                    ..f
                })
            }),
            final(self).admin_fees == old(self).admin_fees,
    {
        self.update_strats_by_seed(rewards);
        self.farms[idx].last_reward_amount = self.farms[idx].last_reward_amount + reward_amount;
        self.farms[idx].next_cycle();
        reward_amount
    }

    /// The farm contract's answer on the seed's unclaimed rewards, `rewards`:
    /// as for a two-token pool, a farm that ended with no reward is cleared,
    /// a running one with no reward is refused, and otherwise the reward is
    /// claimed, with the rewards of the other tokens.
    pub fn stable_callback_post_get_unclaimed_reward(&mut self, idx: usize, rewards: StrMap<u128>) -> (res: Result<
        Option<(u128, StrMap<u128>)>,
        SafeError,
    >)
        requires
            old(self).wf(),
            rewards.wf(),
            idx < old(self).farms@.len(),
        ensures
            final(self).wf(),
            stable_others_unchanged(old(self).farms@, final(self).farms@, idx as int),
            final(self).admin_fees == old(self).admin_fees,
            ({
                let f = old(self).farms@[idx as int]@;
                let r = reward_for(rewards@, f.reward_token);
                if r == 0 {
                    if f.state == AutoCompounderState::Ended {
                        &&& final(self).farms@[idx as int]@ == (StableStratFarmView {
                            state: AutoCompounderState::Cleared,
                            ..f
                        })
                        &&& res matches Ok(None)
                    } else {
                        &&& final(self).farms@[idx as int]@ == f
                        &&& res matches Err(e) && e == SafeError::ZeroRewardsEarned
                    }
                } else {
                    &&& final(self).farms@[idx as int]@ == f
                    &&& res matches Ok(Some((amount, others))) && amount == r && others.wf() && others@
                        == rewards@.remove(f.reward_token)
                }
            }),
    {
        let mut others = rewards;
        let token = self.farms[idx].reward_token.clone();
        let reward_amount = match others.get(&token) {
            Some(v) => *v,
            None => 0,
        };
        if reward_amount == 0 {
            if self.farms[idx].state == AutoCompounderState::Ended {
                self.farms[idx].state = AutoCompounderState::Cleared;
                return Ok(None);
            } else {
                return Err(SafeError::ZeroRewardsEarned);
            }
        }
        others.remove(&token);
        Ok(Some((reward_amount, others)))
    }

    /// The farm contract's list of the seed's farms, as `(farm id, status)`:
    /// where it reports the farm `farm_id` as not running, every farm of the
    /// strategy with that id ends.
    pub fn stable_callback_list_farms_by_seed(&mut self, farm_id: &String, statuses: &Vec<(String, String)>)
        requires
            old(self).wf(),
        ensures
            final(self).wf(),
            final(self).farms@.len() == old(self).farms@.len(),
            forall|j: int| 0 <= j < old(self).farms@.len() ==> (#[trigger] final(self).farms@[j])@ == (if reported_ended(
                statuses@,
                farm_id@,
            ) && old(self).farms@[j].id@ == farm_id@ {
                (StableStratFarmView { state: AutoCompounderState::Ended, ..old(self).farms@[j]@ })
            } else {
                old(self).farms@[j]@
            }),
            final(self).admin_fees == old(self).admin_fees,
    {
        let running = String::from_str("Running");
        proof {
            reveal_strlit("Running");
            assert(running@ =~= running_status());
        }
        let mut ended = false;
        let mut k: usize = 0;
        while k < statuses.len()
            invariant
                k <= statuses@.len(),
                running@ == running_status(),
                ended <==> exists|i: int| 0 <= i < k && (#[trigger] statuses@[i]).0@ == farm_id@ && statuses@[i].1@
                    != running_status(),
            decreases statuses@.len() - k,
        {
            if statuses[k].0 == *farm_id && statuses[k].1 != running {
                ended = true;
            }
            k = k + 1;
        }
        if !ended {
            return;
        }
        let ghost old_farms = self.farms@;
        let mut i: usize = 0;
        while i < self.farms.len()
            invariant
                i <= self.farms@.len(),
                self.farms@.len() == old_farms.len(),
                old_farms == old(self).farms@,
                self.admin_fees == old(self).admin_fees,
                forall|j: int| 0 <= j < i ==> (#[trigger] self.farms@[j])@ == (if old_farms[j].id@ == farm_id@ {
                    (StableStratFarmView { state: AutoCompounderState::Ended, ..old_farms[j]@ })
                } else {
                    old_farms[j]@
                }),
                forall|j: int| i <= j < old_farms.len() ==> #[trigger] self.farms@[j] == old_farms[j],
            decreases old_farms.len() - i,
        {
            if self.farms[i].id == *farm_id {
                self.farms[i].state = AutoCompounderState::Ended;
            }
            i = i + 1;
        }
        proof {
            assert forall|j: int| 0 <= j < self.farms@.len() implies (#[trigger] self.farms@[j]).slippage <= 100 by {
                assert(old_farms[j].slippage <= 100);
            }
        }
    }

    /// Splits the withdrawn reward of the farm at `idx` by the fees, as for a
    /// two-token pool: returns `(treasury fee, amount to send to the exchange)`.
    pub fn stable_callback_post_withdraw(&mut self, idx: usize, current_account: &String) -> (res: Result<(u128, u128), SafeError>)
        requires
            old(self).wf(),
            idx < old(self).farms@.len(),
        ensures
            final(self).wf(),
            ({
                let f = old(self).farms@[idx as int]@;
                let fees = old(self).admin_fees;
                let split = fee_split(
                    fees.strategy_fee as int,
                    fees.sentries_fee as int,
                    fees.strat_creator.fee_percentage as int,
                    f.last_reward_amount as int,
                );
                match split {
                    None => res == Err::<(u128, u128), SafeError>(SafeError::FeeNotValid) && *final(self) == *old(self),
                    Some(t) => if fees.strat_creator.current_amount + t.3 > u128::MAX {
                        res == Err::<(u128, u128), SafeError>(SafeError::ArithmeticOverflow) && *final(self) == *old(self)
                    } else {
                        &&& res == Ok::<(u128, u128), SafeError>((t.1 as u128, (t.0 + t.1) as u128))
                        &&& final(self).admin_fees.strat_creator.current_amount == fees.strat_creator.current_amount + t.3
                        &&& final(self).admin_fees.strat_creator.account_id == fees.strat_creator.account_id
                        &&& final(self).admin_fees.strat_creator.fee_percentage == fees.strat_creator.fee_percentage
                        &&& final(self).admin_fees.strategy_fee == fees.strategy_fee
                        &&& final(self).admin_fees.sentries_fee == fees.sentries_fee
                        &&& final(self).admin_fees.sentries@ == fees.sentries@.insert(current_account@, t.2 as u128)
                        &&& stable_others_unchanged(old(self).farms@, final(self).farms@, idx as int)
                        &&& final(self).farms@[idx as int]@ == (StableStratFarmView { last_reward_amount: t.0 as u128, ..f })
                        &&& *final(self) == (StableAutoCompounder {
                            admin_fees: final(self).admin_fees,
                            farms: final(self).farms,
                            ..*old(self)
                        })
                    },
                }
            }),
    {
        let last_reward_amount = self.farms[idx].last_reward_amount;
        let (remaining_amount, protocol_amount, _, _) = match self.admin_fees.take_fees(
            last_reward_amount,
            current_account,
        ) {
            Ok(t) => t,
            Err(e) => return Err(e),
        };
        self.farms[idx].last_reward_amount = remaining_amount;
        proof {
            crate::fees::lemma_fee_split_conserves(
                old(self).admin_fees.strategy_fee as int,
                old(self).admin_fees.sentries_fee as int,
                old(self).admin_fees.strat_creator.fee_percentage as int,
                last_reward_amount as int,
            );
        }
        Ok((protocol_amount, remaining_amount + protocol_amount))
    }

    /// After the reward was sent to the exchange: the harvest moves on to the
    /// swap if the transfer succeeded.
    pub fn stable_callback_post_ft_transfer(&mut self, idx: usize, transfer_ok: bool)
        requires
            old(self).wf(),
            idx < old(self).farms@.len(),
        ensures
            final(self).wf(),
            stable_others_unchanged(old(self).farms@, final(self).farms@, idx as int),
            final(self).farms@[idx as int]@ == (if transfer_ok {
                (StableStratFarmView {
                    cycle_stage: next_stage(old(self).farms@[idx as int].cycle_stage),
                    ..old(self).farms@[idx as int]@
                })
            } else {
                old(self).farms@[idx as int]@
            }),
            final(self).admin_fees == old(self).admin_fees,
    {
        if transfer_ok {
            self.farms[idx].next_cycle();
        }
    }
}


impl StableAutoCompounder {
    /// The swap step of the harvest of the farm at `idx`: the fees owed to the
    /// treasury and to the creator are paid. A reward that is the farm's token
    /// needs no swap: it becomes that token's balance at once and the harvest
    /// moves on to staking. Otherwise the exchange is asked how much of the
    /// farm's token the whole reward buys.
    pub fn autocompounds_swap(&mut self, idx: usize, treasure: &AccountFee) -> (res: StableSwapPlan)
        requires
            old(self).wf(),
            idx < old(self).farms@.len(),
            old(self).farms@[idx as int].token_address@ == old(self).farms@[idx as int].reward_token@ ==> has_position(
                old(self).farms@[idx as int]@,
            ),
        ensures
            final(self).wf(),
            stable_swap_step(*old(self), *final(self), idx as int, *treasure, res),
    {
        let reward_token = self.farms[idx].reward_token.clone();
        let treasury_payout = if treasure.current_amount > 0 {
            Some(
                Payout {
                    receiver: treasure.account_id.clone(),
                    token: reward_token.clone(),
                    amount: treasure.current_amount,
                },
            )
        } else {
            None
        };
        let creator_payout = if self.admin_fees.strat_creator.current_amount > 0 {
            Some(
                Payout {
                    receiver: self.admin_fees.strat_creator.account_id.clone(),
                    token: reward_token.clone(),
                    amount: self.admin_fees.strat_creator.current_amount,
                },
            )
        } else {
            None
        };
        let reward_amount = self.farms[idx].last_reward_amount;
        if self.farms[idx].token_address == reward_token {
            let n = self.farms[idx].available_balance.len();
        assert(self.farms[idx as int].token_position < n);
        let pos = self.farms[idx].token_position as usize;
            self.farms[idx].last_reward_amount = 0;
            self.farms[idx].available_balance.set(pos, reward_amount);
            self.farms[idx].next_cycle();
            return StableSwapPlan { treasury_payout, creator_payout, quote: None };
        }
        let quote = ReturnQuery {
            pool_id: self.farms[idx].pool_id_token_reward,
            token_in: reward_token,
            amount_in: reward_amount,
            token_out: self.farms[idx].token_address.clone(),
        };
        StableSwapPlan { treasury_payout, creator_payout, quote: Some(quote) }
    }

    /// The exchange's quote for the reward, `token_out` (`None` where the call
    /// failed, which is refused). The quote less the slippage is the least
    /// amount the swap must give; where that is zero the slippage tolerance
    /// grows (or the farm ends) and nothing is swapped, `Ok(None)`.
    pub fn stable_callback_get_token_return(&mut self, idx: usize, token_out: Option<u128>) -> (res: Result<
        Option<SwapOrder>,
        SafeError,
    >)
        requires
            old(self).wf(),
            idx < old(self).farms@.len(),
            token_out matches Some(q) ==> q * old(self).farms@[idx as int].slippage <= u128::MAX,
        ensures
            final(self).wf(),
            stable_others_unchanged(old(self).farms@, final(self).farms@, idx as int),
            final(self).admin_fees == old(self).admin_fees,
            ({
                let f = old(self).farms@[idx as int]@;
                match token_out {
                    None => res == Err::<Option<SwapOrder>, SafeError>(SafeError::CouldNotGetReturn) && final(self).farms@[idx as int]@ == f,
                    Some(q) => {
                        let min_out = percent_of_spec(f.slippage as int, q as int);
                        if min_out == 0 {
                            &&& final(self).farms@[idx as int]@ == stable_after_failed_swap(f)
                            &&& res matches Ok(None)
                        } else {
                            &&& final(self).farms@[idx as int]@ == f
                            &&& res matches Ok(Some(o)) && order_is(
                                o,
                                f.pool_id_token_reward,
                                f.reward_token,
                                f.token_address,
                                f.last_reward_amount,
                                min_out,
                            )
                        }
                    },
                }
            }),
    {
        let q = match token_out {
            Some(q) => q,
            None => return Err(SafeError::CouldNotGetReturn),
        };
        let min_amount_out = percentage_apply_to(self.farms[idx].slippage, q);
        if min_amount_out == 0 {
            self.farms[idx].increase_slippage();
            return Ok(None);
        }
        Ok(
            Some(
                SwapOrder {
                    pool_id: self.farms[idx].pool_id_token_reward,
                    token_in: self.farms[idx].reward_token.clone(),
                    token_out: self.farms[idx].token_address.clone(),
                    amount_in: self.farms[idx].last_reward_amount,
                    min_amount_out,
                },
            ),
        )
    }

    /// After the swap. A failed swap raises the slippage tolerance (or ends the
    /// farm). A successful one gives the farm's token balance, uses up the
    /// reward, resets the slippage and moves on to staking.
    pub fn stable_callback_post_swap(&mut self, idx: usize, swap_result: Option<u128>)
        requires
            old(self).wf(),
            idx < old(self).farms@.len(),
            swap_result is Some ==> has_position(old(self).farms@[idx as int]@),
        ensures
            final(self).wf(),
            stable_others_unchanged(old(self).farms@, final(self).farms@, idx as int),
            final(self).admin_fees == old(self).admin_fees,
            ({
                let f = old(self).farms@[idx as int]@;
                let g = final(self).farms@[idx as int]@;
                match swap_result {
                    None => g == stable_after_failed_swap(f),
                    Some(v) => g == (StableStratFarmView {
                        last_reward_amount: 0,
                        available_balance: f.available_balance.update(f.token_position as int, v),
                        slippage: DEFAULT_SLIPPAGE,
                        cycle_stage: next_stage(f.cycle_stage),
                        ..f
                    }),
                }
            }),
    {
        match swap_result {
            None => {
                self.farms[idx].increase_slippage();
            },
            Some(v) => {
                self.farms[idx].last_reward_amount = 0;
                let n = self.farms[idx].available_balance.len();
        assert(self.farms[idx as int].token_position < n);
        let pos = self.farms[idx].token_position as usize;
                self.farms[idx].available_balance.set(pos, v);
                self.farms[idx].slippage = DEFAULT_SLIPPAGE;
                self.farms[idx].next_cycle();
            },
        }
    }

    /// The reward token's answer on the sentry's storage, `storage_total`
    /// (`None` where the call failed, `Some(None)` where the sentry is not
    /// registered): the sentry's fee held under `current_account` is taken
    /// out, as [`AdminFees::take_sentry_fee`] says, to be sent to the sentry.
    /// The farms do not change.
    pub fn stable_callback_post_sentry(&mut self, storage_total: Option<Option<u128>>, current_account: &String) -> (res: Result<u128, SafeError>)
        requires
            old(self).wf(),
        ensures
            final(self).wf(),
            final(self).farms == old(self).farms,
            (StableAutoCompounder { admin_fees: old(self).admin_fees, ..*final(self) }) == *old(self),
            (match storage_total {
                None => res == Err::<u128, SafeError>(SafeError::SentryNotRegistered) && *final(self) == *old(self),
                Some(None) => res == Err::<u128, SafeError>(SafeError::NotEnoughBalance) && *final(self) == *old(self),
                Some(Some(total)) => if total <= 1 {
                    res == Err::<u128, SafeError>(SafeError::NotEnoughBalance) && *final(self) == *old(self)
                } else if !old(self).admin_fees.sentries@.dom().contains(current_account@) {
                    res == Err::<u128, SafeError>(SafeError::DoesNotExist) && *final(self) == *old(self)
                } else {
                    &&& res == Ok::<u128, SafeError>(old(self).admin_fees.sentries@[current_account@])
                    &&& final(self).admin_fees.sentries@ == old(self).admin_fees.sentries@.remove(current_account@)
                    &&& final(self).admin_fees.strat_creator == old(self).admin_fees.strat_creator
                    &&& final(self).admin_fees.strategy_fee == old(self).admin_fees.strategy_fee
                    &&& final(self).admin_fees.sentries_fee == old(self).admin_fees.sentries_fee
                },
            }),
    {
        self.admin_fees.take_sentry_fee(storage_total, current_account)
    }

    /// After the sentry's fee was sent: a failed transfer keeps the fee owed to
    /// the sentry. A farm that ended is now cleared (`None`); otherwise the
    /// harvest adds all the balances as liquidity to the stable pool:
    /// `Some((pool_id, balances))`.
    pub fn stable_callback_post_sentry_mft_transfer(
        &mut self,
        idx: usize,
        transfer_ok: bool,
        sentry_id: String,
        amount_earned: u128,
    ) -> (res: Option<(u64, Vec<u128>)>)
        requires
            old(self).wf(),
            idx < old(self).farms@.len(),
        ensures
            final(self).wf(),
            stable_others_unchanged(old(self).farms@, final(self).farms@, idx as int),
            final(self).admin_fees.sentries@ == (if transfer_ok {
                old(self).admin_fees.sentries@
            } else {
                old(self).admin_fees.sentries@.insert(sentry_id@, amount_earned)
            }),
            final(self).admin_fees.strat_creator == old(self).admin_fees.strat_creator,
            final(self).pool_id == old(self).pool_id,
            ({
                let f = old(self).farms@[idx as int]@;
                if f.state == AutoCompounderState::Ended {
                    &&& final(self).farms@[idx as int]@ == (StableStratFarmView {
                        state: AutoCompounderState::Cleared,
                        ..f
                    })
                    &&& res is None
                } else {
                    &&& final(self).farms@[idx as int]@ == f
                    &&& res matches Some((pool, amounts)) && pool == old(self).pool_id && amounts@ == f.available_balance
                }
            }),
    {
        self.admin_fees.settle_sentry_transfer(transfer_ok, sentry_id, amount_earned);
        if self.farms[idx].state == AutoCompounderState::Ended {
            self.farms[idx].state = AutoCompounderState::Cleared;
            return None;
        }
        let amounts = self.farms[idx].available_balance.clone();
        Some((self.pool_id, amounts))
    }

    /// After liquidity was added: the farm's token balance was used up.
    pub fn stable_callback_post_add_stable_liquidity(&mut self, idx: usize)
        requires
            old(self).wf(),
            idx < old(self).farms@.len(),
            has_position(old(self).farms@[idx as int]@),
        ensures
            final(self).wf(),
            stable_others_unchanged(old(self).farms@, final(self).farms@, idx as int),
            final(self).admin_fees == old(self).admin_fees,
            final(self).pool_id == old(self).pool_id,
            final(self).farms@[idx as int]@ == (StableStratFarmView {
                available_balance: old(self).farms@[idx as int].available_balance@.update(
                    old(self).farms@[idx as int].token_position as int,
                    0,
                ),
                ..old(self).farms@[idx as int]@
            }),
    {
        let n = self.farms[idx].available_balance.len();
        assert(self.farms[idx as int].token_position < n);
        let pos = self.farms[idx].token_position as usize;
        self.farms[idx].available_balance.set(pos, 0);
    }

    /// With the contract's shares of the pool known, the harvest is done: its
    /// time is `now_ms` and the farm starts over. The shares are staked,
    /// `Some(shares)`, unless they are below the seed's minimum deposit.
    pub fn stable_callback_post_get_pool_shares(&mut self, idx: usize, accumulated_shares: u128, now_ms: u64) -> (res:
        Option<u128>)
        requires
            old(self).wf(),
            idx < old(self).farms@.len(),
        ensures
            final(self).wf(),
            stable_others_unchanged(old(self).farms@, final(self).farms@, idx as int),
            final(self).admin_fees == old(self).admin_fees,
            final(self).harvest_timestamp == now_ms,
            final(self).farms@[idx as int]@ == (StableStratFarmView {
                cycle_stage: next_stage(old(self).farms@[idx as int].cycle_stage),
                ..old(self).farms@[idx as int]@
            }),
            res == (if accumulated_shares < old(self).seed_min_deposit {
                None
            } else {
                Some(accumulated_shares)
            }),
    {
        self.harvest_timestamp = now_ms;
        self.farms[idx].next_cycle();
        if accumulated_shares < self.seed_min_deposit {
            None
        } else {
            Some(accumulated_shares)
        }
    }
}


impl StableAutoCompounder {
    /// The ids of the farms, in order.
    pub open spec fn farm_ids(self) -> Seq<Seq<char>> {
        self.farms@.map_values(|f: StableStratFarmInfo| f.id@)
    }

    /// What a call of the harvest for the farm `farm_id` does, taking `old` to
    /// `new`: as for a two-token pool, except that the swap step may use the
    /// reward at once (see [`stable_swap_step`]); a reward that is the farm's
    /// token with no balance at the farm's position is refused.
    pub open spec fn harvest_step(
        old: Self,
        new: Self,
        farm_id: Seq<char>,
        seed_id: Seq<char>,
        treasure: AccountFee,
        current_account: Seq<char>,
        predecessor: Seq<char>,
        res: Result<HarvestAction, SafeError>,
    ) -> bool {
        if !has_farm(old.farm_ids(), farm_id) {
            res == Err::<HarvestAction, SafeError>(SafeError::FarmDoesNotExist) && new == old
        } else {
            let i = first_farm(old.farm_ids(), farm_id);
            let f = old.farms@[i]@;
            if f.state == AutoCompounderState::Cleared {
                res == Err::<HarvestAction, SafeError>(SafeError::StrategyCleared) && new == old
            } else {
                match f.cycle_stage {
                    AutoCompounderCycle::ClaimReward => new == old && (res matches Ok(
                        HarvestAction::ClaimReward { seed_id: s },
                    ) && s@ == seed_id),
                    AutoCompounderCycle::Withdrawal => {
                        let pending = old.admin_fees.sentries@.dom().contains(current_account);
                        new == old && (if pending && f.last_reward_amount + treasure.current_amount > u128::MAX {
                            res == Err::<HarvestAction, SafeError>(SafeError::ArithmeticOverflow)
                        } else {
                            res matches Ok(HarvestAction::Withdraw(p)) && withdraw_plan_is(
                                p,
                                pending,
                                f.reward_token,
                                f.last_reward_amount,
                                treasure.current_amount,
                            )
                        })
                    },
                    AutoCompounderCycle::Swap => if f.token_address == f.reward_token && !has_position(f) {
                        res == Err::<HarvestAction, SafeError>(SafeError::InvalidTokenPosition) && new == old
                    } else {
                        res matches Ok(HarvestAction::StableSwap(p)) && stable_swap_step(old, new, i, treasure, p)
                    },
                    AutoCompounderCycle::Stake => new == old && (res matches Ok(
                        HarvestAction::SentryStorage { sentry, reward_token },
                    ) && sentry@ == predecessor && reward_token@ == f.reward_token),
                }
            }
        }
    }

    /// The harvest for the farm `farm_id`, as
    /// [`StableAutoCompounder::harvest_step`] describes it.
    pub fn harvest(
        &mut self,
        farm_id: &String,
        seed_id: &String,
        treasure: &AccountFee,
        current_account: &String,
        predecessor: &String,
    ) -> (res: Result<HarvestAction, SafeError>)
        requires
            old(self).wf(),
        ensures
            final(self).wf(),
            Self::harvest_step(
                *old(self),
                *final(self),
                farm_id@,
                seed_id@,
                *treasure,
                current_account@,
                predecessor@,
                res,
            ),
    {
        let idx = match self.farm_index(farm_id) {
            Some(i) => i,
            None => {
                proof {
                    lemma_no_farm(self.farm_ids(), farm_id@);
                }
                return Err(SafeError::FarmDoesNotExist);
            },
        };
        proof {
            lemma_first_farm(self.farm_ids(), farm_id@, idx as int);
        }
        assert_strategy_not_cleared(self.farms[idx].state)?;
        match self.farms[idx].cycle_stage {
            AutoCompounderCycle::ClaimReward => Ok(HarvestAction::ClaimReward { seed_id: seed_id.clone() }),
            AutoCompounderCycle::Withdrawal => {
                let pending = self.admin_fees.sentries.contains_key(current_account);
                if pending && self.farms[idx].last_reward_amount > u128::MAX - treasure.current_amount {
                    return Err(SafeError::ArithmeticOverflow);
                }
                Ok(HarvestAction::Withdraw(self.withdraw_of_reward(idx, treasure.current_amount, current_account)))
            },
            AutoCompounderCycle::Swap => {
                if self.farms[idx].token_address == self.farms[idx].reward_token {
                    let n = self.farms[idx].available_balance.len();
                    if self.farms[idx].token_position >= n as u64 {
                        return Err(SafeError::InvalidTokenPosition);
                    }
                }
                Ok(HarvestAction::StableSwap(self.autocompounds_swap(idx, treasure)))
            },
            AutoCompounderCycle::Stake => Ok(
                HarvestAction::SentryStorage {
                    sentry: predecessor.clone(),
                    reward_token: self.farms[idx].reward_token.clone(),
                },
            ),
        }
    }
}

} // verus!
