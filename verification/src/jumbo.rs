//! The harvest of a Jumbo strategy over a two-token pool, where the reward is
//! swapped for each token in a step of its own.
use vstd::prelude::*;
use crate::compounder::{has_farm, first_farm, lemma_first_farm, lemma_no_farm, HarvestAction, withdraw_plan_is, order_is, payout_is, reported_ended, running_status, Payout, ReturnQuery, SwapOrder, WithdrawPlan};
use crate::errors::SafeError;
use crate::farm::{
    JumboAutoCompounderCycle, next_jumbo_stage, slippage_after_failure, failure_ends_farm, JumboAutoCompounderState, JumboStratFarmInfo,
    JumboStratFarmView,
};
use crate::fees::{fee_split, sentry_fee_refusal, AccountFee, AdminFees};

verus! {

/// A Jumbo strategy.
pub struct JumboAutoCompounder {
    /// Fees struct to be distribute at each round of compound
    pub admin_fees: AdminFees,
    /// Contract address of the exchange used
    pub exchange_contract_id: String,
    /// Contract address of the farm used
    pub farm_contract_id: String,
    /// Address of the first token used by pool
    pub token1_address: String,
    /// Address of the token used by the pool
    pub token2_address: String,
    /// Pool used to add liquidity and farming
    pub pool_id: u64,
    /// Min LP amount accepted by the farm for stake
    pub seed_min_deposit: u128,
    /// Format expected by the farm to claim and withdraw rewards
    pub seed_id: String,
    /// Store all farms that were used to compound by some token_id
    pub farms: Vec<JumboStratFarmInfo>,
    /// Latest harvest timestamp
    pub harvest_timestamp: u64,
}

/// A farm as the harvest needs it: a balance for each of the two tokens and a
/// slippage that is a percentage.
pub open spec fn jumbo_farm_wf(f: JumboStratFarmView) -> bool {
    f.available_balance.len() == 2 && f.slippage <= 100
}

/// The farms keep their number and all but the one at `idx` are unchanged.
pub open spec fn jumbo_others_unchanged(a: Seq<JumboStratFarmInfo>, b: Seq<JumboStratFarmInfo>, idx: int) -> bool {
    &&& a.len() == b.len()
    &&& forall|j: int| 0 <= j < a.len() && j != idx ==> #[trigger] b[j] == a[j]
}

/// The farm after a failed quote or swap: the slippage tolerance grows by 4
/// points, or the farm ends when it cannot grow any more.
pub open spec fn jumbo_after_failed_swap(f: JumboStratFarmView) -> JumboStratFarmView {
    JumboStratFarmView {
        slippage: slippage_after_failure(f.slippage as int) as u128,
        state: if failure_ends_farm(f.slippage as int) {
            JumboAutoCompounderState::Ended
        } else {
            f.state
        },
        ..f
    }
}

/// What the first swap step of a Jumbo harvest does: pay the fees owed, then
/// ask the exchange how much of the first token half of the reward buys.
pub struct JumboSwapPlan {
    /// Fees owed to the treasury, moved inside the exchange.
    pub treasury_payout: Option<Payout>,
    /// Fees owed to the creator of the strategy.
    pub creator_payout: Option<Payout>,
    /// The quote to ask for.
    pub quote: ReturnQuery,
}

/// The first swap of a Jumbo harvest takes half of the reward, rounded down:
/// what is left for the second swap is that half, or one more where the
/// reward is odd, and never less than what the first swap took.
pub proof fn lemma_jumbo_swap_takes_half(c: JumboAutoCompounder, idx: int, treasure: AccountFee, res: JumboSwapPlan)
    requires
        0 <= idx < c.farms@.len(),
        c.swap_plan_is(idx, treasure, res),
    ensures
        ({
            let r = c.farms@[idx].last_reward_amount;
            &&& 2 * res.quote.amount_in <= r
            &&& res.quote.amount_in <= r - res.quote.amount_in <= res.quote.amount_in + 1
        }),
{
}

impl JumboAutoCompounder {
    /// Well-formedness: the fees and every farm are well formed.
    pub open spec fn wf(&self) -> bool {
        &&& self.admin_fees.wf()
        &&& forall|i: int| 0 <= i < self.farms@.len() ==> jumbo_farm_wf(#[trigger] self.farms@[i]@)
    }

    /// `res` is the first swap step of the harvest of the farm at `idx`, as
    /// [`JumboAutoCompounder::autocompounds_swap`] describes it.
    pub open spec fn swap_plan_is(self, idx: int, treasure: AccountFee, res: JumboSwapPlan) -> bool {
        let f = self.farms@[idx]@;
        &&& payout_is(res.treasury_payout, treasure.account_id@, f.reward_token, treasure.current_amount)
        &&& payout_is(
            res.creator_payout,
            self.admin_fees.strat_creator.account_id@,
            f.reward_token,
            self.admin_fees.strat_creator.current_amount,
        )
        &&& res.quote.pool_id == f.pool_id_token1_reward
        &&& res.quote.token_in@ == f.reward_token
        &&& res.quote.amount_in == f.last_reward_amount / 2
        &&& res.quote.token_out@ == self.token1_address@
    }

    /// A Jumbo strategy with no farm yet.
    pub fn new(
        strategy_fee: u128,
        strat_creator: AccountFee,
        sentry_fee: u128,
        exchange_contract_id: String,
        farm_contract_id: String,
        token1_address: String,
        token2_address: String,
        pool_id: u64,
        seed_id: String,
        seed_min_deposit: u128,
    ) -> (res: Self)
        ensures
            res.wf(),
            res.admin_fees.strategy_fee == strategy_fee,
            res.admin_fees.strat_creator == strat_creator,
            res.admin_fees.sentries_fee == sentry_fee,
            res.admin_fees.sentries@ == Map::<Seq<char>, u128>::empty(),
            res.exchange_contract_id == exchange_contract_id,
            res.farm_contract_id == farm_contract_id,
            res.token1_address == token1_address,
            res.token2_address == token2_address,
            res.pool_id == pool_id,
            res.seed_id == seed_id,
            res.seed_min_deposit == seed_min_deposit,
            res.farms@.len() == 0,
            res.harvest_timestamp == 0,
    {
        JumboAutoCompounder {
            admin_fees: AdminFees::new(strat_creator, sentry_fee, strategy_fee),
            exchange_contract_id,
            farm_contract_id,
            token1_address,
            token2_address,
            pool_id,
            seed_min_deposit,
            seed_id,
            farms: Vec::new(),
            harvest_timestamp: 0,
        }
    }

    /// Position of the first farm with id `farm_id`.
    pub fn farm_index(&self, farm_id: &String) -> (res: Option<usize>)
        ensures
            match res {
                Some(i) => i < self.farms@.len() && self.farms@[i as int].id@ == farm_id@
                    && forall|j: int| 0 <= j < i ==> (#[trigger] self.farms@[j]).id@ != farm_id@,
                None => forall|j: int| 0 <= j < self.farms@.len() ==> (#[trigger] self.farms@[j]).id@
                    != farm_id@,
            },
    {
        let mut i: usize = 0;
        while i < self.farms.len()
            invariant
                i <= self.farms@.len(),
                forall|j: int| 0 <= j < i ==> (#[trigger] self.farms@[j]).id@ != farm_id@,
            decreases self.farms@.len() - i,
        {
            if self.farms[i].id == *farm_id {
                return Some(i);
            }
            i = i + 1;
        }
        None
    }

    /// The farm contract's list of the seed's farms, as `(farm id, status)`:
    /// where it reports the farm `farm_id` as not running, every farm of the
    /// strategy with that id ends.
    pub fn callback_jumbo_list_farms_by_seed(&mut self, farm_id: &String, statuses: &Vec<(String, String)>)
        requires
            old(self).wf(),
        ensures
            final(self).wf(),
            final(self).farms@.len() == old(self).farms@.len(),
            forall|j: int| 0 <= j < old(self).farms@.len() ==> (#[trigger] final(self).farms@[j])@ == (if reported_ended(
                statuses@,
                farm_id@,
            ) && old(self).farms@[j].id@ == farm_id@ {
                (JumboStratFarmView { state: JumboAutoCompounderState::Ended, ..old(self).farms@[j]@ })
            } else {
                old(self).farms@[j]@
            }),
            final(self).admin_fees == old(self).admin_fees,
    {
        let running = String::from_str("Running");
        proof {
            reveal_strlit("Running");
            assert(running@ =~= running_status());
        }
        let mut ended = false;
        let mut k: usize = 0;
        while k < statuses.len()
            invariant
                k <= statuses@.len(),
                running@ == running_status(),
                ended <==> exists|i: int| 0 <= i < k && (#[trigger] statuses@[i]).0@ == farm_id@ && statuses@[i].1@
                    != running_status(),
            decreases statuses@.len() - k,
        {
            if statuses[k].0 == *farm_id && statuses[k].1 != running {
                ended = true;
            }
            k = k + 1;
        }
        if !ended {
            return;
        }
        let ghost old_farms = self.farms@;
        let mut i: usize = 0;
        while i < self.farms.len()
            invariant
                i <= self.farms@.len(),
                self.farms@.len() == old_farms.len(),
                old_farms == old(self).farms@,
                self.admin_fees == old(self).admin_fees,
                forall|j: int| 0 <= j < i ==> (#[trigger] self.farms@[j])@ == (if old_farms[j].id@ == farm_id@ {
                    (JumboStratFarmView { state: JumboAutoCompounderState::Ended, ..old_farms[j]@ })
                } else {
                    old_farms[j]@
                }),
                forall|j: int| i <= j < old_farms.len() ==> #[trigger] self.farms@[j] == old_farms[j],
            decreases old_farms.len() - i,
        {
            if self.farms[i].id == *farm_id {
                self.farms[i].state = JumboAutoCompounderState::Ended;
            }
            i = i + 1;
        }
        proof {
            assert forall|j: int| 0 <= j < self.farms@.len() implies jumbo_farm_wf(#[trigger] self.farms@[j]@) by {
                assert(jumbo_farm_wf(old_farms[j]@));
            }
        }
    }

    /// The farm contract's answer on the farm's unclaimed reward. With none, a
    /// farm that ended is now cleared (`Ok(false)`) and a running one is
    /// refused; otherwise the reward is recorded and claimed (`Ok(true)`).
    pub fn callback_jumbo_post_get_unclaimed_reward(&mut self, idx: usize, reward_amount: u128) -> (res: Result<
        bool,
        SafeError,
    >)
        requires
            old(self).wf(),
            idx < old(self).farms@.len(),
        ensures
            final(self).wf(),
            jumbo_others_unchanged(old(self).farms@, final(self).farms@, idx as int),
            final(self).admin_fees == old(self).admin_fees,
            ({
                let f = old(self).farms@[idx as int]@;
                if reward_amount == 0 {
                    if f.state == JumboAutoCompounderState::Ended {
                        final(self).farms@[idx as int]@ == (JumboStratFarmView {
                            state: JumboAutoCompounderState::Cleared,
                            ..f
                        }) && res == Ok::<bool, SafeError>(false)
                    } else {
                        final(self).farms@[idx as int]@ == f && res == Err::<bool, SafeError>(
                            SafeError::ZeroRewardsEarned,
                        )
                    }
                } else {
                    final(self).farms@[idx as int]@ == (JumboStratFarmView { last_reward_amount: reward_amount, ..f })
                        && res == Ok::<bool, SafeError>(true)
                }
            }),
    {
        assert(jumbo_farm_wf(self.farms@[idx as int]@));
        if reward_amount == 0 {
            if self.farms[idx].state == JumboAutoCompounderState::Ended {
                self.farms[idx].state = JumboAutoCompounderState::Cleared;
                return Ok(false);
            } else {
                return Err(SafeError::ZeroRewardsEarned);
            }
        }
        self.farms[idx].last_reward_amount = reward_amount;
        Ok(true)
    }

    /// After the reward was claimed: the harvest moves on to the withdrawal.
    pub fn callback_jumbo_post_claim_reward(&mut self, idx: usize)
        requires
            old(self).wf(),
            idx < old(self).farms@.len(),
        ensures
            final(self).wf(),
            jumbo_others_unchanged(old(self).farms@, final(self).farms@, idx as int),
            final(self).admin_fees == old(self).admin_fees,
            final(self).farms@[idx as int]@ == (JumboStratFarmView {
                cycle_stage: next_jumbo_stage(old(self).farms@[idx as int].cycle_stage),
                ..old(self).farms@[idx as int]@
            }),
    {
        assert(jumbo_farm_wf(self.farms@[idx as int]@));
        self.farms[idx].next_cycle();
    }

    /// After the reward was sent to the exchange: the harvest moves on to the
    /// swaps if the transfer succeeded.
    pub fn callback_jumbo_post_ft_transfer(&mut self, idx: usize, transfer_ok: bool)
        requires
            old(self).wf(),
            idx < old(self).farms@.len(),
        ensures
            final(self).wf(),
            jumbo_others_unchanged(old(self).farms@, final(self).farms@, idx as int),
            final(self).farms@[idx as int]@ == (if transfer_ok {
                (JumboStratFarmView {
                    cycle_stage: next_jumbo_stage(old(self).farms@[idx as int].cycle_stage),
                    ..old(self).farms@[idx as int]@
                })
            } else {
                old(self).farms@[idx as int]@
            }),
            final(self).admin_fees == old(self).admin_fees,
    {
        assert(jumbo_farm_wf(self.farms@[idx as int]@));
        if transfer_ok {
            self.farms[idx].next_cycle();
        }
    }

    /// The withdrawal step: withdraw the reward from the farm, or, while the
    /// fees of an earlier withdrawal are still held under the contract's
    /// account, send the reward and the treasury's fees to the exchange again.
    pub fn withdraw_of_reward(&self, idx: usize, treasury_current_amount: u128, current_account: &String) -> (res:
        WithdrawPlan)
        requires
            self.wf(),
            idx < self.farms@.len(),
            self.admin_fees.sentries@.dom().contains(current_account@) ==> self.farms@[idx as int].last_reward_amount
                + treasury_current_amount <= u128::MAX,
        ensures
            withdraw_plan_is(
                res,
                self.admin_fees.sentries@.dom().contains(current_account@),
                self.farms@[idx as int].reward_token@,
                self.farms@[idx as int].last_reward_amount,
                treasury_current_amount,
            ),
    {
        let farm = &self.farms[idx];
        if !self.admin_fees.sentries.contains_key(current_account) {
            WithdrawPlan::Withdraw { token: farm.reward_token.clone(), amount: farm.last_reward_amount }
        } else {
            WithdrawPlan::Transfer {
                token: farm.reward_token.clone(),
                amount: farm.last_reward_amount + treasury_current_amount,
            }
        }
    }

    /// Splits the withdrawn reward of the farm at `idx` by the fees, as for a
    /// Ref Finance pool: returns `(treasury fee, amount to send to the exchange)`.
    pub fn callback_jumbo_post_withdraw(&mut self, idx: usize, current_account: &String) -> (res: Result<
        (u128, u128),
        SafeError,
    >)
        requires
            old(self).wf(),
            idx < old(self).farms@.len(),
        ensures
            final(self).wf(),
            ({
                let f = old(self).farms@[idx as int]@;
                let fees = old(self).admin_fees;
                let split = fee_split(
                    fees.strategy_fee as int,
                    fees.sentries_fee as int,
                    fees.strat_creator.fee_percentage as int,
                    f.last_reward_amount as int,
                );
                match split {
                    None => res == Err::<(u128, u128), SafeError>(SafeError::FeeNotValid) && *final(self) == *old(self),
                    Some(t) => if fees.strat_creator.current_amount + t.3 > u128::MAX {
                        res == Err::<(u128, u128), SafeError>(SafeError::ArithmeticOverflow) && *final(self) == *old(self)
                    } else {
                        &&& res == Ok::<(u128, u128), SafeError>((t.1 as u128, (t.0 + t.1) as u128))
                        &&& final(self).admin_fees.strat_creator.current_amount == fees.strat_creator.current_amount + t.3
                        &&& final(self).admin_fees.strat_creator.account_id == fees.strat_creator.account_id
                        &&& final(self).admin_fees.strat_creator.fee_percentage == fees.strat_creator.fee_percentage
                        &&& final(self).admin_fees.strategy_fee == fees.strategy_fee
                        &&& final(self).admin_fees.sentries_fee == fees.sentries_fee
                        &&& final(self).admin_fees.sentries@ == fees.sentries@.insert(current_account@, t.2 as u128)
                        &&& jumbo_others_unchanged(old(self).farms@, final(self).farms@, idx as int)
                        &&& final(self).farms@[idx as int]@ == (JumboStratFarmView { last_reward_amount: t.0 as u128, ..f })
                        &&& *final(self) == (JumboAutoCompounder {
                            admin_fees: final(self).admin_fees,
                            farms: final(self).farms,
                            ..*old(self)
                        })
                    },
                }
            }),
    {
        let last_reward_amount = self.farms[idx].last_reward_amount;
        let (remaining_amount, protocol_amount, _, _) = match self.admin_fees.take_fees(
            last_reward_amount,
            current_account,
        ) {
            Ok(t) => t,
            Err(e) => return Err(e),
        };
        self.farms[idx].last_reward_amount = remaining_amount;
        proof {
            crate::fees::lemma_fee_split_conserves(
                old(self).admin_fees.strategy_fee as int,
                old(self).admin_fees.sentries_fee as int,
                old(self).admin_fees.strat_creator.fee_percentage as int,
                last_reward_amount as int,
            );
            assert(jumbo_farm_wf(self.farms@[idx as int]@)) by {
                assert(jumbo_farm_wf(old(self).farms@[idx as int]@));
            }
        }
        Ok((protocol_amount, remaining_amount + protocol_amount))
    }
}


impl JumboAutoCompounder {
    /// The first swap step of the harvest of the farm at `idx`: the fees owed
    /// to the treasury and to the creator are paid, and the exchange is asked
    /// how much of the first token half of the reward buys.
    pub fn autocompounds_swap(&self, idx: usize, treasure: &AccountFee) -> (res: JumboSwapPlan)
        requires
            self.wf(),
            idx < self.farms@.len(),
        ensures
            self.swap_plan_is(idx as int, *treasure, res),
            res.quote.amount_in * 2 <= self.farms@[idx as int].last_reward_amount,
            self.farms@[idx as int].last_reward_amount - res.quote.amount_in <= res.quote.amount_in + 1,
    {
        let farm = &self.farms[idx];
        let treasury_payout = if treasure.current_amount > 0 {
            Some(
                Payout {
                    receiver: treasure.account_id.clone(),
                    token: farm.reward_token.clone(),
                    amount: treasure.current_amount,
                },
            )
        } else {
            None
        };
        let creator_payout = if self.admin_fees.strat_creator.current_amount > 0 {
            Some(
                Payout {
                    receiver: self.admin_fees.strat_creator.account_id.clone(),
                    token: farm.reward_token.clone(),
                    amount: self.admin_fees.strat_creator.current_amount,
                },
            )
        } else {
            None
        };
        let quote = ReturnQuery {
            pool_id: farm.pool_id_token1_reward,
            token_in: farm.reward_token.clone(),
            amount_in: farm.last_reward_amount / 2,
            token_out: self.token1_address.clone(),
        };
        JumboSwapPlan { treasury_payout, creator_payout, quote }
    }

    /// The second swap step: the exchange is asked how much of the second
    /// token the rest of the reward buys.
    pub fn autocompounds_swap_second_token(&self, idx: usize) -> (res: ReturnQuery)
        requires
            idx < self.farms@.len(),
        ensures
            res.pool_id == self.farms@[idx as int].pool_id_token2_reward,
            res.token_in@ == self.farms@[idx as int].reward_token@,
            res.amount_in == self.farms@[idx as int].last_reward_amount,
            res.token_out@ == self.token2_address@,
    {
        let farm = &self.farms[idx];
        ReturnQuery {
            pool_id: farm.pool_id_token2_reward,
            token_in: farm.reward_token.clone(),
            amount_in: farm.last_reward_amount,
            token_out: self.token2_address.clone(),
        }
    }

    /// The exchange's quote for swapping `amount_in` of the reward for the
    /// first token (`first`) or the second. A failed quote raises the slippage
    /// tolerance (or ends the farm): `Ok(None)`. A zero quote is refused.
    /// Otherwise the swap asks for at least the quoted amount.
    pub fn callback_jumbo_get_token_return(&mut self, idx: usize, first: bool, min_amount_out: Option<u128>, amount_in: u128) -> (res:
        Result<Option<SwapOrder>, SafeError>)
        requires
            old(self).wf(),
            idx < old(self).farms@.len(),
        ensures
            final(self).wf(),
            jumbo_others_unchanged(old(self).farms@, final(self).farms@, idx as int),
            final(self).admin_fees == old(self).admin_fees,
            ({
                let f = old(self).farms@[idx as int]@;
                match min_amount_out {
                    None => final(self).farms@[idx as int]@ == jumbo_after_failed_swap(f) && res matches Ok(None),
                    Some(m) => {
                        &&& final(self).farms@[idx as int]@ == f
                        &&& if m == 0 {
                            res == Err::<Option<SwapOrder>, SafeError>(SafeError::CouldNotGetReturn)
                        } else if first {
                            res matches Ok(Some(o)) && order_is(
                                o,
                                f.pool_id_token1_reward,
                                f.reward_token,
                                old(self).token1_address@,
                                amount_in,
                                m as int,
                            )
                        } else {
                            res matches Ok(Some(o)) && order_is(
                                o,
                                f.pool_id_token2_reward,
                                f.reward_token,
                                old(self).token2_address@,
                                amount_in,
                                m as int,
                            )
                        }
                    },
                }
            }),
    {
        assert(jumbo_farm_wf(self.farms@[idx as int]@));
        let m = match min_amount_out {
            None => {
                self.farms[idx].increase_slippage();
                return Ok(None);
            },
            Some(m) => m,
        };
        if m == 0 {
            return Err(SafeError::CouldNotGetReturn);
        }
        let farm = &self.farms[idx];
        if first {
            Ok(
                Some(
                    SwapOrder {
                        pool_id: farm.pool_id_token1_reward,
                        token_in: farm.reward_token.clone(),
                        token_out: self.token1_address.clone(),
                        amount_in,
                        min_amount_out: m,
                    },
                ),
            )
        } else {
            Ok(
                Some(
                    SwapOrder {
                        pool_id: farm.pool_id_token2_reward,
                        token_in: farm.reward_token.clone(),
                        token_out: self.token2_address.clone(),
                        amount_in,
                        min_amount_out: m,
                    },
                ),
            )
        }
    }

    /// After a swap of `amount_in` of the reward for the first token (`first`)
    /// or the second. A failed swap raises the slippage tolerance (or ends the
    /// farm) and gives 0. A successful one records `min_amount_out` as that
    /// token's balance, takes `amount_in` off the reward, moves the harvest on
    /// and gives `min_amount_out`.
    pub fn callback_jumbo_post_swap(
        &mut self,
        idx: usize,
        first: bool,
        swap_ok: bool,
        amount_in: u128,
        min_amount_out: u128,
    ) -> (res: u128)
        requires
            old(self).wf(),
            idx < old(self).farms@.len(),
            swap_ok ==> amount_in <= old(self).farms@[idx as int].last_reward_amount,
        ensures
            final(self).wf(),
            jumbo_others_unchanged(old(self).farms@, final(self).farms@, idx as int),
            final(self).admin_fees == old(self).admin_fees,
            ({
                let f = old(self).farms@[idx as int]@;
                if !swap_ok {
                    final(self).farms@[idx as int]@ == jumbo_after_failed_swap(f) && res == 0
                } else {
                    &&& final(self).farms@[idx as int]@ == (JumboStratFarmView {
                        available_balance: f.available_balance.update(if first { 0 } else { 1 }, min_amount_out),
                        last_reward_amount: (f.last_reward_amount - amount_in) as u128,
                        cycle_stage: next_jumbo_stage(f.cycle_stage),
                        ..f
                    })
                    &&& res == min_amount_out
                }
            }),
    {
        assert(jumbo_farm_wf(self.farms@[idx as int]@));
        if !swap_ok {
            self.farms[idx].increase_slippage();
            return 0;
        }
        if first {
            self.farms[idx].available_balance.set(0, min_amount_out);
        } else {
            self.farms[idx].available_balance.set(1, min_amount_out);
        }
        self.farms[idx].last_reward_amount = self.farms[idx].last_reward_amount - amount_in;
        self.farms[idx].next_cycle();
        min_amount_out
    }

    /// The reward token's answer on the sentry's storage: as for a Ref Finance
    /// strategy, the sentry's fee held under `current_account` is taken out,
    /// and a farm that ended is now cleared. Nothing changes on an error.
    pub fn callback_jumbo_post_sentry(&mut self, idx: usize, storage_total: Option<Option<u128>>, current_account: &String) -> (res:
        Result<u128, SafeError>)
        requires
            old(self).wf(),
            idx < old(self).farms@.len(),
        ensures
            final(self).wf(),
            jumbo_others_unchanged(old(self).farms@, final(self).farms@, idx as int),
            ({
                let f = old(self).farms@[idx as int]@;
                let ok = storage_total matches Some(Some(t)) && t > 1
                    && old(self).admin_fees.sentries@.dom().contains(current_account@);
                if ok {
                    &&& res == Ok::<u128, SafeError>(old(self).admin_fees.sentries@[current_account@])
                    &&& final(self).admin_fees.sentries@ == old(self).admin_fees.sentries@.remove(current_account@)
                    &&& final(self).admin_fees.strat_creator == old(self).admin_fees.strat_creator
                    &&& final(self).farms@[idx as int]@ == (if f.state == JumboAutoCompounderState::Ended {
                        (JumboStratFarmView { state: JumboAutoCompounderState::Cleared, ..f })
                    } else {
                        f
                    })
                } else {
                    &&& res == Err::<u128, SafeError>(
                        sentry_fee_refusal(storage_total, old(self).admin_fees.sentries@.dom().contains(current_account@))->0,
                    )
                    &&& *final(self) == *old(self)
                }
            }),
    {
        let amount = match self.admin_fees.take_sentry_fee(storage_total, current_account) {
            Ok(a) => a,
            Err(e) => return Err(e),
        };
        assert(jumbo_farm_wf(self.farms@[idx as int]@));
        if self.farms[idx].state == JumboAutoCompounderState::Ended {
            self.farms[idx].state = JumboAutoCompounderState::Cleared;
        }
        Ok(amount)
    }

    /// The liquidity the harvest adds: `(pool_id, amount of token1, amount of
    /// token2)`.
    pub fn jumbo_harvest_add_liquidity(&self, idx: usize) -> (res: (u64, u128, u128))
        requires
            self.wf(),
            idx < self.farms@.len(),
        ensures
            res == (self.pool_id, self.farms@[idx as int].available_balance@[0], self.farms@[idx as int].available_balance@[1]),
    {
        assert(jumbo_farm_wf(self.farms@[idx as int]@));
        (self.pool_id, self.farms[idx].available_balance[0], self.farms[idx].available_balance[1])
    }

    /// After liquidity was added: the balances were used up.
    pub fn callback_jumbo_post_add_liquidity(&mut self, idx: usize)
        requires
            old(self).wf(),
            idx < old(self).farms@.len(),
        ensures
            final(self).wf(),
            jumbo_others_unchanged(old(self).farms@, final(self).farms@, idx as int),
            final(self).admin_fees == old(self).admin_fees,
            final(self).farms@[idx as int]@ == (JumboStratFarmView {
                available_balance: seq![0u128, 0u128],
                ..old(self).farms@[idx as int]@
            }),
    {
        assert(jumbo_farm_wf(self.farms@[idx as int]@));
        self.farms[idx].available_balance.set(0, 0);
        self.farms[idx].available_balance.set(1, 0);
        assert(self.farms@[idx as int].available_balance@ =~= seq![0u128, 0u128]);
    }

    /// With the contract's shares on the exchange known after adding
    /// liquidity: the seed's total grows by the shares the harvest added (all
    /// of them where the farm held more shares to stake than there are), the
    /// farm records them as its shares to stake, and the harvest moves on.
    /// Returns the seed's new total.
    pub fn update_shares_and_forward_cycle(&mut self, idx: usize, shares_on_exchange: u128, total_seed: u128) -> (res:
        u128)
        requires
            old(self).wf(),
            idx < old(self).farms@.len(),
            shares_on_exchange + total_seed <= u128::MAX,
        ensures
            final(self).wf(),
            *final(self) == (JumboAutoCompounder { farms: final(self).farms, ..*old(self) }),
            jumbo_others_unchanged(old(self).farms@, final(self).farms@, idx as int),
            final(self).admin_fees == old(self).admin_fees,
            ({
                let f = old(self).farms@[idx as int]@;
                &&& res == (if f.current_shares_to_stake > shares_on_exchange {
                    shares_on_exchange + total_seed
                } else {
                    shares_on_exchange - f.current_shares_to_stake + total_seed
                })
                &&& final(self).farms@[idx as int]@ == (JumboStratFarmView {
                    current_shares_to_stake: shares_on_exchange,
                    cycle_stage: next_jumbo_stage(f.cycle_stage),
                    ..f
                })
            }),
    {
        assert(jumbo_farm_wf(self.farms@[idx as int]@));
        let current = self.farms[idx].current_shares_to_stake;
        let new_seed_amount = if current > shares_on_exchange {
            shares_on_exchange + total_seed
        } else {
            shares_on_exchange - current + total_seed
        };
        self.farms[idx].current_shares_to_stake = shares_on_exchange;
        self.farms[idx].next_cycle();
        new_seed_amount
    }

    /// After the harvest's shares were staked: the farm has no shares left to
    /// stake.
    pub fn callback_jumbo_post_stake_from_harvest(&mut self, idx: usize)
        requires
            old(self).wf(),
            idx < old(self).farms@.len(),
        ensures
            final(self).wf(),
            jumbo_others_unchanged(old(self).farms@, final(self).farms@, idx as int),
            final(self).admin_fees == old(self).admin_fees,
            final(self).farms@[idx as int]@ == (JumboStratFarmView {
                current_shares_to_stake: 0,
                ..old(self).farms@[idx as int]@
            }),
    {
        assert(jumbo_farm_wf(self.farms@[idx as int]@));
        self.farms[idx].current_shares_to_stake = 0;
    }
}


impl JumboAutoCompounder {
    /// The ids of the farms, in order.
    pub open spec fn farm_ids(self) -> Seq<Seq<char>> {
        self.farms@.map_values(|f: JumboStratFarmInfo| f.id@)
    }

    /// What a call of the harvest for the farm `farm_id` does, by the farm's
    /// stage: claim, withdraw, the swap for the first token, the quote for the
    /// second, or pay the sentry `predecessor` before staking. A farm that does
    /// not exist is refused.
    pub open spec fn harvest_step(
        self,
        farm_id: Seq<char>,
        seed_id: Seq<char>,
        treasure: AccountFee,
        current_account: Seq<char>,
        predecessor: Seq<char>,
        res: Result<HarvestAction, SafeError>,
    ) -> bool {
        if !has_farm(self.farm_ids(), farm_id) {
            res == Err::<HarvestAction, SafeError>(SafeError::FarmDoesNotExist)
        } else {
            let i = first_farm(self.farm_ids(), farm_id);
            let f = self.farms@[i]@;
            match f.cycle_stage {
                JumboAutoCompounderCycle::ClaimReward => res matches Ok(HarvestAction::ClaimReward { seed_id: s })
                    && s@ == seed_id,
                JumboAutoCompounderCycle::Withdrawal => {
                    let pending = self.admin_fees.sentries@.dom().contains(current_account);
                    if pending && f.last_reward_amount + treasure.current_amount > u128::MAX {
                        res == Err::<HarvestAction, SafeError>(SafeError::ArithmeticOverflow)
                    } else {
                        res matches Ok(HarvestAction::Withdraw(p)) && withdraw_plan_is(
                            p,
                            pending,
                            f.reward_token,
                            f.last_reward_amount,
                            treasure.current_amount,
                        )
                    }
                },
                JumboAutoCompounderCycle::SwapToken1 => res matches Ok(HarvestAction::JumboSwap(p))
                    && self.swap_plan_is(i, treasure, p),
                JumboAutoCompounderCycle::SwapToken2 => res matches Ok(HarvestAction::JumboSwapSecond(q))
                    && q.pool_id == f.pool_id_token2_reward && q.token_in@ == f.reward_token && q.amount_in
                    == f.last_reward_amount && q.token_out@ == self.token2_address@,
                JumboAutoCompounderCycle::Stake => res matches Ok(HarvestAction::SentryStorage { sentry, reward_token })
                    && sentry@ == predecessor && reward_token@ == f.reward_token,
            }
        }
    }

    /// The harvest for the farm `farm_id`, as
    /// [`JumboAutoCompounder::harvest_step`] describes it.
    pub fn harvest(
        &self,
        farm_id: &String,
        seed_id: &String,
        treasure: &AccountFee,
        current_account: &String,
        predecessor: &String,
    ) -> (res: Result<HarvestAction, SafeError>)
        requires
            self.wf(),
        ensures
            self.harvest_step(farm_id@, seed_id@, *treasure, current_account@, predecessor@, res),
    {
        let idx = match self.farm_index(farm_id) {
            Some(i) => i,
            None => {
                proof {
                    lemma_no_farm(self.farm_ids(), farm_id@);
                }
                return Err(SafeError::FarmDoesNotExist);
            },
        };
        proof {
            lemma_first_farm(self.farm_ids(), farm_id@, idx as int);
        }
        let farm = &self.farms[idx];
        match farm.cycle_stage {
            JumboAutoCompounderCycle::ClaimReward => Ok(HarvestAction::ClaimReward { seed_id: seed_id.clone() }),
            JumboAutoCompounderCycle::Withdrawal => {
                let pending = self.admin_fees.sentries.contains_key(current_account);
                if pending && farm.last_reward_amount > u128::MAX - treasure.current_amount {
                    return Err(SafeError::ArithmeticOverflow);
                }
                Ok(HarvestAction::Withdraw(self.withdraw_of_reward(idx, treasure.current_amount, current_account)))
            },
            JumboAutoCompounderCycle::SwapToken1 => Ok(HarvestAction::JumboSwap(self.autocompounds_swap(idx, treasure))),
            JumboAutoCompounderCycle::SwapToken2 => Ok(
                HarvestAction::JumboSwapSecond(self.autocompounds_swap_second_token(idx)),
            ),
            JumboAutoCompounderCycle::Stake => Ok(
                HarvestAction::SentryStorage { sentry: predecessor.clone(), reward_token: farm.reward_token.clone() },
            ),
        }
    }
}

} // verus!
