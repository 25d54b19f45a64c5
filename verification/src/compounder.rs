//! The harvest of a Ref Finance strategy over a two-token pool.
//!
//! Each step of the harvest is a decision: from the strategy's state and what
//! the last call to another contract answered, the functions here compute the
//! next state and the call to make next, as plain values.
use vstd::prelude::*;
use crate::arith::{percent_of_spec, percentage_apply_to};
use crate::errors::SafeError;
use crate::farm::{
    assert_strategy_not_cleared,
    next_stage, slippage_after_failure, failure_ends_farm, AutoCompounderCycle,
    AutoCompounderState, StratFarmInfo, StratFarmView, DEFAULT_SLIPPAGE,
};
use crate::fees::{fee_split, AccountFee, AdminFees};
use crate::strmap::StrMap;

verus! {

/// A Ref Finance strategy: one pool of two tokens, staked in a farm, with any
/// number of farms (reward programs) on its seed.
pub struct AutoCompounder {
    /// Fees struct to be distribute at each round of compound
    pub admin_fees: AdminFees,
    /// Contract address of the exchange used
    pub exchange_contract_id: String,
    /// Contract address of the farm used
    pub farm_contract_id: String,
    /// Address of the first token used by pool
    pub token1_address: String,
    /// Address of the token used by the pool
    pub token2_address: String,
    /// Pool used to add liquidity and farming
    pub pool_id: u64,
    /// Min LP amount accepted by the farm for stake
    pub seed_min_deposit: u128,
    /// Format expected by the farm to claim and withdraw rewards
    pub seed_id: String,
    /// Store all farms that were used to compound by some token_id
    pub farms: Vec<StratFarmInfo>,
    /// Latest harvest timestamp
    pub harvest_timestamp: u64,
}

/// A farm as the harvest needs it: a balance for each of the two tokens and a
/// slippage that is a percentage.
pub open spec fn farm_wf(f: StratFarmView) -> bool {
    f.available_balance.len() == 2 && f.slippage <= 100
}

/// The farms keep their number and all but the one at `idx` are unchanged.
pub open spec fn others_unchanged(a: Seq<StratFarmInfo>, b: Seq<StratFarmInfo>, idx: int) -> bool {
    &&& a.len() == b.len()
    &&& forall|j: int| 0 <= j < a.len() && j != idx ==> #[trigger] b[j] == a[j]
}

/// Which of the pool's tokens the reward is: 1, 2, or 0 for neither.
pub open spec fn common_token_of(token1: Seq<char>, token2: Seq<char>, reward: Seq<char>) -> u64 {
    if token1 == reward {
        1
    } else if token2 == reward {
        2
    } else {
        0
    }
}

/// What a call of the harvest does next, by the stage the farm is at.
pub enum HarvestAction {
    /// Ask the farm contract for the farms of the seed, then claim.
    ClaimReward { seed_id: String },
    /// Withdraw the reward, or send it to the exchange again.
    Withdraw(WithdrawPlan),
    /// The swap step of a two-token Ref Finance pool.
    Swap(SwapPlan),
    /// The swap step of a stable pool.
    StableSwap(crate::stable::StableSwapPlan),
    /// The first swap step of a Jumbo pool.
    JumboSwap(crate::jumbo::JumboSwapPlan),
    /// The second swap step of a Jumbo pool: the quote to ask for.
    JumboSwapSecond(ReturnQuery),
    /// Ask the reward token for the storage of the sentry that called, to pay
    /// it its fee before staking.
    SentryStorage { sentry: String, reward_token: String },
    /// Claim the rewards of a Pembrock strategy.
    PembrockClaim,
}

/// The first farm whose id is `id` is at `i`.
pub open spec fn is_first_farm(ids: Seq<Seq<char>>, id: Seq<char>, i: int) -> bool {
    &&& 0 <= i < ids.len()
    &&& ids[i] == id
    &&& forall|j: int| 0 <= j < i ==> ids[j] != id
}

/// Some farm has id `id`.
pub open spec fn has_farm(ids: Seq<Seq<char>>, id: Seq<char>) -> bool {
    exists|i: int| 0 <= i < ids.len() && ids[i] == id
}

/// The position of the first farm with id `id`.
pub open spec fn first_farm(ids: Seq<Seq<char>>, id: Seq<char>) -> int {
    choose|i: int| is_first_farm(ids, id, i)
}

/// The first farm with an id is at one position only.
pub proof fn lemma_first_farm(ids: Seq<Seq<char>>, id: Seq<char>, i: int)
    requires
        is_first_farm(ids, id, i),
    ensures
        first_farm(ids, id) == i,
        has_farm(ids, id),
{
    let k = first_farm(ids, id);
    assert(is_first_farm(ids, id, k));
    if k < i {
        assert(ids[k] == id);
    } else if i < k {
        assert(ids[i] == id);
    }
}

/// No farm has id `id` where none matches.
pub proof fn lemma_no_farm(ids: Seq<Seq<char>>, id: Seq<char>)
    requires
        forall|j: int| 0 <= j < ids.len() ==> ids[j] != id,
    ensures
        !has_farm(ids, id),
{
}

/// A request to the exchange for the amount of `token_out` that `amount_in`
/// of `token_in` buys in pool `pool_id`.
pub struct ReturnQuery {
    pub pool_id: u64,
    pub token_in: String,
    pub amount_in: u128,
    pub token_out: String,
}

/// The quotes a swap step asks for.
pub enum QuotePlan {
    /// The reward is one of the pool's tokens: one quote, for the other token;
    /// `amount_kept` of the reward is used as it is.
    One { query: ReturnQuery, common_token: u64, amount_kept: u128 },
    /// The reward is neither token: a quote for each.
    Both { first: ReturnQuery, second: ReturnQuery },
}

/// A transfer of `amount` of `token` to `receiver`.
pub struct Payout {
    pub receiver: String,
    pub token: String,
    pub amount: u128,
}

/// What the swap step of a harvest does: pay the fees owed, if any, then ask
/// the exchange for the quotes of the swaps.
pub struct SwapPlan {
    /// Fees owed to the treasury, moved inside the exchange.
    pub treasury_payout: Option<Payout>,
    /// Fees owed to the creator of the strategy.
    pub creator_payout: Option<Payout>,
    /// The quotes to ask for.
    pub quote: QuotePlan,
    /// Amount of the reward to swap for the first token.
    pub amount_in_1: u128,
    /// Amount of the reward to swap for the second token.
    pub amount_in_2: u128,
    /// Which token the reward is, as in [`common_token_of`].
    pub common_token: u64,
}

/// A swap on the exchange with a minimum amount out.
pub struct SwapOrder {
    pub pool_id: u64,
    pub token_in: String,
    pub token_out: String,
    pub amount_in: u128,
    pub min_amount_out: u128,
}

/// The swaps that follow the quotes.
pub enum SwapStep {
    /// A single swap, after which the harvest checks the result.
    Last(SwapOrder),
    /// A first swap; if it succeeds, the second one follows with these amounts.
    First { order: SwapOrder, next_amount_in: u128, next_min_out: u128 },
}

/// How the withdrawal step moves the reward.
pub enum WithdrawPlan {
    /// Withdraw `amount` of `token` from the farm.
    Withdraw { token: String, amount: u128 },
    /// The reward was withdrawn and its fees computed before, but sending it
    /// to the exchange failed: send `amount` of `token` again.
    Transfer { token: String, amount: u128 },
}


/// The farm after a failed swap: the slippage tolerance grows by 4 points, or
/// the farm ends when it cannot grow any more.
pub open spec fn after_failed_swap(f: StratFarmView) -> StratFarmView {
    StratFarmView {
        slippage: slippage_after_failure(f.slippage as int) as u128,
        state: if failure_ends_farm(f.slippage as int) {
            AutoCompounderState::Ended
        } else {
            f.state
        },
        ..f
    }
}

/// `p` is the transfer of `amount` of `token` to `receiver` when `amount` is
/// positive, and no transfer otherwise.
pub open spec fn payout_is(p: Option<Payout>, receiver: Seq<char>, token: Seq<char>, amount: u128) -> bool {
    if amount > 0 {
        p matches Some(x) && x.receiver@ == receiver && x.token@ == token && x.amount == amount
    } else {
        p is None
    }
}

/// `o` is a swap of `amount_in` of `token_in` for `token_out` in pool
/// `pool_id`, asking for at least `min_out`.
pub open spec fn order_is(
    o: SwapOrder,
    pool_id: u64,
    token_in: Seq<char>,
    token_out: Seq<char>,
    amount_in: u128,
    min_out: int,
) -> bool {
    &&& o.pool_id == pool_id
    &&& o.token_in@ == token_in
    &&& o.token_out@ == token_out
    &&& o.amount_in == amount_in
    &&& o.min_amount_out == min_out
}

/// The amount of `token` in a map of rewards, zero where it is absent.
pub open spec fn reward_for(m: Map<Seq<char>, u128>, token: Seq<char>) -> int {
    if m.dom().contains(token) {
        m[token] as int
    } else {
        0
    }
}

/// The farm's answer on the vault's unclaimed rewards (`None` where the call
/// failed): the amount of `reward_token` in it, zero where there is none.
pub fn callback_post_unclaimed_rewards(rewards: Option<&StrMap<u128>>, reward_token: &String) -> (res: u128)
    requires
        rewards matches Some(m) ==> m.wf(),
    ensures
        res == match rewards {
            Some(m) => reward_for(m@, reward_token@),
            None => 0,
        },
{
    match rewards {
        Some(m) => match m.get(reward_token) {
            Some(v) => *v,
            None => 0,
        },
        None => 0,
    }
}

/// The two amounts that the quotes give: the reward amount kept for the token
/// that the reward is, and the quoted amount for the other.
/// `Err(CouldNotGetReturn)` where the quote failed or is zero.
pub fn callback_get_token_return(token_out: Option<u128>, common_token: u64, amount_token: u128) -> (res:
    Result<(u128, u128), SafeError>)
    ensures
        match token_out {
            Some(amount) if amount > 0 => res == Ok::<(u128, u128), SafeError>(
                if common_token == 1 {
                    (amount_token, amount)
                } else {
                    (amount, amount_token)
                },
            ),
            _ => res == Err::<(u128, u128), SafeError>(SafeError::CouldNotGetReturn),
        },
{
    match token_out {
        Some(amount) => {
            if amount == 0 {
                return Err(SafeError::CouldNotGetReturn);
            }
            if common_token == 1 {
                Ok((amount_token, amount))
            } else {
                Ok((amount, amount_token))
            }
        },
        None => Err(SafeError::CouldNotGetReturn),
    }
}

/// The quoted amounts of both tokens; `Err(CouldNotGetReturn)` where a quote
/// failed or is zero.
pub fn callback_get_tokens_return(token1_out: Option<u128>, token2_out: Option<u128>) -> (res: Result<
    (u128, u128),
    SafeError,
>)
    ensures
        match (token1_out, token2_out) {
            (Some(a), Some(b)) if a > 0 && b > 0 => res == Ok::<(u128, u128), SafeError>((a, b)),
            _ => res == Err::<(u128, u128), SafeError>(SafeError::CouldNotGetReturn),
        },
{
    match (token1_out, token2_out) {
        (Some(a), Some(b)) => {
            if a == 0 || b == 0 {
                Err(SafeError::CouldNotGetReturn)
            } else {
                Ok((a, b))
            }
        },
        _ => Err(SafeError::CouldNotGetReturn),
    }
}

impl QuotePlan {
    /// The quote plan for amounts `a1` and `a2` of the reward.
    pub open spec fn describes(
        self,
        c: AutoCompounder,
        f: StratFarmView,
        a1: u128,
        a2: u128,
        common_token: u64,
    ) -> bool {
        if common_token == 1 {
            self matches QuotePlan::One { query, common_token: ct, amount_kept } && ct == 1
                && amount_kept == a1 && query.pool_id == f.pool_id_token2_reward
                && query.token_in@ == f.reward_token && query.amount_in == a2
                && query.token_out@ == c.token2_address@
        } else if common_token == 2 {
            self matches QuotePlan::One { query, common_token: ct, amount_kept } && ct == 2
                && amount_kept == a2 && query.pool_id == f.pool_id_token1_reward
                && query.token_in@ == f.reward_token && query.amount_in == a1
                && query.token_out@ == c.token1_address@
        } else {
            self matches QuotePlan::Both { first, second } && first.pool_id
                == f.pool_id_token1_reward && first.token_in@ == f.reward_token && first.amount_in
                == a1 && first.token_out@ == c.token1_address@ && second.pool_id
                == f.pool_id_token2_reward && second.token_in@ == f.reward_token
                && second.amount_in == a2 && second.token_out@ == c.token2_address@
        }
    }
}

/// The swap step of a Ref Finance harvest splits the reward between the two
/// tokens: with no first token's balance kept from an earlier swap, each token
/// gets half of the reward (rounded down), so that the two amounts together
/// are the reward, or one less where it is odd; the quotes ask for exactly
/// those amounts. With a balance kept, that balance and the whole reward are
/// what is swapped.
pub proof fn lemma_swap_plan_halves(c: AutoCompounder, idx: int, treasure: AccountFee, res: SwapPlan)
    requires
        c.wf(),
        0 <= idx < c.farms@.len(),
        c.swap_plan_is(idx, treasure, res),
    ensures
        ({
            let f = c.farms@[idx];
            f.available_balance@[0] == 0 ==> {
                &&& res.amount_in_1 == res.amount_in_2
                &&& 2 * res.amount_in_1 <= f.last_reward_amount <= 2 * res.amount_in_1 + 1
                &&& match res.quote {
                    QuotePlan::One { query, amount_kept, .. } => query.amount_in == res.amount_in_1 && amount_kept
                        == res.amount_in_1,
                    QuotePlan::Both { first, second } => first.amount_in == res.amount_in_1 && second.amount_in
                        == res.amount_in_1,
                }
            }
        }),
        ({
            let f = c.farms@[idx];
            f.available_balance@[0] > 0 ==> res.amount_in_1 == f.available_balance@[0] && res.amount_in_2
                == f.last_reward_amount
        }),
{
    assert(farm_wf(c.farms@[idx]@));
}

impl AutoCompounder {
    /// Well-formedness: the sentries map is well formed and every farm is.
    pub open spec fn wf(&self) -> bool {
        &&& self.admin_fees.wf()
        &&& forall|i: int| 0 <= i < self.farms@.len() ==> farm_wf(#[trigger] self.farms@[i]@)
    }

    /// `res` is the swap step of the harvest of the farm at `idx`, as
    /// [`AutoCompounder::autocompounds_swap`] describes it.
    pub open spec fn swap_plan_is(self, idx: int, treasure: AccountFee, res: SwapPlan) -> bool {
        let f = self.farms@[idx]@;
        if f.available_balance[0] > 0 {
            &&& res.treasury_payout is None
            &&& res.creator_payout is None
            &&& res.common_token == 1
            &&& res.amount_in_1 == f.available_balance[0]
            &&& res.amount_in_2 == f.last_reward_amount
            &&& res.quote.describes(self, f, f.available_balance[0], f.last_reward_amount, 1)
        } else {
            let half = (f.last_reward_amount / 2) as u128;
            let ct = common_token_of(self.token1_address@, self.token2_address@, f.reward_token);
            &&& payout_is(res.treasury_payout, treasure.account_id@, f.reward_token, treasure.current_amount)
            &&& payout_is(
                res.creator_payout,
                self.admin_fees.strat_creator.account_id@,
                f.reward_token,
                self.admin_fees.strat_creator.current_amount,
            )
            &&& res.common_token == ct
            &&& res.amount_in_1 == half
            &&& res.amount_in_2 == half
            &&& res.quote.describes(self, f, half, half, ct)
        }
    }

    /// A strategy with no farm yet.
    pub fn new(
        strategy_fee: u128,
        strat_creator: AccountFee,
        sentry_fee: u128,
        exchange_contract_id: String,
        farm_contract_id: String,
        token1_address: String,
        token2_address: String,
        pool_id: u64,
        seed_id: String,
        seed_min_deposit: u128,
    ) -> (res: Self)
        ensures
            res.wf(),
            res.admin_fees.strategy_fee == strategy_fee,
            res.admin_fees.strat_creator == strat_creator,
            res.admin_fees.sentries_fee == sentry_fee,
            res.admin_fees.sentries@ == Map::<Seq<char>, u128>::empty(),
            res.exchange_contract_id == exchange_contract_id,
            res.farm_contract_id == farm_contract_id,
            res.token1_address == token1_address,
            res.token2_address == token2_address,
            res.pool_id == pool_id,
            res.seed_id == seed_id,
            res.seed_min_deposit == seed_min_deposit,
            res.farms@.len() == 0,
            res.harvest_timestamp == 0,
    {
        AutoCompounder {
            admin_fees: AdminFees::new(strat_creator, sentry_fee, strategy_fee),
            exchange_contract_id,
            farm_contract_id,
            token1_address,
            token2_address,
            pool_id,
            seed_min_deposit,
            seed_id,
            farms: Vec::new(),
            harvest_timestamp: 0,
        }
    }

    /// Position of the first farm with id `farm_id`.
    pub fn farm_index(&self, farm_id: &String) -> (res: Option<usize>)
        ensures
            match res {
                Some(i) => i < self.farms@.len() && self.farms@[i as int].id@ == farm_id@
                    && forall|j: int| 0 <= j < i ==> (#[trigger] self.farms@[j]).id@ != farm_id@,
                None => forall|j: int| 0 <= j < self.farms@.len() ==> (#[trigger] self.farms@[j]).id@
                    != farm_id@,
            },
    {
        let mut i: usize = 0;
        while i < self.farms.len()
            invariant
                i <= self.farms@.len(),
                forall|j: int| 0 <= j < i ==> (#[trigger] self.farms@[j]).id@ != farm_id@,
            decreases self.farms@.len() - i,
        {
            if self.farms[i].id == *farm_id {
                return Some(i);
            }
            i = i + 1;
        }
        None
    }

    /// After the reward was sent to the exchange: the harvest moves on to the
    /// swaps if the transfer succeeded, and stays to retry it otherwise.
    pub fn callback_post_ft_transfer(&mut self, idx: usize, transfer_ok: bool)
        requires
            old(self).wf(),
            idx < old(self).farms@.len(),
        ensures
            final(self).wf(),
            others_unchanged(old(self).farms@, final(self).farms@, idx as int),
            final(self).farms@[idx as int]@ == (if transfer_ok {
                (StratFarmView {
                    cycle_stage: next_stage(old(self).farms@[idx as int].cycle_stage),
                    ..old(self).farms@[idx as int]@
                })
            } else {
                old(self).farms@[idx as int]@
            }),
            final(self).admin_fees == old(self).admin_fees,
    {
        if transfer_ok {
            self.farms[idx].next_cycle();
        }
    }
}


impl AutoCompounder {
    /// The quotes to ask for before swapping `amount_token_1` of the reward for
    /// the first token and `amount_token_2` for the second.
    pub fn get_tokens_return(&self, idx: usize, amount_token_1: u128, amount_token_2: u128, common_token: u64) -> (res:
        QuotePlan)
        requires
            idx < self.farms@.len(),
        ensures
            res.describes(*self, self.farms@[idx as int]@, amount_token_1, amount_token_2, common_token),
    {
        let farm = &self.farms[idx];
        if common_token == 1 {
            QuotePlan::One {
                query: ReturnQuery {
                    pool_id: farm.pool_id_token2_reward,
                    token_in: farm.reward_token.clone(),
                    amount_in: amount_token_2,
                    token_out: self.token2_address.clone(),
                },
                common_token,
                amount_kept: amount_token_1,
            }
        } else if common_token == 2 {
            QuotePlan::One {
                query: ReturnQuery {
                    pool_id: farm.pool_id_token1_reward,
                    token_in: farm.reward_token.clone(),
                    amount_in: amount_token_1,
                    token_out: self.token1_address.clone(),
                },
                common_token,
                amount_kept: amount_token_2,
            }
        } else {
            QuotePlan::Both {
                first: ReturnQuery {
                    pool_id: farm.pool_id_token1_reward,
                    token_in: farm.reward_token.clone(),
                    amount_in: amount_token_1,
                    token_out: self.token1_address.clone(),
                },
                second: ReturnQuery {
                    pool_id: farm.pool_id_token2_reward,
                    token_in: farm.reward_token.clone(),
                    amount_in: amount_token_2,
                    token_out: self.token2_address.clone(),
                },
            }
        }
    }

    /// The swap step of the harvest of the farm at `idx`.
    ///
    /// Where an earlier first swap succeeded and the second failed, the first
    /// token's balance is already there: only the rest of the reward is swapped,
    /// for the second token. Otherwise the fees owed to the treasury and to the
    /// creator are paid, and half of the reward goes to each token (a reward
    /// that is one of the pool's tokens is kept for that half).
    pub fn autocompounds_swap(&self, idx: usize, treasure: &AccountFee) -> (res: SwapPlan)
        requires
            self.wf(),
            idx < self.farms@.len(),
        ensures
            self.swap_plan_is(idx as int, *treasure, res),
            ({
                let f = self.farms@[idx as int];
                f.available_balance@[0] == 0 ==> {
                    &&& res.amount_in_1 == res.amount_in_2
                    &&& res.amount_in_1 + res.amount_in_2 <= f.last_reward_amount
                    &&& f.last_reward_amount <= res.amount_in_1 + res.amount_in_2 + 1
                }
            }),
            ({
                let f = self.farms@[idx as int];
                f.available_balance@[0] > 0 ==> res.amount_in_1 == f.available_balance@[0] && res.amount_in_2
                    == f.last_reward_amount
            }),
    {
        let farm = &self.farms[idx];
        assert(farm_wf(self.farms@[idx as int]@));
        if farm.available_balance[0] > 0 {
            let kept = farm.available_balance[0];
            let reward_amount = farm.last_reward_amount;
            let quote = self.get_tokens_return(idx, kept, reward_amount, 1);
            return SwapPlan {
                treasury_payout: None,
                creator_payout: None,
                quote,
                amount_in_1: kept,
                amount_in_2: reward_amount,
                common_token: 1,
            };
        }
        let common_token: u64 = if self.token1_address == farm.reward_token {
            1
        } else if self.token2_address == farm.reward_token {
            2
        } else {
            0
        };
        let amount_in = farm.last_reward_amount / 2;
        let treasury_payout = if treasure.current_amount > 0 {
            Some(
                Payout {
                    receiver: treasure.account_id.clone(),
                    token: farm.reward_token.clone(),
                    amount: treasure.current_amount,
                },
            )
        } else {
            None
        };
        let creator = &self.admin_fees.strat_creator;
        let creator_payout = if creator.current_amount > 0 {
            Some(
                Payout {
                    receiver: creator.account_id.clone(),
                    token: farm.reward_token.clone(),
                    amount: creator.current_amount,
                },
            )
        } else {
            None
        };
        let quote = self.get_tokens_return(idx, amount_in, amount_in, common_token);
        SwapPlan {
            treasury_payout,
            creator_payout,
            quote,
            amount_in_1: amount_in,
            amount_in_2: amount_in,
            common_token,
        }
    }

    /// The swaps of the reward, once the quotes `tokens` are known: each
    /// quote less the slippage is the least amount the swap must give. A reward
    /// that is one of the pool's tokens is kept as that token's balance.
    pub fn swap_to_auto(
        &mut self,
        idx: usize,
        tokens: (u128, u128),
        amount_in_1: u128,
        amount_in_2: u128,
        common_token: u64,
    ) -> (res: SwapStep)
        requires
            old(self).wf(),
            idx < old(self).farms@.len(),
            tokens.0 * old(self).farms@[idx as int].slippage <= u128::MAX,
            tokens.1 * old(self).farms@[idx as int].slippage <= u128::MAX,
        ensures
            final(self).wf(),
            others_unchanged(old(self).farms@, final(self).farms@, idx as int),
            final(self).admin_fees == old(self).admin_fees,
            final(self).token1_address == old(self).token1_address,
            final(self).token2_address == old(self).token2_address,
            ({
                let f = old(self).farms@[idx as int]@;
                let g = final(self).farms@[idx as int]@;
                let min1 = percent_of_spec(f.slippage as int, tokens.0 as int);
                let min2 = percent_of_spec(f.slippage as int, tokens.1 as int);
                if common_token == 1 {
                    &&& g == (StratFarmView { available_balance: f.available_balance.update(0, amount_in_1), ..f })
                    &&& res matches SwapStep::Last(o) && order_is(
                        o,
                        f.pool_id_token2_reward,
                        f.reward_token,
                        old(self).token2_address@,
                        amount_in_2,
                        min2,
                    )
                } else if common_token == 2 {
                    &&& g == (StratFarmView { available_balance: f.available_balance.update(1, amount_in_2), ..f })
                    &&& res matches SwapStep::Last(o) && order_is(
                        o,
                        f.pool_id_token1_reward,
                        f.reward_token,
                        old(self).token1_address@,
                        amount_in_1,
                        min1,
                    )
                } else {
                    &&& g == f
                    &&& res matches SwapStep::First { order, next_amount_in, next_min_out } && order_is(
                        order,
                        f.pool_id_token1_reward,
                        f.reward_token,
                        old(self).token1_address@,
                        amount_in_1,
                        min1,
                    ) && next_amount_in == amount_in_2 && next_min_out == min2
                }
            }),
    {
        assert(farm_wf(self.farms@[idx as int]@));
        let slippage = self.farms[idx].slippage;
        let token1_min_out = percentage_apply_to(slippage, tokens.0);
        let token2_min_out = percentage_apply_to(slippage, tokens.1);
        let token_in = self.farms[idx].reward_token.clone();
        let pool1 = self.farms[idx].pool_id_token1_reward;
        let pool2 = self.farms[idx].pool_id_token2_reward;
        if common_token == 1 {
            self.farms[idx].available_balance.set(0, amount_in_1);
            SwapStep::Last(
                SwapOrder {
                    pool_id: pool2,
                    token_in,
                    token_out: self.token2_address.clone(),
                    amount_in: amount_in_2,
                    min_amount_out: token2_min_out,
                },
            )
        } else if common_token == 2 {
            self.farms[idx].available_balance.set(1, amount_in_2);
            SwapStep::Last(
                SwapOrder {
                    pool_id: pool1,
                    token_in,
                    token_out: self.token1_address.clone(),
                    amount_in: amount_in_1,
                    min_amount_out: token1_min_out,
                },
            )
        } else {
            SwapStep::First {
                order: SwapOrder {
                    pool_id: pool1,
                    token_in,
                    token_out: self.token1_address.clone(),
                    amount_in: amount_in_1,
                    min_amount_out: token1_min_out,
                },
                next_amount_in: amount_in_2,
                next_min_out: token2_min_out,
            }
        }
    }

    /// After the first of two swaps. A failed swap raises the slippage
    /// tolerance (or ends the farm) and stops the step. A successful one gives
    /// the first token's balance, uses up half of the reward, and is followed by
    /// the swap for the second token.
    pub fn callback_post_first_swap(
        &mut self,
        idx: usize,
        swap_result: Option<u128>,
        amount_in: u128,
        token_min_out: u128,
    ) -> (res: Option<SwapOrder>)
        requires
            old(self).wf(),
            idx < old(self).farms@.len(),
        ensures
            final(self).wf(),
            others_unchanged(old(self).farms@, final(self).farms@, idx as int),
            final(self).admin_fees == old(self).admin_fees,
            final(self).token2_address == old(self).token2_address,
            ({
                let f = old(self).farms@[idx as int]@;
                let g = final(self).farms@[idx as int]@;
                match swap_result {
                    None => g == after_failed_swap(f) && res is None,
                    Some(v) => {
                        &&& g == (StratFarmView {
                            available_balance: f.available_balance.update(0, v),
                            last_reward_amount: (f.last_reward_amount - f.last_reward_amount / 2) as u128,
                            ..f
                        })
                        &&& res matches Some(o) && order_is(
                            o,
                            f.pool_id_token2_reward,
                            f.reward_token,
                            old(self).token2_address@,
                            amount_in,
                            token_min_out as int,
                        )
                    },
                }
            }),
    {
        assert(farm_wf(self.farms@[idx as int]@));
        match swap_result {
            None => {
                self.farms[idx].increase_slippage();
                None
            },
            Some(v) => {
                self.farms[idx].available_balance.set(0, v);
                let amount_used = self.farms[idx].last_reward_amount / 2;
                self.farms[idx].last_reward_amount = self.farms[idx].last_reward_amount - amount_used;
                Some(
                    SwapOrder {
                        pool_id: self.farms[idx].pool_id_token2_reward,
                        token_in: self.farms[idx].reward_token.clone(),
                        token_out: self.token2_address.clone(),
                        amount_in,
                        min_amount_out: token_min_out,
                    },
                )
            },
        }
    }

    /// After the last swap. A failed swap raises the slippage tolerance (or
    /// ends the farm). A successful one gives the missing token's balance, uses
    /// up the reward, resets the slippage and moves on to staking.
    pub fn callback_post_swap(&mut self, idx: usize, swap_result: Option<u128>, common_token: u64)
        requires
            old(self).wf(),
            idx < old(self).farms@.len(),
        ensures
            final(self).wf(),
            others_unchanged(old(self).farms@, final(self).farms@, idx as int),
            final(self).admin_fees == old(self).admin_fees,
            ({
                let f = old(self).farms@[idx as int]@;
                let g = final(self).farms@[idx as int]@;
                match swap_result {
                    None => g == after_failed_swap(f),
                    Some(v) => g == (StratFarmView {
                        last_reward_amount: 0,
                        available_balance: if common_token == 2 {
                            f.available_balance.update(0, v)
                        } else {
                            f.available_balance.update(1, v)
                        },
                        slippage: DEFAULT_SLIPPAGE,
                        cycle_stage: next_stage(f.cycle_stage),
                        ..f
                    }),
                }
            }),
    {
        assert(farm_wf(self.farms@[idx as int]@));
        match swap_result {
            None => {
                self.farms[idx].increase_slippage();
            },
            Some(v) => {
                self.farms[idx].last_reward_amount = 0;
                if common_token == 2 {
                    self.farms[idx].available_balance.set(0, v);
                } else {
                    self.farms[idx].available_balance.set(1, v);
                }
                self.farms[idx].slippage = DEFAULT_SLIPPAGE;
                self.farms[idx].next_cycle();
            },
        }
    }
}


/// `p` is the withdrawal step for a farm with `reward_token` and
/// `last_reward`: a withdrawal from the farm, or, where fees are `pending`,
/// the transfer of the reward and the treasury's fees.
pub open spec fn withdraw_plan_is(p: WithdrawPlan, pending: bool, reward_token: Seq<char>, last_reward: u128, treasury_amount: u128) -> bool {
    if !pending {
        p matches WithdrawPlan::Withdraw { token, amount } && token@ == reward_token && amount == last_reward
    } else {
        p matches WithdrawPlan::Transfer { token, amount } && token@ == reward_token && amount == last_reward
            + treasury_amount
    }
}

/// The text the farm contract gives the status of a farm that still pays
/// rewards.
pub open spec fn running_status() -> Seq<char> {
    seq!['R', 'u', 'n', 'n', 'i', 'n', 'g']
}

/// Whether the farm contract reports the farm `farm_id` as no longer running.
pub open spec fn reported_ended(statuses: Seq<(String, String)>, farm_id: Seq<char>) -> bool {
    exists|i: int| 0 <= i < statuses.len() && (#[trigger] statuses[i]).0@ == farm_id && statuses[i].1@ != running_status()
}

impl AutoCompounder {
    /// The withdrawal step. Normally the reward is withdrawn from the farm.
    /// While the fees of an earlier withdrawal are still held under the
    /// contract's own account in the sentries map, that withdrawal succeeded
    /// but sending the reward to the exchange did not: the reward and the
    /// treasury's fees are sent again.
    pub fn withdraw_of_reward(&self, idx: usize, treasury_current_amount: u128, current_account: &String) -> (res:
        WithdrawPlan)
        requires
            self.wf(),
            idx < self.farms@.len(),
            self.admin_fees.sentries@.dom().contains(current_account@) ==> self.farms@[idx as int].last_reward_amount
                + treasury_current_amount <= u128::MAX,
        ensures
            withdraw_plan_is(
                res,
                self.admin_fees.sentries@.dom().contains(current_account@),
                self.farms@[idx as int].reward_token@,
                self.farms@[idx as int].last_reward_amount,
                treasury_current_amount,
            ),
    {
        let farm = &self.farms[idx];
        if !self.admin_fees.sentries.contains_key(current_account) {
            WithdrawPlan::Withdraw { token: farm.reward_token.clone(), amount: farm.last_reward_amount }
        } else {
            WithdrawPlan::Transfer {
                token: farm.reward_token.clone(),
                amount: farm.last_reward_amount + treasury_current_amount,
            }
        }
    }

    /// Claiming the seed's rewards claims those of every farm of the seed: each
    /// farm adds what `rewards` holds of its reward token to its reward.
    pub fn update_strats_by_seed(&mut self, rewards: &StrMap<u128>)
        requires
            old(self).wf(),
            rewards.wf(),
            forall|j: int| 0 <= j < old(self).farms@.len() ==> (#[trigger] old(self).farms@[j]).last_reward_amount
                + reward_for(rewards@, old(self).farms@[j].reward_token@) <= u128::MAX,
        ensures
            final(self).wf(),
            final(self).farms@.len() == old(self).farms@.len(),
            forall|j: int| 0 <= j < old(self).farms@.len() ==> (#[trigger] final(self).farms@[j])@ == (StratFarmView {
                last_reward_amount: (old(self).farms@[j].last_reward_amount + reward_for(
                    rewards@,
                    old(self).farms@[j].reward_token@,
                )) as u128,
                ..old(self).farms@[j]@
            }),
            final(self).admin_fees == old(self).admin_fees,
            final(self).token1_address == old(self).token1_address,
            final(self).token2_address == old(self).token2_address,
            final(self).pool_id == old(self).pool_id,
            final(self).seed_min_deposit == old(self).seed_min_deposit,
    {
        let ghost old_farms = self.farms@;
        let mut i: usize = 0;
        while i < self.farms.len()
            invariant
                i <= self.farms@.len(),
                self.farms@.len() == old_farms.len(),
                rewards.wf(),
                self.admin_fees == old(self).admin_fees,
                self.token1_address == old(self).token1_address,
                self.token2_address == old(self).token2_address,
                self.pool_id == old(self).pool_id,
                self.seed_min_deposit == old(self).seed_min_deposit,
                old_farms == old(self).farms@,
                forall|j: int| 0 <= j < old_farms.len() ==> (#[trigger] old_farms[j]).last_reward_amount
                    + reward_for(rewards@, old_farms[j].reward_token@) <= u128::MAX,
                forall|j: int| 0 <= j < i ==> (#[trigger] self.farms@[j])@ == (StratFarmView {
                    last_reward_amount: (old_farms[j].last_reward_amount + reward_for(
                        rewards@,
                        old_farms[j].reward_token@,
                    )) as u128,
                    ..old_farms[j]@
                }),
                forall|j: int| i <= j < old_farms.len() ==> #[trigger] self.farms@[j] == old_farms[j],
            decreases old_farms.len() - i,
        {
            let earned = match rewards.get(&self.farms[i].reward_token) {
                Some(v) => *v,
                None => 0,
            };
            if earned > 0 {
                self.farms[i].last_reward_amount = self.farms[i].last_reward_amount + earned;
            }
            i = i + 1;
        }
        proof {
            assert forall|j: int| 0 <= j < self.farms@.len() implies farm_wf(#[trigger] self.farms@[j]@) by {
                assert(farm_wf(old_farms[j]@));
            }
        }
    }

    /// After the seed's rewards were claimed: every farm of the seed takes its
    /// share of `rewards`, the farm at `idx` adds `reward_amount`, and its
    /// harvest moves on to the withdrawal.
    pub fn callback_post_claim_reward(&mut self, idx: usize, reward_amount: u128, rewards: &StrMap<u128>) -> (res:
        u128)
        requires
            old(self).wf(),
            rewards.wf(),
            idx < old(self).farms@.len(),
            forall|j: int| 0 <= j < old(self).farms@.len() ==> (#[trigger] old(self).farms@[j]).last_reward_amount
                + reward_for(rewards@, old(self).farms@[j].reward_token@) <= u128::MAX,
            old(self).farms@[idx as int].last_reward_amount + reward_for(
                rewards@,
                old(self).farms@[idx as int].reward_token@,
            ) + reward_amount <= u128::MAX,
        ensures
            res == reward_amount,
            final(self).wf(),
            final(self).farms@.len() == old(self).farms@.len(),
            forall|j: int| 0 <= j < old(self).farms@.len() && j != idx ==> (#[trigger] final(self).farms@[j])@
                == (StratFarmView {
                last_reward_amount: (old(self).farms@[j].last_reward_amount + reward_for(
                    rewards@,
                    old(self).farms@[j].reward_token@,
                )) as u128,
                ..old(self).farms@[j]@
            }),
            ({
                let f = old(self).farms@[idx as int]@;
                final(self).farms@[idx as int]@ == (StratFarmView {
                    last_reward_amount: (f.last_reward_amount + reward_for(rewards@, f.reward_token)
                        + reward_amount) as u128,
                    cycle_stage: next_stage(f.cycle_stage),
                    ..f
                })
            }),
            final(self).admin_fees == old(self).admin_fees,
    {
        self.update_strats_by_seed(rewards);
        assert(farm_wf(self.farms@[idx as int]@));
        self.farms[idx].last_reward_amount = self.farms[idx].last_reward_amount + reward_amount;
        self.farms[idx].next_cycle();
        reward_amount
    }

    /// The farm contract's answer on the seed's unclaimed rewards, `rewards`.
    /// With no reward for the farm's token: a farm that ended is now cleared
    /// (`Ok(None)`), and a running one is refused (`ZeroRewardsEarned`).
    /// Otherwise the reward is claimed: `Ok(Some((reward, others)))`, where
    /// `others` are the rewards of the other tokens.
    pub fn callback_post_get_unclaimed_reward(&mut self, idx: usize, rewards: StrMap<u128>) -> (res: Result<
        Option<(u128, StrMap<u128>)>,
        SafeError,
    >)
        requires
            old(self).wf(),
            rewards.wf(),
            idx < old(self).farms@.len(),
        ensures
            final(self).wf(),
            others_unchanged(old(self).farms@, final(self).farms@, idx as int),
            final(self).admin_fees == old(self).admin_fees,
            ({
                let f = old(self).farms@[idx as int]@;
                let r = reward_for(rewards@, f.reward_token);
                if r == 0 {
                    if f.state == AutoCompounderState::Ended {
                        &&& final(self).farms@[idx as int]@ == (StratFarmView {
                            state: AutoCompounderState::Cleared,
                            ..f
                        })
                        &&& res matches Ok(None)
                    } else {
                        &&& final(self).farms@[idx as int]@ == f
                        &&& res matches Err(e) && e == SafeError::ZeroRewardsEarned
                    }
                } else {
                    &&& final(self).farms@[idx as int]@ == f
                    &&& res matches Ok(Some((amount, others))) && amount == r && others.wf() && others@
                        == rewards@.remove(f.reward_token)
                }
            }),
    {
        let mut others = rewards;
        let token = self.farms[idx].reward_token.clone();
        let reward_amount = match others.get(&token) {
            Some(v) => *v,
            None => 0,
        };
        if reward_amount == 0 {
            if self.farms[idx].state == AutoCompounderState::Ended {
                self.farms[idx].state = AutoCompounderState::Cleared;
                assert(farm_wf(self.farms@[idx as int]@));
                return Ok(None);
            } else {
                return Err(SafeError::ZeroRewardsEarned);
            }
        }
        others.remove(&token);
        Ok(Some((reward_amount, others)))
    }

    /// The farm contract's list of the seed's farms, as `(farm id, status)`:
    /// where it reports the farm `farm_id` as not running, every farm of the
    /// strategy with that id ends.
    pub fn callback_list_farms_by_seed(&mut self, farm_id: &String, statuses: &Vec<(String, String)>)
        requires
            old(self).wf(),
        ensures
            final(self).wf(),
            final(self).farms@.len() == old(self).farms@.len(),
            forall|j: int| 0 <= j < old(self).farms@.len() ==> (#[trigger] final(self).farms@[j])@ == (if reported_ended(
                statuses@,
                farm_id@,
            ) && old(self).farms@[j].id@ == farm_id@ {
                (StratFarmView { state: AutoCompounderState::Ended, ..old(self).farms@[j]@ })
            } else {
                old(self).farms@[j]@
            }),
            final(self).admin_fees == old(self).admin_fees,
    {
        let running = String::from_str("Running");
        proof {
            reveal_strlit("Running");
            assert(running@ =~= running_status());
        }
        let mut ended = false;
        let mut k: usize = 0;
        while k < statuses.len()
            invariant
                k <= statuses@.len(),
                running@ == running_status(),
                ended <==> exists|i: int| 0 <= i < k && (#[trigger] statuses@[i]).0@ == farm_id@ && statuses@[i].1@
                    != running_status(),
            decreases statuses@.len() - k,
        {
            if statuses[k].0 == *farm_id && statuses[k].1 != running {
                ended = true;
            }
            k = k + 1;
        }
        assert(ended == reported_ended(statuses@, farm_id@));
        if !ended {
            return;
        }
        let ghost old_farms = self.farms@;
        let mut i: usize = 0;
        while i < self.farms.len()
            invariant
                i <= self.farms@.len(),
                self.farms@.len() == old_farms.len(),
                old_farms == old(self).farms@,
                self.admin_fees == old(self).admin_fees,
                forall|j: int| 0 <= j < i ==> (#[trigger] self.farms@[j])@ == (if old_farms[j].id@ == farm_id@ {
                    (StratFarmView { state: AutoCompounderState::Ended, ..old_farms[j]@ })
                } else {
                    old_farms[j]@
                }),
                forall|j: int| i <= j < old_farms.len() ==> #[trigger] self.farms@[j] == old_farms[j],
            decreases old_farms.len() - i,
        {
            if self.farms[i].id == *farm_id {
                self.farms[i].state = AutoCompounderState::Ended;
            }
            i = i + 1;
        }
        proof {
            assert forall|j: int| 0 <= j < self.farms@.len() implies farm_wf(#[trigger] self.farms@[j]@) by {
                assert(farm_wf(old_farms[j]@));
            }
        }
    }
}


impl AutoCompounder {
    /// Splits the reward of the farm at `idx` by the fees, once it was
    /// withdrawn. The creator's fee is added to what the creator is owed, the
    /// sentry's fee is held under the contract's account `current_account`
    /// until a sentry finishes the harvest, and the farm keeps what is left to
    /// reinvest. Returns `(treasury fee, amount to send to the exchange)`,
    /// the latter being what is left and the treasury's fee.
    /// `FeeNotValid` where the fees cannot be split, `ArithmeticOverflow` where
    /// the creator's amount would overflow; nothing changes then.
    pub fn callback_post_withdraw(&mut self, idx: usize, current_account: &String) -> (res: Result<(u128, u128), SafeError>)
        requires
            old(self).wf(),
            idx < old(self).farms@.len(),
        ensures
            final(self).wf(),
            ({
                let f = old(self).farms@[idx as int]@;
                let fees = old(self).admin_fees;
                let split = fee_split(
                    fees.strategy_fee as int,
                    fees.sentries_fee as int,
                    fees.strat_creator.fee_percentage as int,
                    f.last_reward_amount as int,
                );
                match split {
                    None => res == Err::<(u128, u128), SafeError>(SafeError::FeeNotValid) && *final(self) == *old(self),
                    Some(t) => if fees.strat_creator.current_amount + t.3 > u128::MAX {
                        res == Err::<(u128, u128), SafeError>(SafeError::ArithmeticOverflow) && *final(self) == *old(self)
                    } else {
                        &&& res == Ok::<(u128, u128), SafeError>((t.1 as u128, (t.0 + t.1) as u128))
                        &&& final(self).admin_fees.strat_creator.current_amount == fees.strat_creator.current_amount + t.3
                        &&& final(self).admin_fees.strat_creator.account_id == fees.strat_creator.account_id
                        &&& final(self).admin_fees.strat_creator.fee_percentage == fees.strat_creator.fee_percentage
                        &&& final(self).admin_fees.strategy_fee == fees.strategy_fee
                        &&& final(self).admin_fees.sentries_fee == fees.sentries_fee
                        &&& final(self).admin_fees.sentries@ == fees.sentries@.insert(current_account@, t.2 as u128)
                        &&& others_unchanged(old(self).farms@, final(self).farms@, idx as int)
                        &&& final(self).farms@[idx as int]@ == (StratFarmView { last_reward_amount: t.0 as u128, ..f })
                        &&& *final(self) == (AutoCompounder {
                            admin_fees: final(self).admin_fees,
                            farms: final(self).farms,
                            ..*old(self)
                        })
                    },
                }
            }),
    {
        let last_reward_amount = self.farms[idx].last_reward_amount;
        let (remaining_amount, protocol_amount, _, _) = match self.admin_fees.take_fees(
            last_reward_amount,
            current_account,
        ) {
            Ok(t) => t,
            Err(e) => return Err(e),
        };
        self.farms[idx].last_reward_amount = remaining_amount;
        proof {
            crate::fees::lemma_fee_split_conserves(
                old(self).admin_fees.strategy_fee as int,
                old(self).admin_fees.sentries_fee as int,
                old(self).admin_fees.strat_creator.fee_percentage as int,
                last_reward_amount as int,
            );
            assert(farm_wf(self.farms@[idx as int]@)) by {
                assert(farm_wf(old(self).farms@[idx as int]@));
            }
        }
        Ok((protocol_amount, remaining_amount + protocol_amount))
    }

    /// The reward token's answer on the sentry's storage, `storage_total`
    /// (`None` where the call failed, `Some(None)` where the sentry is not
    /// registered): the sentry's fee held under `current_account` is taken
    /// out, as [`AdminFees::take_sentry_fee`] says, to be sent to the sentry.
    /// The farms do not change.
    pub fn callback_post_sentry(&mut self, storage_total: Option<Option<u128>>, current_account: &String) -> (res: Result<u128, SafeError>)
        requires
            old(self).wf(),
        ensures
            final(self).wf(),
            final(self).farms == old(self).farms,
            (AutoCompounder { admin_fees: old(self).admin_fees, ..*final(self) }) == *old(self),
            (match storage_total {
                None => res == Err::<u128, SafeError>(SafeError::SentryNotRegistered) && *final(self) == *old(self),
                Some(None) => res == Err::<u128, SafeError>(SafeError::NotEnoughBalance) && *final(self) == *old(self),
                Some(Some(total)) => if total <= 1 {
                    res == Err::<u128, SafeError>(SafeError::NotEnoughBalance) && *final(self) == *old(self)
                } else if !old(self).admin_fees.sentries@.dom().contains(current_account@) {
                    res == Err::<u128, SafeError>(SafeError::DoesNotExist) && *final(self) == *old(self)
                } else {
                    &&& res == Ok::<u128, SafeError>(old(self).admin_fees.sentries@[current_account@])
                    &&& final(self).admin_fees.sentries@ == old(self).admin_fees.sentries@.remove(current_account@)
                    &&& final(self).admin_fees.strat_creator == old(self).admin_fees.strat_creator
                    &&& final(self).admin_fees.strategy_fee == old(self).admin_fees.strategy_fee
                    &&& final(self).admin_fees.sentries_fee == old(self).admin_fees.sentries_fee
                },
            }),
    {
        self.admin_fees.take_sentry_fee(storage_total, current_account)
    }

    /// After the sentry's fee was sent: a failed transfer keeps the fee owed to
    /// the sentry. A farm that ended is now cleared (`None`); otherwise the
    /// harvest adds the two balances as liquidity to the pool:
    /// `Some((pool_id, amount of token1, amount of token2))`.
    pub fn callback_post_sentry_mft_transfer(
        &mut self,
        idx: usize,
        transfer_ok: bool,
        sentry_id: String,
        amount_earned: u128,
    ) -> (res: Option<(u64, u128, u128)>)
        requires
            old(self).wf(),
            idx < old(self).farms@.len(),
        ensures
            final(self).wf(),
            others_unchanged(old(self).farms@, final(self).farms@, idx as int),
            final(self).admin_fees.sentries@ == (if transfer_ok {
                old(self).admin_fees.sentries@
            } else {
                old(self).admin_fees.sentries@.insert(sentry_id@, amount_earned)
            }),
            final(self).admin_fees.strat_creator == old(self).admin_fees.strat_creator,
            final(self).pool_id == old(self).pool_id,
            ({
                let f = old(self).farms@[idx as int]@;
                if f.state == AutoCompounderState::Ended {
                    &&& final(self).farms@[idx as int]@ == (StratFarmView { state: AutoCompounderState::Cleared, ..f })
                    &&& res is None
                } else {
                    &&& final(self).farms@[idx as int]@ == f
                    &&& res == Some((old(self).pool_id, f.available_balance[0], f.available_balance[1]))
                }
            }),
    {
        self.admin_fees.settle_sentry_transfer(transfer_ok, sentry_id, amount_earned);
        assert(farm_wf(self.farms@[idx as int]@));
        if self.farms[idx].state == AutoCompounderState::Ended {
            self.farms[idx].state = AutoCompounderState::Cleared;
            return None;
        }
        Some((self.pool_id, self.farms[idx].available_balance[0], self.farms[idx].available_balance[1]))
    }

    /// After liquidity was added: the balances were used up.
    pub fn callback_post_add_liquidity(&mut self, idx: usize)
        requires
            old(self).wf(),
            idx < old(self).farms@.len(),
        ensures
            final(self).wf(),
            others_unchanged(old(self).farms@, final(self).farms@, idx as int),
            final(self).admin_fees == old(self).admin_fees,
            final(self).farms@[idx as int]@ == (StratFarmView {
                available_balance: seq![0u128, 0u128],
                ..old(self).farms@[idx as int]@
            }),
    {
        assert(farm_wf(self.farms@[idx as int]@));
        self.farms[idx].available_balance.set(0, 0);
        self.farms[idx].available_balance.set(1, 0);
        assert(self.farms@[idx as int].available_balance@ =~= seq![0u128, 0u128]);
    }

    /// With the contract's shares of the pool known, the harvest is done: its
    /// time is `now_ms` and the farm starts over. The shares are staked,
    /// `Some(shares)`, unless they are below the seed's minimum deposit.
    pub fn callback_post_get_pool_shares(&mut self, idx: usize, accumulated_shares: u128, now_ms: u64) -> (res: Option<
        u128,
    >)
        requires
            old(self).wf(),
            idx < old(self).farms@.len(),
        ensures
            final(self).wf(),
            others_unchanged(old(self).farms@, final(self).farms@, idx as int),
            final(self).admin_fees == old(self).admin_fees,
            final(self).harvest_timestamp == now_ms,
            final(self).seed_min_deposit == old(self).seed_min_deposit,
            final(self).farms@[idx as int]@ == (StratFarmView {
                cycle_stage: next_stage(old(self).farms@[idx as int].cycle_stage),
                ..old(self).farms@[idx as int]@
            }),
            res == (if accumulated_shares < old(self).seed_min_deposit {
                None
            } else {
                Some(accumulated_shares)
            }),
    {
        self.harvest_timestamp = now_ms;
        assert(farm_wf(self.farms@[idx as int]@));
        self.farms[idx].next_cycle();
        if accumulated_shares < self.seed_min_deposit {
            None
        } else {
            Some(accumulated_shares)
        }
    }
}


impl AutoCompounder {
    /// The ids of the farms, in order.
    pub open spec fn farm_ids(self) -> Seq<Seq<char>> {
        self.farms@.map_values(|f: StratFarmInfo| f.id@)
    }

    /// What a call of the harvest for the farm `farm_id` of the seed `seed_id`
    /// does, by the farm's stage: claim, withdraw, swap, or pay the sentry
    /// `predecessor` before staking. A farm that does not exist and a cleared
    /// farm are refused.
    pub open spec fn harvest_step(
        self,
        farm_id: Seq<char>,
        seed_id: Seq<char>,
        treasure: AccountFee,
        current_account: Seq<char>,
        predecessor: Seq<char>,
        res: Result<HarvestAction, SafeError>,
    ) -> bool {
        if !has_farm(self.farm_ids(), farm_id) {
            res == Err::<HarvestAction, SafeError>(SafeError::FarmDoesNotExist)
        } else {
            let i = first_farm(self.farm_ids(), farm_id);
            let f = self.farms@[i]@;
            if f.state == AutoCompounderState::Cleared {
                res == Err::<HarvestAction, SafeError>(SafeError::StrategyCleared)
            } else {
                match f.cycle_stage {
                    AutoCompounderCycle::ClaimReward => res matches Ok(HarvestAction::ClaimReward { seed_id: s })
                        && s@ == seed_id,
                    AutoCompounderCycle::Withdrawal => {
                        let pending = self.admin_fees.sentries@.dom().contains(current_account);
                        if pending && f.last_reward_amount + treasure.current_amount > u128::MAX {
                            res == Err::<HarvestAction, SafeError>(SafeError::ArithmeticOverflow)
                        } else {
                            res matches Ok(HarvestAction::Withdraw(p)) && withdraw_plan_is(
                                p,
                                pending,
                                f.reward_token,
                                f.last_reward_amount,
                                treasure.current_amount,
                            )
                        }
                    },
                    AutoCompounderCycle::Swap => res matches Ok(HarvestAction::Swap(p)) && self.swap_plan_is(
                        i,
                        treasure,
                        p,
                    ),
                    AutoCompounderCycle::Stake => res matches Ok(
                        HarvestAction::SentryStorage { sentry, reward_token },
                    ) && sentry@ == predecessor && reward_token@ == f.reward_token,
                }
            }
        }
    }

    /// The harvest for the farm `farm_id`, as [`AutoCompounder::harvest_step`]
    /// describes it.
    pub fn harvest(
        &self,
        farm_id: &String,
        seed_id: &String,
        treasure: &AccountFee,
        current_account: &String,
        predecessor: &String,
    ) -> (res: Result<HarvestAction, SafeError>)
        requires
            self.wf(),
        ensures
            self.harvest_step(farm_id@, seed_id@, *treasure, current_account@, predecessor@, res),
    {
        let idx = match self.farm_index(farm_id) {
            Some(i) => i,
            None => {
                proof {
                    lemma_no_farm(self.farm_ids(), farm_id@);
                }
                return Err(SafeError::FarmDoesNotExist);
            },
        };
        proof {
            lemma_first_farm(self.farm_ids(), farm_id@, idx as int);
        }
        let farm = &self.farms[idx];
        assert_strategy_not_cleared(farm.state)?;
        match farm.cycle_stage {
            AutoCompounderCycle::ClaimReward => Ok(HarvestAction::ClaimReward { seed_id: seed_id.clone() }),
            AutoCompounderCycle::Withdrawal => {
                let pending = self.admin_fees.sentries.contains_key(current_account);
                if pending && farm.last_reward_amount > u128::MAX - treasure.current_amount {
                    return Err(SafeError::ArithmeticOverflow);
                }
                Ok(HarvestAction::Withdraw(self.withdraw_of_reward(idx, treasure.current_amount, current_account)))
            },
            AutoCompounderCycle::Swap => Ok(HarvestAction::Swap(self.autocompounds_swap(idx, treasure))),
            AutoCompounderCycle::Stake => Ok(
                HarvestAction::SentryStorage { sentry: predecessor.clone(), reward_token: farm.reward_token.clone() },
            ),
        }
    }
}

} // verus!
