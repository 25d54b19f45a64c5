//! The farms a strategy compounds: their state, the stage of the harvest cycle
//! they are in, and the slippage their swaps accept.
use vstd::prelude::*;
use crate::errors::SafeError;

verus! {

/// Highest slippage, in percent, that a failing swap may raise the tolerance to.
pub const MAX_SLIPPAGE_ALLOWED: u128 = 20;

/// Slippage, in percent, that a successful swap resets the tolerance to.
pub const MIN_SLIPPAGE_ALLOWED: u128 = 1;

/// Slippage tolerance of a new farm: the minimum amount out, in percent of the
/// quoted amount.
pub const DEFAULT_SLIPPAGE: u128 = 99;

/// Life cycle of a farm of a Ref Finance strategy.
#[derive(PartialEq, Eq, Structural, Clone, Copy, Debug)]
pub enum AutoCompounderState {
    Running,
    Ended,
    Cleared,
}

/// A farm that is running or ended may still be harvested; a cleared one is
/// refused (`StrategyCleared`).
pub fn assert_strategy_not_cleared(state: AutoCompounderState) -> (res: Result<(), SafeError>)
    ensures
        res is Ok <==> state != AutoCompounderState::Cleared,
        res is Err ==> res == Err::<(), SafeError>(SafeError::StrategyCleared),
{
    match state {
        AutoCompounderState::Running => Ok(()),
        AutoCompounderState::Ended => Ok(()),
        _ => Err(SafeError::StrategyCleared),
    }
}

/// Life cycle of a farm of a Jumbo strategy.
#[derive(PartialEq, Eq, Structural, Clone, Copy, Debug)]
pub enum JumboAutoCompounderState {
    Running,
    Ended,
    Cleared,
}

/// Life cycle of a Pembrock strategy.
#[derive(PartialEq, Eq, Structural, Clone, Copy, Debug)]
pub enum PembAutoCompounderState {
    Running,
    Ended,
    Cleared,
}

/// Stages of the harvest of a Ref Finance farm.
#[derive(PartialEq, Eq, Structural, Clone, Copy, Debug)]
pub enum AutoCompounderCycle {
    ClaimReward,
    Withdrawal,
    Swap,
    Stake,
}

/// Stages of the harvest of a Jumbo farm.
#[derive(PartialEq, Eq, Structural, Clone, Copy, Debug)]
pub enum JumboAutoCompounderCycle {
    ClaimReward,
    Withdrawal,
    SwapToken1,
    SwapToken2,
    Stake,
}

/// Stages of the harvest of a Pembrock strategy.
#[derive(PartialEq, Eq, Structural, Clone, Copy, Debug)]
pub enum PembAutoCompounderCycle {
    ClaimReward,
    SwapAndLend,
}

/// The name under which a state is shown.
pub open spec fn state_name_spec(running: bool, ended: bool) -> Seq<char> {
    if running {
        "Running"@
    } else if ended {
        "Ended"@
    } else {
        "Cleared"@
    }
}

impl AutoCompounderState {
    /// `Running`, `Ended` or `Cleared`.
    pub fn name(&self) -> (res: String)
        ensures
            res@ == state_name_spec(*self == AutoCompounderState::Running, *self == AutoCompounderState::Ended),
    {
        match self {
            AutoCompounderState::Running => String::from_str("Running"),
            AutoCompounderState::Ended => String::from_str("Ended"),
            AutoCompounderState::Cleared => String::from_str("Cleared"),
        }
    }
}

impl JumboAutoCompounderState {
    /// `Running`, `Ended` or `Cleared`.
    pub fn name(&self) -> (res: String)
        ensures
            res@ == state_name_spec(*self == JumboAutoCompounderState::Running, *self == JumboAutoCompounderState::Ended),
    {
        match self {
            JumboAutoCompounderState::Running => String::from_str("Running"),
            JumboAutoCompounderState::Ended => String::from_str("Ended"),
            JumboAutoCompounderState::Cleared => String::from_str("Cleared"),
        }
    }
}

impl PembAutoCompounderState {
    /// `Running`, `Ended` or `Cleared`.
    pub fn name(&self) -> (res: String)
        ensures
            res@ == state_name_spec(*self == PembAutoCompounderState::Running, *self == PembAutoCompounderState::Ended),
    {
        match self {
            PembAutoCompounderState::Running => String::from_str("Running"),
            PembAutoCompounderState::Ended => String::from_str("Ended"),
            PembAutoCompounderState::Cleared => String::from_str("Cleared"),
        }
    }
}

/// The stage that follows `c` in the harvest of a Ref Finance farm.
pub open spec fn next_stage(c: AutoCompounderCycle) -> AutoCompounderCycle {
    match c {
        AutoCompounderCycle::ClaimReward => AutoCompounderCycle::Withdrawal,
        AutoCompounderCycle::Withdrawal => AutoCompounderCycle::Swap,
        AutoCompounderCycle::Swap => AutoCompounderCycle::Stake,
        AutoCompounderCycle::Stake => AutoCompounderCycle::ClaimReward,
    }
}

/// The stage that follows `c` in the harvest of a Jumbo farm.
pub open spec fn next_jumbo_stage(c: JumboAutoCompounderCycle) -> JumboAutoCompounderCycle {
    match c {
        JumboAutoCompounderCycle::ClaimReward => JumboAutoCompounderCycle::Withdrawal,
        JumboAutoCompounderCycle::Withdrawal => JumboAutoCompounderCycle::SwapToken1,
        JumboAutoCompounderCycle::SwapToken1 => JumboAutoCompounderCycle::SwapToken2,
        JumboAutoCompounderCycle::SwapToken2 => JumboAutoCompounderCycle::Stake,
        JumboAutoCompounderCycle::Stake => JumboAutoCompounderCycle::ClaimReward,
    }
}

/// The stage that follows `c` in the harvest of a Pembrock strategy.
pub open spec fn next_pemb_stage(c: PembAutoCompounderCycle) -> PembAutoCompounderCycle {
    match c {
        PembAutoCompounderCycle::ClaimReward => PembAutoCompounderCycle::SwapAndLend,
        PembAutoCompounderCycle::SwapAndLend => PembAutoCompounderCycle::ClaimReward,
    }
}

/// The name under which a stage of a Ref Finance harvest is shown.
pub open spec fn cycle_name(c: AutoCompounderCycle) -> Seq<char> {
    match c {
        AutoCompounderCycle::ClaimReward => "Reward"@,
        AutoCompounderCycle::Withdrawal => "Withdrawal"@,
        AutoCompounderCycle::Swap => "Swap"@,
        AutoCompounderCycle::Stake => "Stake"@,
    }
}

/// The name under which a stage of a Jumbo harvest is shown.
pub open spec fn jumbo_cycle_name(c: JumboAutoCompounderCycle) -> Seq<char> {
    match c {
        JumboAutoCompounderCycle::ClaimReward => "Reward"@,
        JumboAutoCompounderCycle::Withdrawal => "Withdrawal"@,
        JumboAutoCompounderCycle::SwapToken1 => "SwapToken1"@,
        JumboAutoCompounderCycle::SwapToken2 => "SwapToken2"@,
        JumboAutoCompounderCycle::Stake => "Stake"@,
    }
}

/// The name under which a stage of a Pembrock harvest is shown.
pub open spec fn pemb_cycle_name(c: PembAutoCompounderCycle) -> Seq<char> {
    match c {
        PembAutoCompounderCycle::ClaimReward => "Reward"@,
        PembAutoCompounderCycle::SwapAndLend => "SwapAndLend"@,
    }
}

impl AutoCompounderCycle {
    /// `Reward`, `Withdrawal`, `Swap` or `Stake`.
    pub fn name(&self) -> (res: String)
        ensures
            res@ == cycle_name(*self),
    {
        match self {
            AutoCompounderCycle::ClaimReward => String::from_str("Reward"),
            AutoCompounderCycle::Withdrawal => String::from_str("Withdrawal"),
            AutoCompounderCycle::Swap => String::from_str("Swap"),
            AutoCompounderCycle::Stake => String::from_str("Stake"),
        }
    }
}

impl JumboAutoCompounderCycle {
    /// `Reward`, `Withdrawal`, `SwapToken1`, `SwapToken2` or `Stake`.
    pub fn name(&self) -> (res: String)
        ensures
            res@ == jumbo_cycle_name(*self),
    {
        match self {
            JumboAutoCompounderCycle::ClaimReward => String::from_str("Reward"),
            JumboAutoCompounderCycle::Withdrawal => String::from_str("Withdrawal"),
            JumboAutoCompounderCycle::SwapToken1 => String::from_str("SwapToken1"),
            JumboAutoCompounderCycle::SwapToken2 => String::from_str("SwapToken2"),
            JumboAutoCompounderCycle::Stake => String::from_str("Stake"),
        }
    }
}

impl PembAutoCompounderCycle {
    /// `Reward` or `SwapAndLend`.
    pub fn name(&self) -> (res: String)
        ensures
            res@ == pemb_cycle_name(*self),
    {
        match self {
            PembAutoCompounderCycle::ClaimReward => String::from_str("Reward"),
            PembAutoCompounderCycle::SwapAndLend => String::from_str("SwapAndLend"),
        }
    }
}

/// The slippage tolerance after a failed swap: lowered by 4 points while the
/// slippage stays under `MAX_SLIPPAGE_ALLOWED`, otherwise unchanged (and the
/// farm ends).
pub open spec fn slippage_after_failure(slippage: int) -> int {
    if 100 - slippage < MAX_SLIPPAGE_ALLOWED {
        slippage - 4
    } else {
        slippage
    }
}

/// Whether a failed swap ends the farm instead of raising the slippage.
pub open spec fn failure_ends_farm(slippage: int) -> bool {
    !(100 - slippage < MAX_SLIPPAGE_ALLOWED)
}

/// A farm of a Ref Finance strategy over a two-token pool.
pub struct StratFarmInfo {
    /// State is used to update the contract to a Paused/Running state
    pub state: AutoCompounderState,
    /// Used to keep track of the current stage of the auto-compound cycle
    pub cycle_stage: AutoCompounderCycle,
    /// Minimum amount out of swaps, in percent of the quoted amount
    pub slippage: u128,
    /// Used to keep track of the rewards received from the farm during auto-compound cycle
    pub last_reward_amount: u128,
    /// Used to keep track of the owned amount from fee of the token reward
    pub last_fee_amount: u128,
    /// Pool used to swap the reward received by the token used to add liquidity
    pub pool_id_token1_reward: u64,
    /// Pool used to swap the reward received by the token used to add liquidity
    pub pool_id_token2_reward: u64,
    /// Address of the reward token given by the farm
    pub reward_token: String,
    /// Store balance of available token1 and token2
    pub available_balance: Vec<u128>,
    /// Farm used to auto-compound
    pub id: String,
}

/// A farm of a Ref Finance strategy over a stable pool.
pub struct StableStratFarmInfo {
    /// State is used to update the contract to a Paused/Running state
    pub state: AutoCompounderState,
    /// Used to keep track of the current stage of the auto-compound cycle
    pub cycle_stage: AutoCompounderCycle,
    /// Minimum amount out of swaps, in percent of the quoted amount
    pub slippage: u128,
    /// Used to keep track of the rewards received from the farm during auto-compound cycle
    pub last_reward_amount: u128,
    /// Used to keep track of the owned amount from fee of the token reward
    pub last_fee_amount: u128,
    /// Address of the token used to add liquidity
    pub token_address: String,
    /// Pool used to swap the reward received by the token used to add liquidity
    pub pool_id_token_reward: u64,
    /// Position of the token used to add liquidity among the pool's tokens
    pub token_position: u64,
    /// Address of the reward token given by the farm
    pub reward_token: String,
    /// Store balance of available of tokens
    pub available_balance: Vec<u128>,
    /// Farm used to auto-compound
    pub id: String,
}

/// A farm of a Jumbo strategy.
pub struct JumboStratFarmInfo {
    /// State is used to update the contract to a Paused/Running state
    pub state: JumboAutoCompounderState,
    /// Used to keep track of the current stage of the auto-compound cycle
    pub cycle_stage: JumboAutoCompounderCycle,
    /// Minimum amount out of swaps, in percent of the quoted amount
    pub slippage: u128,
    /// Used to keep track of the rewards received from the farm during auto-compound cycle
    pub last_reward_amount: u128,
    /// Shares obtained by the harvest and not staked yet
    pub current_shares_to_stake: u128,
    /// Used to keep track of the owned amount from fee of the token reward
    pub last_fee_amount: u128,
    /// Pool used to swap the reward received by the token used to add liquidity
    pub pool_id_token1_reward: u64,
    /// Pool used to swap the reward received by the token used to add liquidity
    pub pool_id_token2_reward: u64,
    /// Address of the reward token given by the farm
    pub reward_token: String,
    /// Store balance of available token1 and token2
    pub available_balance: Vec<u128>,
    /// Farm used to auto-compound
    pub id: String,
}

/// A lending position of a Pembrock strategy.
pub struct PembStratFarmInfo {
    /// State is used to update the contract to a Paused/Running state
    pub state: PembAutoCompounderState,
    /// Used to keep track of the current stage of the auto-compound cycle
    pub cycle_stage: PembAutoCompounderCycle,
    /// Minimum amount out of swaps, in percent of the quoted amount
    pub slippage: u128,
    /// Used to keep track of the rewards received during the auto-compound cycle
    pub last_reward_amount: u128,
    /// Used to keep track of the owned amount from fee of the token reward
    pub last_fee_amount: u128,
    /// Pool used to swap the reward received by the token lent
    pub pool_id_token1_reward: u64,
    /// Address of the reward token
    pub reward_token: String,
    /// Balance available to lend
    pub available_balance: u128,
}

/// A copy of a list of amounts.
fn copy_amounts(v: &Vec<u128>) -> (res: Vec<u128>)
    ensures
        res@ == v@,
{
    let mut out: Vec<u128> = Vec::new();
    let mut i: usize = 0;
    while i < v.len()
        invariant
            i <= v@.len(),
            out@ == v@.take(i as int),
        decreases v@.len() - i,
    {
        out.push(v[i]);
        i = i + 1;
        assert(out@ =~= v@.take(i as int));
    }
    assert(v@.take(v@.len() as int) =~= v@);
    out
}

impl StratFarmInfo {
    /// A copy of the farm.
    pub fn duplicate(&self) -> (res: Self)
        ensures
            res@ == self@,
    {
        StratFarmInfo {
            state: self.state,
            cycle_stage: self.cycle_stage,
            slippage: self.slippage,
            last_reward_amount: self.last_reward_amount,
            last_fee_amount: self.last_fee_amount,
            pool_id_token1_reward: self.pool_id_token1_reward,
            pool_id_token2_reward: self.pool_id_token2_reward,
            reward_token: self.reward_token.clone(),
            available_balance: copy_amounts(&self.available_balance),
            id: self.id.clone(),
        }
    }
}

impl StableStratFarmInfo {
    /// A copy of the farm.
    pub fn duplicate(&self) -> (res: Self)
        ensures
            res@ == self@,
    {
        StableStratFarmInfo {
            state: self.state,
            cycle_stage: self.cycle_stage,
            slippage: self.slippage,
            last_reward_amount: self.last_reward_amount,
            last_fee_amount: self.last_fee_amount,
            token_address: self.token_address.clone(),
            pool_id_token_reward: self.pool_id_token_reward,
            token_position: self.token_position,
            reward_token: self.reward_token.clone(),
            available_balance: copy_amounts(&self.available_balance),
            id: self.id.clone(),
        }
    }
}

impl JumboStratFarmInfo {
    /// A copy of the farm.
    pub fn duplicate(&self) -> (res: Self)
        ensures
            res@ == self@,
    {
        JumboStratFarmInfo {
            state: self.state,
            cycle_stage: self.cycle_stage,
            slippage: self.slippage,
            last_reward_amount: self.last_reward_amount,
            current_shares_to_stake: self.current_shares_to_stake,
            last_fee_amount: self.last_fee_amount,
            pool_id_token1_reward: self.pool_id_token1_reward,
            pool_id_token2_reward: self.pool_id_token2_reward,
            reward_token: self.reward_token.clone(),
            available_balance: copy_amounts(&self.available_balance),
            id: self.id.clone(),
        }
    }
}

impl StratFarmInfo {
    /// Moves to the next stage of the harvest.
    pub fn next_cycle(&mut self)
        ensures
            final(self).cycle_stage == next_stage(old(self).cycle_stage),
            final(self).state == old(self).state,
            final(self).slippage == old(self).slippage,
            final(self).last_reward_amount == old(self).last_reward_amount,
            final(self).available_balance@ == old(self).available_balance@,
            final(self).id == old(self).id,
            final(self).reward_token == old(self).reward_token,
            final(self).pool_id_token1_reward == old(self).pool_id_token1_reward,
            final(self).pool_id_token2_reward == old(self).pool_id_token2_reward,
            final(self).last_fee_amount == old(self).last_fee_amount,
    {
        self.cycle_stage = match self.cycle_stage {
            AutoCompounderCycle::ClaimReward => AutoCompounderCycle::Withdrawal,
            AutoCompounderCycle::Withdrawal => AutoCompounderCycle::Swap,
            AutoCompounderCycle::Swap => AutoCompounderCycle::Stake,
            AutoCompounderCycle::Stake => AutoCompounderCycle::ClaimReward,
        };
    }

    /// After a failed swap: accepts 4 points more slippage while the slippage
    /// is under `MAX_SLIPPAGE_ALLOWED`, and ends the farm otherwise.
    pub fn increase_slippage(&mut self)
        requires
            old(self).slippage <= 100,
        ensures
            final(self).slippage == slippage_after_failure(old(self).slippage as int),
            final(self).state == (if failure_ends_farm(old(self).slippage as int) {
                AutoCompounderState::Ended
            } else {
                old(self).state
            }),
            final(self).cycle_stage == old(self).cycle_stage,
            final(self).last_reward_amount == old(self).last_reward_amount,
            final(self).available_balance@ == old(self).available_balance@,
            final(self).id == old(self).id,
            final(self).reward_token == old(self).reward_token,
            final(self).pool_id_token1_reward == old(self).pool_id_token1_reward,
            final(self).pool_id_token2_reward == old(self).pool_id_token2_reward,
            final(self).last_fee_amount == old(self).last_fee_amount,
    {
        if 100u128 - self.slippage < MAX_SLIPPAGE_ALLOWED {
            self.slippage = self.slippage - 4;
        } else {
            self.state = AutoCompounderState::Ended;
        }
    }
}

impl StableStratFarmInfo {
    /// Moves to the next stage of the harvest.
    pub fn next_cycle(&mut self)
        ensures
            final(self).cycle_stage == next_stage(old(self).cycle_stage),
            final(self).state == old(self).state,
            final(self).slippage == old(self).slippage,
            final(self).last_reward_amount == old(self).last_reward_amount,
            final(self).available_balance@ == old(self).available_balance@,
            final(self).id == old(self).id,
            final(self).reward_token == old(self).reward_token,
            final(self).token_address == old(self).token_address,
            final(self).token_position == old(self).token_position,
            final(self).pool_id_token_reward == old(self).pool_id_token_reward,
            final(self).last_fee_amount == old(self).last_fee_amount,
    {
        self.cycle_stage = match self.cycle_stage {
            AutoCompounderCycle::ClaimReward => AutoCompounderCycle::Withdrawal,
            AutoCompounderCycle::Withdrawal => AutoCompounderCycle::Swap,
            AutoCompounderCycle::Swap => AutoCompounderCycle::Stake,
            AutoCompounderCycle::Stake => AutoCompounderCycle::ClaimReward,
        };
    }

    /// After a failed swap: accepts 4 points more slippage while the slippage
    /// is under `MAX_SLIPPAGE_ALLOWED`, and ends the farm otherwise.
    pub fn increase_slippage(&mut self)
        requires
            old(self).slippage <= 100,
        ensures
            final(self).slippage == slippage_after_failure(old(self).slippage as int),
            final(self).state == (if failure_ends_farm(old(self).slippage as int) {
                AutoCompounderState::Ended
            } else {
                old(self).state
            }),
            final(self).cycle_stage == old(self).cycle_stage,
            final(self).last_reward_amount == old(self).last_reward_amount,
            final(self).available_balance@ == old(self).available_balance@,
            final(self).id == old(self).id,
            final(self).reward_token == old(self).reward_token,
            final(self).token_address == old(self).token_address,
            final(self).token_position == old(self).token_position,
            final(self).pool_id_token_reward == old(self).pool_id_token_reward,
            final(self).last_fee_amount == old(self).last_fee_amount,
    {
        if 100u128 - self.slippage < MAX_SLIPPAGE_ALLOWED {
            self.slippage = self.slippage - 4;
        } else {
            self.state = AutoCompounderState::Ended;
        }
    }
}

impl JumboStratFarmInfo {
    /// Moves to the next stage of the harvest.
    pub fn next_cycle(&mut self)
        ensures
            final(self).cycle_stage == next_jumbo_stage(old(self).cycle_stage),
            final(self).state == old(self).state,
            final(self).slippage == old(self).slippage,
            final(self).last_reward_amount == old(self).last_reward_amount,
            final(self).current_shares_to_stake == old(self).current_shares_to_stake,
            final(self).available_balance@ == old(self).available_balance@,
            final(self).id == old(self).id,
            final(self).reward_token == old(self).reward_token,
            final(self).pool_id_token1_reward == old(self).pool_id_token1_reward,
            final(self).pool_id_token2_reward == old(self).pool_id_token2_reward,
            final(self).last_fee_amount == old(self).last_fee_amount,
    {
        self.cycle_stage = match self.cycle_stage {
            JumboAutoCompounderCycle::ClaimReward => JumboAutoCompounderCycle::Withdrawal,
            JumboAutoCompounderCycle::Withdrawal => JumboAutoCompounderCycle::SwapToken1,
            JumboAutoCompounderCycle::SwapToken1 => JumboAutoCompounderCycle::SwapToken2,
            JumboAutoCompounderCycle::SwapToken2 => JumboAutoCompounderCycle::Stake,
            JumboAutoCompounderCycle::Stake => JumboAutoCompounderCycle::ClaimReward,
        };
    }

    /// After a failed swap: accepts 4 points more slippage while the slippage
    /// is under `MAX_SLIPPAGE_ALLOWED`, and ends the farm otherwise.
    pub fn increase_slippage(&mut self)
        requires
            old(self).slippage <= 100,
        ensures
            final(self).slippage == slippage_after_failure(old(self).slippage as int),
            final(self).state == (if failure_ends_farm(old(self).slippage as int) {
                JumboAutoCompounderState::Ended
            } else {
                old(self).state
            }),
            final(self).cycle_stage == old(self).cycle_stage,
            final(self).last_reward_amount == old(self).last_reward_amount,
            final(self).current_shares_to_stake == old(self).current_shares_to_stake,
            final(self).available_balance@ == old(self).available_balance@,
            final(self).id == old(self).id,
            final(self).reward_token == old(self).reward_token,
            final(self).pool_id_token1_reward == old(self).pool_id_token1_reward,
            final(self).pool_id_token2_reward == old(self).pool_id_token2_reward,
            final(self).last_fee_amount == old(self).last_fee_amount,
    {
        if 100u128 - self.slippage < MAX_SLIPPAGE_ALLOWED {
            self.slippage = self.slippage - 4;
        } else {
            self.state = JumboAutoCompounderState::Ended;
        }
    }
}

impl PembStratFarmInfo {
    /// After a failed swap: accepts 4 points more slippage while the slippage
    /// is under `MAX_SLIPPAGE_ALLOWED`, and ends the strategy otherwise.
    pub fn increase_slippage(&mut self)
        requires
            old(self).slippage <= 100,
        ensures
            final(self).slippage == slippage_after_failure(old(self).slippage as int),
            final(self).state == (if failure_ends_farm(old(self).slippage as int) {
                PembAutoCompounderState::Ended
            } else {
                old(self).state
            }),
            final(self).cycle_stage == old(self).cycle_stage,
            final(self).last_reward_amount == old(self).last_reward_amount,
            final(self).available_balance == old(self).available_balance,
            final(self).reward_token == old(self).reward_token,
            final(self).pool_id_token1_reward == old(self).pool_id_token1_reward,
            final(self).last_fee_amount == old(self).last_fee_amount,
    {
        if 100u128 - self.slippage < MAX_SLIPPAGE_ALLOWED {
            self.slippage = self.slippage - 4;
        } else {
            self.state = PembAutoCompounderState::Ended;
        }
    }
}

/// `n` stages after `c` in the harvest of a Ref Finance farm.
pub open spec fn stage_after(c: AutoCompounderCycle, n: nat) -> AutoCompounderCycle
    decreases n,
{
    if n == 0 {
        c
    } else {
        next_stage(stage_after(c, (n - 1) as nat))
    }
}

/// `n` stages after `c` in the harvest of a Jumbo farm.
pub open spec fn jumbo_stage_after(c: JumboAutoCompounderCycle, n: nat) -> JumboAutoCompounderCycle
    decreases n,
{
    if n == 0 {
        c
    } else {
        next_jumbo_stage(jumbo_stage_after(c, (n - 1) as nat))
    }
}

/// The harvest of a Ref Finance farm is a cycle of four stages: four steps from
/// any stage come back to it, and fewer do not.
pub proof fn lemma_harvest_cycle_period(c: AutoCompounderCycle)
    ensures
        stage_after(c, 4) == c,
        stage_after(c, 1) != c,
        stage_after(c, 2) != c,
        stage_after(c, 3) != c,
{
    reveal_with_fuel(stage_after, 5);
}

/// The harvest of a Jumbo farm is a cycle of five stages: five steps from any
/// stage come back to it, and fewer do not.
pub proof fn lemma_jumbo_harvest_cycle_period(c: JumboAutoCompounderCycle)
    ensures
        jumbo_stage_after(c, 5) == c,
        jumbo_stage_after(c, 1) != c,
        jumbo_stage_after(c, 2) != c,
        jumbo_stage_after(c, 3) != c,
        jumbo_stage_after(c, 4) != c,
{
    reveal_with_fuel(jumbo_stage_after, 6);
}

/// The Pembrock harvest alternates between its two stages.
pub proof fn lemma_pemb_harvest_alternates(c: PembAutoCompounderCycle)
    ensures
        next_pemb_stage(next_pemb_stage(c)) == c,
        next_pemb_stage(c) != c,
{
}

/// Slippage tolerance after `n` failed swaps in a row, starting from `s`.
pub open spec fn slippage_after_failures(s: int, n: nat) -> int
    decreases n,
{
    if n == 0 {
        s
    } else {
        slippage_after_failure(slippage_after_failures(s, (n - 1) as nat))
    }
}

/// Failed swaps never lower the accepted minimum below 77 percent of the
/// quote, and from any tolerance of at most 100 the sixth failure in a row at
/// the latest ends the farm.
pub proof fn lemma_failures_end_farm(s: int)
    requires
        0 <= s <= 100,
    ensures
        forall|n: nat| slippage_after_failures(s, n) >= (if s < 77 { s } else { 77 }),
        exists|n: nat| n <= 5 && #[trigger] failure_ends_farm(slippage_after_failures(s, n)),
{
    assert forall|n: nat| slippage_after_failures(s, n) >= (if s < 77 { s } else { 77 }) by {
        lemma_failures_floor(s, n);
    }
    reveal_with_fuel(slippage_after_failures, 6);
    if failure_ends_farm(s) {
        assert(failure_ends_farm(slippage_after_failures(s, 0)));
    } else if failure_ends_farm(slippage_after_failures(s, 1)) {
    } else if failure_ends_farm(slippage_after_failures(s, 2)) {
    } else if failure_ends_farm(slippage_after_failures(s, 3)) {
    } else if failure_ends_farm(slippage_after_failures(s, 4)) {
    } else {
        assert(failure_ends_farm(slippage_after_failures(s, 5)));
    }
}

proof fn lemma_failures_floor(s: int, n: nat)
    requires
        0 <= s <= 100,
    ensures
        slippage_after_failures(s, n) >= (if s < 77 { s } else { 77 }),
        slippage_after_failures(s, n) <= s,
    decreases n,
{
    if n > 0 {
        lemma_failures_floor(s, (n - 1) as nat);
    }
}

/// The value of a [`StratFarmInfo`], with its texts and balances as sequences.
pub struct StratFarmView {
    pub state: AutoCompounderState,
    pub cycle_stage: AutoCompounderCycle,
    pub slippage: u128,
    pub last_reward_amount: u128,
    pub last_fee_amount: u128,
    pub pool_id_token1_reward: u64,
    pub pool_id_token2_reward: u64,
    pub reward_token: Seq<char>,
    pub available_balance: Seq<u128>,
    pub id: Seq<char>,
}

impl View for StratFarmInfo {
    type V = StratFarmView;

    open spec fn view(&self) -> StratFarmView {
        StratFarmView {
            state: self.state,
            cycle_stage: self.cycle_stage,
            slippage: self.slippage,
            last_reward_amount: self.last_reward_amount,
            last_fee_amount: self.last_fee_amount,
            pool_id_token1_reward: self.pool_id_token1_reward,
            pool_id_token2_reward: self.pool_id_token2_reward,
            reward_token: self.reward_token@,
            available_balance: self.available_balance@,
            id: self.id@,
        }
    }
}

/// The value of a [`StableStratFarmInfo`], with its texts and balances as sequences.
pub struct StableStratFarmView {
    pub state: AutoCompounderState,
    pub cycle_stage: AutoCompounderCycle,
    pub slippage: u128,
    pub last_reward_amount: u128,
    pub last_fee_amount: u128,
    pub token_address: Seq<char>,
    pub pool_id_token_reward: u64,
    pub token_position: u64,
    pub reward_token: Seq<char>,
    pub available_balance: Seq<u128>,
    pub id: Seq<char>,
}

impl View for StableStratFarmInfo {
    type V = StableStratFarmView;

    open spec fn view(&self) -> StableStratFarmView {
        StableStratFarmView {
            state: self.state,
            cycle_stage: self.cycle_stage,
            slippage: self.slippage,
            last_reward_amount: self.last_reward_amount,
            last_fee_amount: self.last_fee_amount,
            token_address: self.token_address@,
            pool_id_token_reward: self.pool_id_token_reward,
            token_position: self.token_position,
            reward_token: self.reward_token@,
            available_balance: self.available_balance@,
            id: self.id@,
        }
    }
}

/// The value of a [`JumboStratFarmInfo`], with its texts and balances as sequences.
pub struct JumboStratFarmView {
    pub state: JumboAutoCompounderState,
    pub cycle_stage: JumboAutoCompounderCycle,
    pub slippage: u128,
    pub last_reward_amount: u128,
    pub current_shares_to_stake: u128,
    pub last_fee_amount: u128,
    pub pool_id_token1_reward: u64,
    pub pool_id_token2_reward: u64,
    pub reward_token: Seq<char>,
    pub available_balance: Seq<u128>,
    pub id: Seq<char>,
}

impl View for JumboStratFarmInfo {
    type V = JumboStratFarmView;

    open spec fn view(&self) -> JumboStratFarmView {
        JumboStratFarmView {
            state: self.state,
            cycle_stage: self.cycle_stage,
            slippage: self.slippage,
            last_reward_amount: self.last_reward_amount,
            current_shares_to_stake: self.current_shares_to_stake,
            last_fee_amount: self.last_fee_amount,
            pool_id_token1_reward: self.pool_id_token1_reward,
            pool_id_token2_reward: self.pool_id_token2_reward,
            reward_token: self.reward_token@,
            available_balance: self.available_balance@,
            id: self.id@,
        }
    }
}

} // verus!
