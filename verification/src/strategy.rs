//! A strategy of the vault, of one of four kinds, and what the vault reads of
//! it.
use vstd::prelude::*;
use crate::compounder::{AutoCompounder, HarvestAction};
use crate::errors::SafeError;
use crate::farm::{
    AutoCompounderState, JumboAutoCompounderState, JumboStratFarmInfo, PembAutoCompounderCycle,
    PembAutoCompounderState, StableStratFarmInfo, StratFarmInfo,
};
use crate::fees::{AccountFee, AdminFees};
use crate::jumbo::JumboAutoCompounder;
use crate::pembrock::PembrockAutoCompounder;
use crate::stable::StableAutoCompounder;

verus! {

/// A strategy, of one of the kinds the vault knows.
pub enum VersionedStrategy {
    AutoCompounder(AutoCompounder),
    StableAutoCompounder(StableAutoCompounder),
    PembrockAutoCompounder(PembrockAutoCompounder),
    JumboAutoCompounder(JumboAutoCompounder),
}

/// The exchanges a strategy can stake on.
#[derive(PartialEq, Eq, Structural, Clone, Copy, Debug)]
pub enum SupportedExchanges {
    RefFinance,
    Jumbo,
}

/// What the vault tells of a strategy: its seed, whether a farm of it is
/// running, and the reward tokens of its farms.
pub struct AutoCompounderInfo {
    pub seed_id: String,
    pub is_active: bool,
    pub reward_tokens: Vec<String>,
}

/// The name of the kind of a strategy.
pub open spec fn kind_name(s: VersionedStrategy) -> Seq<char> {
    match s {
        VersionedStrategy::AutoCompounder(_) => seq!['R', 'E', 'F', '_', 'R', 'E', 'G', 'U', 'L', 'A', 'R'],
        VersionedStrategy::StableAutoCompounder(_) => seq!['R', 'E', 'F', '_', 'S', 'T', 'A', 'B', 'L', 'E'],
        VersionedStrategy::JumboAutoCompounder(_) => seq![
            'J', 'U', 'M', 'B', 'O', '_', 'R', 'E', 'G', 'U', 'L', 'A', 'R',
        ],
        VersionedStrategy::PembrockAutoCompounder(_) => seq!['P', 'E', 'M', 'B', 'R', 'O', 'C', 'K'],
    }
}

/// Whether a farm of the strategy (for Pembrock, the strategy itself) is
/// running.
pub open spec fn strategy_active(s: VersionedStrategy) -> bool {
    match s {
        VersionedStrategy::AutoCompounder(c) => exists|i: int| 0 <= i < c.farms@.len()
            && #[trigger] c.farms@[i].state == AutoCompounderState::Running,
        VersionedStrategy::StableAutoCompounder(c) => exists|i: int| 0 <= i < c.farms@.len()
            && #[trigger] c.farms@[i].state == AutoCompounderState::Running,
        VersionedStrategy::JumboAutoCompounder(c) => exists|i: int| 0 <= i < c.farms@.len()
            && #[trigger] c.farms@[i].state == JumboAutoCompounderState::Running,
        VersionedStrategy::PembrockAutoCompounder(p) => p.state == PembAutoCompounderState::Running,
    }
}

/// The reward tokens of the strategy's farms, in order (for Pembrock, its
/// reward token).
pub open spec fn reward_token_views(s: VersionedStrategy) -> Seq<Seq<char>> {
    match s {
        VersionedStrategy::AutoCompounder(c) => c.farms@.map_values(|f: crate::farm::StratFarmInfo| f.reward_token@),
        VersionedStrategy::StableAutoCompounder(c) => c.farms@.map_values(
            |f: crate::farm::StableStratFarmInfo| f.reward_token@,
        ),
        VersionedStrategy::JumboAutoCompounder(c) => c.farms@.map_values(
            |f: crate::farm::JumboStratFarmInfo| f.reward_token@,
        ),
        VersionedStrategy::PembrockAutoCompounder(p) => seq![p.reward_token@],
    }
}

/// The fees of the strategy.
pub open spec fn fees_of(s: VersionedStrategy) -> AdminFees {
    match s {
        VersionedStrategy::AutoCompounder(c) => c.admin_fees,
        VersionedStrategy::StableAutoCompounder(c) => c.admin_fees,
        VersionedStrategy::JumboAutoCompounder(c) => c.admin_fees,
        VersionedStrategy::PembrockAutoCompounder(p) => p.admin_fees,
    }
}

/// What a call of the harvest does to a strategy (`old` becoming `new`), by
/// its kind: see the `harvest_step` of each kind; Pembrock claims its rewards
/// or pays the sentry `predecessor`, by its stage.
pub open spec fn harvest_proxy_step(
    old: VersionedStrategy,
    new: VersionedStrategy,
    farm_id: Seq<char>,
    seed_id: Seq<char>,
    treasure: AccountFee,
    current_account: Seq<char>,
    predecessor: Seq<char>,
    res: Result<HarvestAction, SafeError>,
) -> bool {
    match old {
        VersionedStrategy::AutoCompounder(c) => new == old && c.harvest_step(
            farm_id,
            seed_id,
            treasure,
            current_account,
            predecessor,
            res,
        ),
        VersionedStrategy::StableAutoCompounder(c) => (new matches VersionedStrategy::StableAutoCompounder(n)
            && StableAutoCompounder::harvest_step(
            c,
            n,
            farm_id,
            seed_id,
            treasure,
            current_account,
            predecessor,
            res,
        )),
        VersionedStrategy::JumboAutoCompounder(c) => new == old && c.harvest_step(
            farm_id,
            seed_id,
            treasure,
            current_account,
            predecessor,
            res,
        ),
        VersionedStrategy::PembrockAutoCompounder(p) => new == old && match p.cycle_stage {
            PembAutoCompounderCycle::ClaimReward => res matches Ok(HarvestAction::PembrockClaim),
            PembAutoCompounderCycle::SwapAndLend => (res matches Ok(
                HarvestAction::SentryStorage { sentry, reward_token },
            ) && sentry@ == predecessor && reward_token@ == p.reward_token@),
        },
    }
}

impl VersionedStrategy {
    /// Well-formedness of the strategy of each kind.
    pub open spec fn wf(&self) -> bool {
        match *self {
            VersionedStrategy::AutoCompounder(c) => c.wf(),
            VersionedStrategy::StableAutoCompounder(c) => c.wf(),
            VersionedStrategy::JumboAutoCompounder(c) => c.wf(),
            VersionedStrategy::PembrockAutoCompounder(p) => p.wf(),
        }
    }

    /// The kind of the strategy: `REF_REGULAR`, `REF_STABLE`, `JUMBO_REGULAR`
    /// or `PEMBROCK`.
    pub fn kind(&self) -> (res: String)
        ensures
            res@ == kind_name(*self),
    {
        match self {
            VersionedStrategy::AutoCompounder(_) => {
                let r = String::from_str("REF_REGULAR");
                proof {
                    reveal_strlit("REF_REGULAR");
                }
                assert(r@ =~= kind_name(*self));
                r
            },
            VersionedStrategy::StableAutoCompounder(_) => {
                let r = String::from_str("REF_STABLE");
                proof {
                    reveal_strlit("REF_STABLE");
                }
                assert(r@ =~= kind_name(*self));
                r
            },
            VersionedStrategy::JumboAutoCompounder(_) => {
                let r = String::from_str("JUMBO_REGULAR");
                proof {
                    reveal_strlit("JUMBO_REGULAR");
                }
                assert(r@ =~= kind_name(*self));
                r
            },
            VersionedStrategy::PembrockAutoCompounder(_) => {
                let r = String::from_str("PEMBROCK");
                proof {
                    reveal_strlit("PEMBROCK");
                }
                assert(r@ =~= kind_name(*self));
                r
            },
        }
    }

    /// Whether a farm of the strategy is running.
    pub fn is_active(&self) -> (res: bool)
        ensures
            res == strategy_active(*self),
    {
        match self {
            VersionedStrategy::AutoCompounder(c) => {
                let mut i: usize = 0;
                while i < c.farms.len()
                    invariant
                        *self == VersionedStrategy::AutoCompounder(*c),
                        i <= c.farms@.len(),
                        forall|j: int| 0 <= j < i ==> #[trigger] c.farms@[j].state != AutoCompounderState::Running,
                    decreases c.farms@.len() - i,
                {
                    if c.farms[i].state == AutoCompounderState::Running {
                        assert(c.farms@[i as int].state == AutoCompounderState::Running);
                        return true;
                    }
                    i = i + 1;
                }
                false
            },
            VersionedStrategy::StableAutoCompounder(c) => {
                let mut i: usize = 0;
                while i < c.farms.len()
                    invariant
                        *self == VersionedStrategy::StableAutoCompounder(*c),
                        i <= c.farms@.len(),
                        forall|j: int| 0 <= j < i ==> #[trigger] c.farms@[j].state != AutoCompounderState::Running,
                    decreases c.farms@.len() - i,
                {
                    if c.farms[i].state == AutoCompounderState::Running {
                        assert(c.farms@[i as int].state == AutoCompounderState::Running);
                        return true;
                    }
                    i = i + 1;
                }
                false
            },
            VersionedStrategy::JumboAutoCompounder(c) => {
                let mut i: usize = 0;
                while i < c.farms.len()
                    invariant
                        *self == VersionedStrategy::JumboAutoCompounder(*c),
                        i <= c.farms@.len(),
                        forall|j: int| 0 <= j < i ==> #[trigger] c.farms@[j].state
                            != JumboAutoCompounderState::Running,
                    decreases c.farms@.len() - i,
                {
                    if c.farms[i].state == JumboAutoCompounderState::Running {
                        assert(c.farms@[i as int].state == JumboAutoCompounderState::Running);
                        return true;
                    }
                    i = i + 1;
                }
                false
            },
            VersionedStrategy::PembrockAutoCompounder(p) => p.state == PembAutoCompounderState::Running,
        }
    }

    /// The reward tokens of the strategy's farms, in order.
    pub fn reward_tokens(&self) -> (res: Vec<String>)
        ensures
            res@.len() == reward_token_views(*self).len(),
            forall|i: int| 0 <= i < res@.len() ==> #[trigger] res@[i]@ == reward_token_views(*self)[i],
    {
        let mut out: Vec<String> = Vec::new();
        match self {
            VersionedStrategy::AutoCompounder(c) => {
                let mut i: usize = 0;
                while i < c.farms.len()
                    invariant
                        i <= c.farms@.len(),
                        out@.len() == i,
                        forall|j: int| 0 <= j < i ==> #[trigger] out@[j]@ == c.farms@[j].reward_token@,
                    decreases c.farms@.len() - i,
                {
                    out.push(c.farms[i].reward_token.clone());
                    i = i + 1;
                }
            },
            VersionedStrategy::StableAutoCompounder(c) => {
                let mut i: usize = 0;
                while i < c.farms.len()
                    invariant
                        i <= c.farms@.len(),
                        out@.len() == i,
                        forall|j: int| 0 <= j < i ==> #[trigger] out@[j]@ == c.farms@[j].reward_token@,
                    decreases c.farms@.len() - i,
                {
                    out.push(c.farms[i].reward_token.clone());
                    i = i + 1;
                }
            },
            VersionedStrategy::JumboAutoCompounder(c) => {
                let mut i: usize = 0;
                while i < c.farms.len()
                    invariant
                        i <= c.farms@.len(),
                        out@.len() == i,
                        forall|j: int| 0 <= j < i ==> #[trigger] out@[j]@ == c.farms@[j].reward_token@,
                    decreases c.farms@.len() - i,
                {
                    out.push(c.farms[i].reward_token.clone());
                    i = i + 1;
                }
            },
            VersionedStrategy::PembrockAutoCompounder(p) => {
                out.push(p.reward_token.clone());
            },
        }
        out
    }

    /// What the vault tells of the strategy of seed `seed_id`.
    pub fn info(&self, seed_id: String) -> (res: AutoCompounderInfo)
        ensures
            res.seed_id == seed_id,
            res.is_active == strategy_active(*self),
            res.reward_tokens@.len() == reward_token_views(*self).len(),
            forall|i: int| 0 <= i < res.reward_tokens@.len() ==> #[trigger] res.reward_tokens@[i]@
                == reward_token_views(*self)[i],
    {
        AutoCompounderInfo { seed_id, is_active: self.is_active(), reward_tokens: self.reward_tokens() }
    }

    /// The number of farms of the strategy (one for Pembrock).
    pub fn farm_count(&self) -> (res: usize)
        ensures
            res == reward_token_views(*self).len(),
    {
        match self {
            VersionedStrategy::AutoCompounder(c) => c.farms.len(),
            VersionedStrategy::StableAutoCompounder(c) => c.farms.len(),
            VersionedStrategy::JumboAutoCompounder(c) => c.farms.len(),
            VersionedStrategy::PembrockAutoCompounder(_) => 1,
        }
    }

    /// The strategy's fee, in percent.
    pub fn strategy_fee(&self) -> (res: u128)
        ensures
            res == fees_of(*self).strategy_fee,
    {
        match self {
            VersionedStrategy::AutoCompounder(c) => c.admin_fees.strategy_fee,
            VersionedStrategy::StableAutoCompounder(c) => c.admin_fees.strategy_fee,
            VersionedStrategy::JumboAutoCompounder(c) => c.admin_fees.strategy_fee,
            VersionedStrategy::PembrockAutoCompounder(p) => p.admin_fees.strategy_fee,
        }
    }

    /// The least amount the strategy's farm accepts to stake (none for
    /// Pembrock).
    pub fn seed_min_deposit(&self) -> (res: u128)
        ensures
            res == match *self {
                VersionedStrategy::AutoCompounder(c) => c.seed_min_deposit,
                VersionedStrategy::StableAutoCompounder(c) => c.seed_min_deposit,
                VersionedStrategy::JumboAutoCompounder(c) => c.seed_min_deposit,
                VersionedStrategy::PembrockAutoCompounder(_) => 0,
            },
    {
        match self {
            VersionedStrategy::AutoCompounder(c) => c.seed_min_deposit,
            VersionedStrategy::StableAutoCompounder(c) => c.seed_min_deposit,
            VersionedStrategy::JumboAutoCompounder(c) => c.seed_min_deposit,
            VersionedStrategy::PembrockAutoCompounder(_) => 0,
        }
    }

    /// When the strategy was last harvested.
    pub fn harvest_timestamp(&self) -> (res: u64)
        ensures
            res == match *self {
                VersionedStrategy::AutoCompounder(c) => c.harvest_timestamp,
                VersionedStrategy::StableAutoCompounder(c) => c.harvest_timestamp,
                VersionedStrategy::JumboAutoCompounder(c) => c.harvest_timestamp,
                VersionedStrategy::PembrockAutoCompounder(p) => p.harvest_timestamp,
            },
    {
        match self {
            VersionedStrategy::AutoCompounder(c) => c.harvest_timestamp,
            VersionedStrategy::StableAutoCompounder(c) => c.harvest_timestamp,
            VersionedStrategy::JumboAutoCompounder(c) => c.harvest_timestamp,
            VersionedStrategy::PembrockAutoCompounder(p) => p.harvest_timestamp,
        }
    }

    /// A call of the harvest, by the strategy's kind and the stage of the farm
    /// `farm_id` (of the seed `seed_id`; for Pembrock the strategy's own
    /// stage): see the `harvest_step` of each kind. `current_account` is the
    /// vault's account and `predecessor` the caller, the sentry.
    pub fn harvest_proxy(
        &mut self,
        farm_id: &String,
        seed_id: &String,
        treasure: &AccountFee,
        current_account: &String,
        predecessor: &String,
    ) -> (res: Result<HarvestAction, SafeError>)
        requires
            old(self).wf(),
        ensures
            final(self).wf(),
            harvest_proxy_step(
                *old(self),
                *final(self),
                farm_id@,
                seed_id@,
                *treasure,
                current_account@,
                predecessor@,
                res,
            ),
    {
        match self {
            VersionedStrategy::AutoCompounder(c) => c.harvest(farm_id, seed_id, treasure, current_account, predecessor),
            VersionedStrategy::StableAutoCompounder(c) => c.harvest(
                farm_id,
                seed_id,
                treasure,
                current_account,
                predecessor,
            ),
            VersionedStrategy::JumboAutoCompounder(c) => c.harvest(
                farm_id,
                seed_id,
                treasure,
                current_account,
                predecessor,
            ),
            VersionedStrategy::PembrockAutoCompounder(p) => match p.cycle_stage {
                PembAutoCompounderCycle::ClaimReward => Ok(HarvestAction::PembrockClaim),
                PembAutoCompounderCycle::SwapAndLend => Ok(
                    HarvestAction::SentryStorage { sentry: predecessor.clone(), reward_token: p.reward_token.clone() },
                ),
            },
        }
    }
}


/// A farm as the farm contract describes it.
pub struct FarmInfo {
    pub farm_id: String,
    pub farm_kind: String,
    pub farm_status: String,
    pub seed_id: String,
    pub reward_token: String,
    pub start_at: u32,
    pub reward_per_session: u128,
    pub session_interval: u32,
    pub total_reward: u128,
    pub cur_round: u32,
    pub last_round: u32,
    pub claimed_reward: u128,
    pub unclaimed_reward: u128,
    pub beneficiary_reward: u128,
}

/// The exchange's account of the storage it holds for the vault.
pub struct RefStorageState {
    pub deposit: u128,
    pub usage: u128,
}

/// The contracts the vault works with.
pub struct SafeInfo {
    pub exchange_address: String,
    pub farm_address: String,
}

/// The id and status of each farm the farm contract lists, in order.
pub fn farm_statuses(farms: &Vec<FarmInfo>) -> (res: Vec<(String, String)>)
    ensures
        res@.len() == farms@.len(),
        forall|i: int| 0 <= i < res@.len() ==> (#[trigger] res@[i]).0@ == farms@[i].farm_id@ && res@[i].1@
            == farms@[i].farm_status@,
{
    let mut out: Vec<(String, String)> = Vec::new();
    let mut i: usize = 0;
    while i < farms.len()
        invariant
            i <= farms@.len(),
            out@.len() == i,
            forall|j: int| 0 <= j < i ==> (#[trigger] out@[j]).0@ == farms@[j].farm_id@ && out@[j].1@
                == farms@[j].farm_status@,
        decreases farms@.len() - i,
    {
        out.push((farms[i].farm_id.clone(), farms[i].farm_status.clone()));
        i = i + 1;
    }
    out
}


/// A copy of a list of farms.
fn copy_ref_farms(v: &Vec<StratFarmInfo>) -> (res: Vec<StratFarmInfo>)
    ensures
        res@.len() == v@.len(),
        forall|i: int| 0 <= i < v@.len() ==> (#[trigger] res@[i])@ == v@[i]@,
{
    let mut out: Vec<StratFarmInfo> = Vec::new();
    let mut i: usize = 0;
    while i < v.len()
        invariant
            i <= v@.len(),
            out@.len() == i,
            forall|j: int| 0 <= j < i ==> (#[trigger] out@[j])@ == v@[j]@,
        decreases v@.len() - i,
    {
        out.push(v[i].duplicate());
        i = i + 1;
    }
    out
}

impl AutoCompounder {
    /// Whether `other` is the same strategy: the same fees, owed to the same
    /// accounts, and farms of the same values.
    pub open spec fn same_as(&self, other: AutoCompounder) -> bool {
        &&& self.admin_fees.same_as(other.admin_fees)
        &&& self.farms@.len() == other.farms@.len()
        &&& forall|i: int| 0 <= i < self.farms@.len() ==> (#[trigger] self.farms@[i])@ == other.farms@[i]@
        &&& AutoCompounder { admin_fees: other.admin_fees, farms: other.farms, ..*self } == other
    }

    /// A copy of the strategy.
    pub fn duplicate(&self) -> (res: Self)
        requires
            self.wf(),
        ensures
            res.same_as(*self),
            res.wf(),
    {
        let res = AutoCompounder {
            admin_fees: self.admin_fees.duplicate(),
            exchange_contract_id: self.exchange_contract_id.clone(),
            farm_contract_id: self.farm_contract_id.clone(),
            token1_address: self.token1_address.clone(),
            token2_address: self.token2_address.clone(),
            pool_id: self.pool_id,
            seed_min_deposit: self.seed_min_deposit,
            seed_id: self.seed_id.clone(),
            farms: copy_ref_farms(&self.farms),
            harvest_timestamp: self.harvest_timestamp,
        };
        assert forall|i: int| 0 <= i < res.farms@.len() implies (#[trigger] res.farms@[i])@ == self.farms@[i]@ by {}
        res
    }
}

/// A copy of a list of farms.
fn copy_stable_farms(v: &Vec<StableStratFarmInfo>) -> (res: Vec<StableStratFarmInfo>)
    ensures
        res@.len() == v@.len(),
        forall|i: int| 0 <= i < v@.len() ==> (#[trigger] res@[i])@ == v@[i]@,
{
    let mut out: Vec<StableStratFarmInfo> = Vec::new();
    let mut i: usize = 0;
    while i < v.len()
        invariant
            i <= v@.len(),
            out@.len() == i,
            forall|j: int| 0 <= j < i ==> (#[trigger] out@[j])@ == v@[j]@,
        decreases v@.len() - i,
    {
        out.push(v[i].duplicate());
        i = i + 1;
    }
    out
}

impl StableAutoCompounder {
    /// Whether `other` is the same strategy: the same fees, owed to the same
    /// accounts, and farms of the same values.
    pub open spec fn same_as(&self, other: StableAutoCompounder) -> bool {
        &&& self.admin_fees.same_as(other.admin_fees)
        &&& self.farms@.len() == other.farms@.len()
        &&& forall|i: int| 0 <= i < self.farms@.len() ==> (#[trigger] self.farms@[i])@ == other.farms@[i]@
        &&& StableAutoCompounder { admin_fees: other.admin_fees, farms: other.farms, ..*self } == other
    }

    /// A copy of the strategy.
    pub fn duplicate(&self) -> (res: Self)
        requires
            self.wf(),
        ensures
            res.same_as(*self),
            res.wf(),
    {
        let res = StableAutoCompounder {
            admin_fees: self.admin_fees.duplicate(),
            exchange_contract_id: self.exchange_contract_id.clone(),
            farm_contract_id: self.farm_contract_id.clone(),
            pool_id: self.pool_id,
            seed_min_deposit: self.seed_min_deposit,
            seed_id: self.seed_id.clone(),
            farms: copy_stable_farms(&self.farms),
            harvest_timestamp: self.harvest_timestamp,
        };
        assert forall|i: int| 0 <= i < res.farms@.len() implies (#[trigger] res.farms@[i])@ == self.farms@[i]@ by {}
        res
    }
}

/// A copy of a list of farms.
fn copy_jumbo_farms(v: &Vec<JumboStratFarmInfo>) -> (res: Vec<JumboStratFarmInfo>)
    ensures
        res@.len() == v@.len(),
        forall|i: int| 0 <= i < v@.len() ==> (#[trigger] res@[i])@ == v@[i]@,
{
    let mut out: Vec<JumboStratFarmInfo> = Vec::new();
    let mut i: usize = 0;
    while i < v.len()
        invariant
            i <= v@.len(),
            out@.len() == i,
            forall|j: int| 0 <= j < i ==> (#[trigger] out@[j])@ == v@[j]@,
        decreases v@.len() - i,
    {
        out.push(v[i].duplicate());
        i = i + 1;
    }
    out
}

impl JumboAutoCompounder {
    /// Whether `other` is the same strategy: the same fees, owed to the same
    /// accounts, and farms of the same values.
    pub open spec fn same_as(&self, other: JumboAutoCompounder) -> bool {
        &&& self.admin_fees.same_as(other.admin_fees)
        &&& self.farms@.len() == other.farms@.len()
        &&& forall|i: int| 0 <= i < self.farms@.len() ==> (#[trigger] self.farms@[i])@ == other.farms@[i]@
        &&& JumboAutoCompounder { admin_fees: other.admin_fees, farms: other.farms, ..*self } == other
    }

    /// A copy of the strategy.
    pub fn duplicate(&self) -> (res: Self)
        requires
            self.wf(),
        ensures
            res.same_as(*self),
            res.wf(),
    {
        let res = JumboAutoCompounder {
            admin_fees: self.admin_fees.duplicate(),
            exchange_contract_id: self.exchange_contract_id.clone(),
            farm_contract_id: self.farm_contract_id.clone(),
            token1_address: self.token1_address.clone(),
            token2_address: self.token2_address.clone(),
            pool_id: self.pool_id,
            seed_min_deposit: self.seed_min_deposit,
            seed_id: self.seed_id.clone(),
            farms: copy_jumbo_farms(&self.farms),
            harvest_timestamp: self.harvest_timestamp,
        };
        assert forall|i: int| 0 <= i < res.farms@.len() implies (#[trigger] res.farms@[i])@ == self.farms@[i]@ by {}
        res
    }
}

impl VersionedStrategy {
    /// Whether `other` is the same strategy, of the same kind.
    pub open spec fn same_as(&self, other: VersionedStrategy) -> bool {
        match (*self, other) {
            (VersionedStrategy::AutoCompounder(a), VersionedStrategy::AutoCompounder(b)) => a.same_as(b),
            (VersionedStrategy::StableAutoCompounder(a), VersionedStrategy::StableAutoCompounder(b)) => a.same_as(b),
            (VersionedStrategy::JumboAutoCompounder(a), VersionedStrategy::JumboAutoCompounder(b)) => a.same_as(b),
            (VersionedStrategy::PembrockAutoCompounder(a), VersionedStrategy::PembrockAutoCompounder(b)) => a.same_as(b),
            _ => false,
        }
    }

    /// The strategy in its current version: a copy of it, as every kind is
    /// current.
    pub fn upgrade(&self) -> (res: Self)
        requires
            self.wf(),
        ensures
            res.same_as(*self),
            res.wf(),
    {
        match self {
            VersionedStrategy::AutoCompounder(c) => VersionedStrategy::AutoCompounder(c.duplicate()),
            VersionedStrategy::StableAutoCompounder(c) => VersionedStrategy::StableAutoCompounder(c.duplicate()),
            VersionedStrategy::JumboAutoCompounder(c) => VersionedStrategy::JumboAutoCompounder(c.duplicate()),
            VersionedStrategy::PembrockAutoCompounder(p) => VersionedStrategy::PembrockAutoCompounder(p.duplicate()),
        }
    }

    /// Whether the strategy must be upgraded: never, as every kind is current.
    pub fn need_upgrade(&self) -> (res: bool)
        ensures
            !res,
    {
        false
    }
}

} // verus!
