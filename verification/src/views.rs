//! What the vault shows of its strategies: every unit a sentry can harvest,
//! the farms of each exchange, and the state of a single farm.
use vstd::prelude::*;
use crate::compounder::{first_farm, has_farm, lemma_first_farm, lemma_no_farm};
use crate::errors::SafeError;
use crate::farm::{
    AutoCompounderState, JumboAutoCompounderState, JumboStratFarmInfo, JumboStratFarmView,
    PembAutoCompounderState, StableStratFarmInfo, StableStratFarmView, StratFarmInfo, StratFarmView,
};
use crate::pembrock::PembrockAutoCompounder;
use crate::fees::AdminFees;
use crate::ids::{farm_farm_id, farm_id_str_of, farm_seed_id, get_ids_from_farm, is_farm_id, is_farm_id_spec, joined};
use crate::safe::Contract;
use crate::strategy::{fees_of, kind_name, reward_token_views, VersionedStrategy};
use crate::strmap::lemma_map_of_value;

verus! {

/// A unit a sentry can harvest: a farm of an exchange strategy (named by its
/// seed and farm id) or a Pembrock strategy (named by its strategy name).
pub struct StrategyInfo {
    pub strat_kind: String,
    pub seed_id: Option<String>,
    pub strat_name: Option<String>,
    pub farm_id_str: Option<String>,
    pub is_active: bool,
    pub reward_tokens: String,
    pub fees: Option<AdminFees>,
}

/// How many units a strategy has: its farms, or one for a Pembrock strategy.
pub open spec fn unit_count(s: VersionedStrategy) -> nat {
    reward_token_views(s).len()
}

/// How many units the first `i` strategies have together.
pub open spec fn units_before(entries: Seq<(String, VersionedStrategy)>, i: int) -> nat
    decreases i,
{
    if i <= 0 {
        0
    } else {
        units_before(entries, i - 1) + unit_count(entries[i - 1].1)
    }
}

/// The element `j` places after `base`.
pub open spec fn at_offset(s: Seq<StrategyInfo>, base: int, j: int) -> StrategyInfo {
    s[base + j]
}

/// `info` describes the unit `j` of the strategy `s` kept under `key`.
pub open spec fn unit_info(info: StrategyInfo, key: Seq<char>, s: VersionedStrategy, j: int) -> bool {
    &&& info.strat_kind@ == kind_name(s)
    &&& info.reward_tokens@ == reward_token_views(s)[j]
    &&& info.fees matches Some(f) && f.same_as(fees_of(s))
    &&& match s {
        VersionedStrategy::AutoCompounder(c) => {
            &&& info.seed_id matches Some(x) && x@ == key
            &&& info.strat_name is None
            &&& info.farm_id_str matches Some(x) && x@ == joined(key, '#', c.farms@[j].id@)
            &&& info.is_active == (c.farms@[j].state == AutoCompounderState::Running)
        },
        VersionedStrategy::StableAutoCompounder(c) => {
            &&& info.seed_id matches Some(x) && x@ == key
            &&& info.strat_name is None
            &&& info.farm_id_str matches Some(x) && x@ == joined(key, '#', c.farms@[j].id@)
            &&& info.is_active == (c.farms@[j].state == AutoCompounderState::Running)
        },
        VersionedStrategy::JumboAutoCompounder(c) => {
            &&& info.seed_id matches Some(x) && x@ == key
            &&& info.strat_name is None
            &&& info.farm_id_str matches Some(x) && x@ == joined(key, '#', c.farms@[j].id@)
            &&& info.is_active == (c.farms@[j].state == JumboAutoCompounderState::Running)
        },
        VersionedStrategy::PembrockAutoCompounder(p) => {
            &&& info.seed_id is None
            &&& info.strat_name matches Some(x) && x@ == key
            &&& info.farm_id_str is None
            &&& info.is_active == (p.state == PembAutoCompounderState::Running)
        },
    }
}

/// Appends the units of the strategy `s` kept under `key`.
fn push_units(key: &String, s: &VersionedStrategy, out: &mut Vec<StrategyInfo>)
    requires
        s.wf(),
    ensures
        final(out)@.len() == old(out)@.len() + unit_count(*s),
        forall|k: int| 0 <= k < old(out)@.len() ==> #[trigger] final(out)@[k] == old(out)@[k],
        forall|j: int|
            0 <= j < unit_count(*s) ==> unit_info(#[trigger] at_offset(final(out)@, old(out)@.len() as int, j), key@, *s, j),
{
    let ghost base = old(out)@.len() as int;
    match s {
        VersionedStrategy::AutoCompounder(c) => {
            let mut j: usize = 0;
            while j < c.farms.len()
                invariant
                    *s == VersionedStrategy::AutoCompounder(*c),
                    c.wf(),
                    j <= c.farms@.len(),
                    base == old(out)@.len(),
                    out@.len() == base + j,
                    forall|k: int| 0 <= k < base ==> #[trigger] out@[k] == old(out)@[k],
                    forall|i: int| 0 <= i < j ==> unit_info(#[trigger] at_offset(out@, base, i), key@, *s, i),
                decreases c.farms@.len() - j,
            {
                let f = &c.farms[j];
                let info = StrategyInfo {
                    strat_kind: s.kind(),
                    seed_id: Some(key.clone()),
                    strat_name: None,
                    farm_id_str: Some(farm_id_str_of(key.as_str(), f.id.as_str())),
                    is_active: f.state == AutoCompounderState::Running,
                    reward_tokens: f.reward_token.clone(),
                    fees: Some(c.admin_fees.duplicate()),
                };
                let ghost prev = out@;
                out.push(info);
                assert forall|i: int| 0 <= i < j + 1 implies unit_info(#[trigger] at_offset(out@, base, i), key@, *s, i) by {
                    if i < j {
                        assert(at_offset(out@, base, i) == at_offset(prev, base, i));
                    }
                }
                j = j + 1;
            }
        },
        VersionedStrategy::StableAutoCompounder(c) => {
            let mut j: usize = 0;
            while j < c.farms.len()
                invariant
                    *s == VersionedStrategy::StableAutoCompounder(*c),
                    c.wf(),
                    j <= c.farms@.len(),
                    base == old(out)@.len(),
                    out@.len() == base + j,
                    forall|k: int| 0 <= k < base ==> #[trigger] out@[k] == old(out)@[k],
                    forall|i: int| 0 <= i < j ==> unit_info(#[trigger] at_offset(out@, base, i), key@, *s, i),
                decreases c.farms@.len() - j,
            {
                let f = &c.farms[j];
                let info = StrategyInfo {
                    strat_kind: s.kind(),
                    seed_id: Some(key.clone()),
                    strat_name: None,
                    farm_id_str: Some(farm_id_str_of(key.as_str(), f.id.as_str())),
                    is_active: f.state == AutoCompounderState::Running,
                    reward_tokens: f.reward_token.clone(),
                    fees: Some(c.admin_fees.duplicate()),
                };
                let ghost prev = out@;
                out.push(info);
                assert forall|i: int| 0 <= i < j + 1 implies unit_info(#[trigger] at_offset(out@, base, i), key@, *s, i) by {
                    if i < j {
                        assert(at_offset(out@, base, i) == at_offset(prev, base, i));
                    }
                }
                j = j + 1;
            }
        },
        VersionedStrategy::JumboAutoCompounder(c) => {
            let mut j: usize = 0;
            while j < c.farms.len()
                invariant
                    *s == VersionedStrategy::JumboAutoCompounder(*c),
                    c.wf(),
                    j <= c.farms@.len(),
                    base == old(out)@.len(),
                    out@.len() == base + j,
                    forall|k: int| 0 <= k < base ==> #[trigger] out@[k] == old(out)@[k],
                    forall|i: int| 0 <= i < j ==> unit_info(#[trigger] at_offset(out@, base, i), key@, *s, i),
                decreases c.farms@.len() - j,
            {
                let f = &c.farms[j];
                let info = StrategyInfo {
                    strat_kind: s.kind(),
                    seed_id: Some(key.clone()),
                    strat_name: None,
                    farm_id_str: Some(farm_id_str_of(key.as_str(), f.id.as_str())),
                    is_active: f.state == JumboAutoCompounderState::Running,
                    reward_tokens: f.reward_token.clone(),
                    fees: Some(c.admin_fees.duplicate()),
                };
                let ghost prev = out@;
                out.push(info);
                assert forall|i: int| 0 <= i < j + 1 implies unit_info(#[trigger] at_offset(out@, base, i), key@, *s, i) by {
                    if i < j {
                        assert(at_offset(out@, base, i) == at_offset(prev, base, i));
                    }
                }
                j = j + 1;
            }
        },
        VersionedStrategy::PembrockAutoCompounder(p) => {
            let info = StrategyInfo {
                strat_kind: s.kind(),
                seed_id: None,
                strat_name: Some(key.clone()),
                farm_id_str: None,
                is_active: p.state == PembAutoCompounderState::Running,
                reward_tokens: p.reward_token.clone(),
                fees: Some(p.admin_fees.duplicate()),
            };
            out.push(info);
            assert(unit_info(at_offset(out@, base, 0), key@, *s, 0));
        },
    }
}

/// The farms of the Ref Finance strategies over two-token pools among
/// `entries`, strategy by strategy.
pub open spec fn ref_farm_views(entries: Seq<(String, VersionedStrategy)>) -> Seq<StratFarmView>
    decreases entries.len(),
{
    if entries.len() == 0 {
        Seq::empty()
    } else {
        ref_farm_views(entries.drop_last()) + match entries.last().1 {
            VersionedStrategy::AutoCompounder(c) => c.farms@.map_values(|f: StratFarmInfo| f@),
            _ => Seq::empty(),
        }
    }
}

/// The farms of the Ref Finance strategies over stable pools among
/// `entries`, strategy by strategy.
pub open spec fn stable_farm_views(entries: Seq<(String, VersionedStrategy)>) -> Seq<StableStratFarmView>
    decreases entries.len(),
{
    if entries.len() == 0 {
        Seq::empty()
    } else {
        stable_farm_views(entries.drop_last()) + match entries.last().1 {
            VersionedStrategy::StableAutoCompounder(c) => c.farms@.map_values(|f: StableStratFarmInfo| f@),
            _ => Seq::empty(),
        }
    }
}

/// The farms of the Jumbo strategies among `entries`, strategy by strategy.
pub open spec fn jumbo_farm_views(entries: Seq<(String, VersionedStrategy)>) -> Seq<JumboStratFarmView>
    decreases entries.len(),
{
    if entries.len() == 0 {
        Seq::empty()
    } else {
        jumbo_farm_views(entries.drop_last()) + match entries.last().1 {
            VersionedStrategy::JumboAutoCompounder(c) => c.farms@.map_values(|f: JumboStratFarmInfo| f@),
            _ => Seq::empty(),
        }
    }
}

/// The Pembrock strategies among `entries`, in order.
pub open spec fn pembrock_strategies(entries: Seq<(String, VersionedStrategy)>) -> Seq<PembrockAutoCompounder>
    decreases entries.len(),
{
    if entries.len() == 0 {
        Seq::empty()
    } else {
        pembrock_strategies(entries.drop_last()) + match entries.last().1 {
            VersionedStrategy::PembrockAutoCompounder(p) => seq![p],
            _ => Seq::empty(),
        }
    }
}

/// The state of the farm that `farm_id_str` names, for a Ref Finance
/// strategy of either pool kind; the errors of a malformed name, a missing
/// strategy or farm, and a strategy of another kind.
pub open spec fn ref_state_is(c: Contract, farm_id_str: Seq<char>, res: Result<AutoCompounderState, SafeError>) -> bool {
    if !is_farm_id_spec(farm_id_str) {
        res == Err::<AutoCompounderState, SafeError>(SafeError::InvalidFarmId)
    } else {
        let seed = farm_seed_id(farm_id_str);
        let farm_id = farm_farm_id(farm_id_str);
        if !c.strategies@.dom().contains(seed) {
            res == Err::<AutoCompounderState, SafeError>(SafeError::StrategyDoesNotExist)
        } else {
            match c.strategies@[seed] {
                VersionedStrategy::AutoCompounder(a) => if has_farm(a.farm_ids(), farm_id) {
                    res == Ok::<AutoCompounderState, SafeError>(a.farms@[first_farm(a.farm_ids(), farm_id)].state)
                } else {
                    res == Err::<AutoCompounderState, SafeError>(SafeError::FarmDoesNotExist)
                },
                VersionedStrategy::StableAutoCompounder(a) => if has_farm(a.farm_ids(), farm_id) {
                    res == Ok::<AutoCompounderState, SafeError>(a.farms@[first_farm(a.farm_ids(), farm_id)].state)
                } else {
                    res == Err::<AutoCompounderState, SafeError>(SafeError::FarmDoesNotExist)
                },
                _ => res == Err::<AutoCompounderState, SafeError>(SafeError::WrongStrategyKind),
            }
        }
    }
}

/// The state of the farm that `farm_id_str` names, for a Jumbo strategy; the
/// errors as for [`ref_state_is`].
pub open spec fn jumbo_state_is(
    c: Contract,
    farm_id_str: Seq<char>,
    res: Result<JumboAutoCompounderState, SafeError>,
) -> bool {
    if !is_farm_id_spec(farm_id_str) {
        res == Err::<JumboAutoCompounderState, SafeError>(SafeError::InvalidFarmId)
    } else {
        let seed = farm_seed_id(farm_id_str);
        let farm_id = farm_farm_id(farm_id_str);
        if !c.strategies@.dom().contains(seed) {
            res == Err::<JumboAutoCompounderState, SafeError>(SafeError::StrategyDoesNotExist)
        } else {
            match c.strategies@[seed] {
                VersionedStrategy::JumboAutoCompounder(a) => if has_farm(a.farm_ids(), farm_id) {
                    res == Ok::<JumboAutoCompounderState, SafeError>(
                        a.farms@[first_farm(a.farm_ids(), farm_id)].state,
                    )
                } else {
                    res == Err::<JumboAutoCompounderState, SafeError>(SafeError::FarmDoesNotExist)
                },
                _ => res == Err::<JumboAutoCompounderState, SafeError>(SafeError::WrongStrategyKind),
            }
        }
    }
}

impl Contract {
    /// The farms of all Ref Finance strategies over two-token pools.
    pub fn get_strategies_info_for_ref_finance(&self) -> (res: Vec<StratFarmInfo>)
        ensures
            res@.map_values(|f: StratFarmInfo| f@) == ref_farm_views(self.strategies.entries@),
    {
        let ghost entries = self.strategies.entries@;
        let mut out: Vec<StratFarmInfo> = Vec::new();
        let mut i: usize = 0;
        while i < self.strategies.entries.len()
            invariant
                entries == self.strategies.entries@,
                i <= entries.len(),
                out@.map_values(|f: StratFarmInfo| f@) == ref_farm_views(entries.take(i as int)),
            decreases entries.len() - i,
        {
            assert(entries.take(i + 1).drop_last() =~= entries.take(i as int));
            match &self.strategies.entries[i].1 {
                VersionedStrategy::AutoCompounder(c) => {
                    let mut j: usize = 0;
                    while j < c.farms.len()
                        invariant
                            j <= c.farms@.len(),
                            out@.map_values(|f: StratFarmInfo| f@) == ref_farm_views(entries.take(i as int))
                                + c.farms@.take(j as int).map_values(|f: StratFarmInfo| f@),
                        decreases c.farms@.len() - j,
                    {
                        let ghost prev = out@;
                        out.push(c.farms[j].duplicate());
                        assert(out@.map_values(|f: StratFarmInfo| f@) =~= prev.map_values(|f: StratFarmInfo| f@).push(
                            c.farms@[j as int]@,
                        ));
                        assert(c.farms@.take(j + 1).map_values(|f: StratFarmInfo| f@) =~= c.farms@.take(
                            j as int,
                        ).map_values(|f: StratFarmInfo| f@).push(c.farms@[j as int]@));
                        j = j + 1;
                    }
                    assert(c.farms@.take(j as int) =~= c.farms@);
                },
                _ => {
                    assert(out@.map_values(|f: StratFarmInfo| f@) =~= ref_farm_views(entries.take(i + 1)));
                },
            }
            i = i + 1;
        }
        assert(entries.take(i as int) =~= entries);
        out
    }
}

impl Contract {
    /// The farms of all Ref Finance strategies over stable pools.
    pub fn get_strategies_info_for_stable_ref_finance(&self) -> (res: Vec<StableStratFarmInfo>)
        ensures
            res@.map_values(|f: StableStratFarmInfo| f@) == stable_farm_views(self.strategies.entries@),
    {
        let ghost entries = self.strategies.entries@;
        let mut out: Vec<StableStratFarmInfo> = Vec::new();
        let mut i: usize = 0;
        while i < self.strategies.entries.len()
            invariant
                entries == self.strategies.entries@,
                i <= entries.len(),
                out@.map_values(|f: StableStratFarmInfo| f@) == stable_farm_views(entries.take(i as int)),
            decreases entries.len() - i,
        {
            assert(entries.take(i + 1).drop_last() =~= entries.take(i as int));
            match &self.strategies.entries[i].1 {
                VersionedStrategy::StableAutoCompounder(c) => {
                    let mut j: usize = 0;
                    while j < c.farms.len()
                        invariant
                            j <= c.farms@.len(),
                            out@.map_values(|f: StableStratFarmInfo| f@) == stable_farm_views(entries.take(i as int))
                                + c.farms@.take(j as int).map_values(|f: StableStratFarmInfo| f@),
                        decreases c.farms@.len() - j,
                    {
                        let ghost prev = out@;
                        out.push(c.farms[j].duplicate());
                        assert(out@.map_values(|f: StableStratFarmInfo| f@) =~= prev.map_values(|f: StableStratFarmInfo| f@).push(
                            c.farms@[j as int]@,
                        ));
                        assert(c.farms@.take(j + 1).map_values(|f: StableStratFarmInfo| f@) =~= c.farms@.take(
                            j as int,
                        ).map_values(|f: StableStratFarmInfo| f@).push(c.farms@[j as int]@));
                        j = j + 1;
                    }
                    assert(c.farms@.take(j as int) =~= c.farms@);
                },
                _ => {
                    assert(out@.map_values(|f: StableStratFarmInfo| f@) =~= stable_farm_views(entries.take(i + 1)));
                },
            }
            i = i + 1;
        }
        assert(entries.take(i as int) =~= entries);
        out
    }
    /// The farms of all Jumbo strategies.
    pub fn get_strategies_info_for_jumbo(&self) -> (res: Vec<JumboStratFarmInfo>)
        ensures
            res@.map_values(|f: JumboStratFarmInfo| f@) == jumbo_farm_views(self.strategies.entries@),
    {
        let ghost entries = self.strategies.entries@;
        let mut out: Vec<JumboStratFarmInfo> = Vec::new();
        let mut i: usize = 0;
        while i < self.strategies.entries.len()
            invariant
                entries == self.strategies.entries@,
                i <= entries.len(),
                out@.map_values(|f: JumboStratFarmInfo| f@) == jumbo_farm_views(entries.take(i as int)),
            decreases entries.len() - i,
        {
            assert(entries.take(i + 1).drop_last() =~= entries.take(i as int));
            match &self.strategies.entries[i].1 {
                VersionedStrategy::JumboAutoCompounder(c) => {
                    let mut j: usize = 0;
                    while j < c.farms.len()
                        invariant
                            j <= c.farms@.len(),
                            out@.map_values(|f: JumboStratFarmInfo| f@) == jumbo_farm_views(entries.take(i as int))
                                + c.farms@.take(j as int).map_values(|f: JumboStratFarmInfo| f@),
                        decreases c.farms@.len() - j,
                    {
                        let ghost prev = out@;
                        out.push(c.farms[j].duplicate());
                        assert(out@.map_values(|f: JumboStratFarmInfo| f@) =~= prev.map_values(|f: JumboStratFarmInfo| f@).push(
                            c.farms@[j as int]@,
                        ));
                        assert(c.farms@.take(j + 1).map_values(|f: JumboStratFarmInfo| f@) =~= c.farms@.take(
                            j as int,
                        ).map_values(|f: JumboStratFarmInfo| f@).push(c.farms@[j as int]@));
                        j = j + 1;
                    }
                    assert(c.farms@.take(j as int) =~= c.farms@);
                },
                _ => {
                    assert(out@.map_values(|f: JumboStratFarmInfo| f@) =~= jumbo_farm_views(entries.take(i + 1)));
                },
            }
            i = i + 1;
        }
        assert(entries.take(i as int) =~= entries);
        out
    }

    /// The Pembrock strategies.
    pub fn get_strategies_info_for_pembrock(&self) -> (res: Vec<PembrockAutoCompounder>)
        requires
            self.wf(),
        ensures
            res@.len() == pembrock_strategies(self.strategies.entries@).len(),
            forall|k: int| 0 <= k < res@.len() ==> (#[trigger] res@[k]).same_as(pembrock_strategies(self.strategies.entries@)[k]),
    {
        let ghost entries = self.strategies.entries@;
        let mut out: Vec<PembrockAutoCompounder> = Vec::new();
        let mut i: usize = 0;
        while i < self.strategies.entries.len()
            invariant
                self.wf(),
                entries == self.strategies.entries@,
                i <= entries.len(),
                out@.len() == pembrock_strategies(entries.take(i as int)).len(),
                forall|k: int| 0 <= k < out@.len() ==> (#[trigger] out@[k]).same_as(pembrock_strategies(entries.take(i as int))[k]),
            decreases entries.len() - i,
        {
            assert(entries.take(i + 1).drop_last() =~= entries.take(i as int));
            proof {
                lemma_map_of_value(entries, i as int);
                assert(self.strategies@.dom().contains(entries[i as int].0@));
            }
            match &self.strategies.entries[i].1 {
                VersionedStrategy::PembrockAutoCompounder(p) => {
                    out.push(p.duplicate());
                },
                _ => {},
            }
            i = i + 1;
        }
        assert(entries.take(i as int) =~= entries);
        out
    }

    /// Every strategy, in the order of the strategies; only for the owner or
    /// a guardian (`NotAllowed` otherwise).
    pub fn get_strats_info(&self, caller: &String) -> (res: Result<Vec<VersionedStrategy>, SafeError>)
        requires
            self.wf(),
        ensures
            !self.owner_or_guardian(caller@) ==> res == Err::<Vec<VersionedStrategy>, SafeError>(SafeError::NotAllowed),
            self.owner_or_guardian(caller@) ==> (res matches Ok(v) && v@.len() == self.strategies.entries@.len()
                && forall|k: int| 0 <= k < v@.len() ==> (#[trigger] v@[k]).same_as(self.strategies.entries@[k].1)),
    {
        if !self.is_owner_or_guardians(caller) {
            return Err(SafeError::NotAllowed);
        }
        let ghost entries = self.strategies.entries@;
        let mut out: Vec<VersionedStrategy> = Vec::new();
        let mut i: usize = 0;
        while i < self.strategies.entries.len()
            invariant
                self.wf(),
                entries == self.strategies.entries@,
                i <= entries.len(),
                out@.len() == i,
                forall|k: int| 0 <= k < i ==> (#[trigger] out@[k]).same_as(entries[k].1),
            decreases entries.len() - i,
        {
            proof {
                lemma_map_of_value(entries, i as int);
                assert(self.strategies@.dom().contains(entries[i as int].0@));
            }
            out.push(self.strategies.entries[i].1.upgrade());
            i = i + 1;
        }
        Ok(out)
    }

    /// The state of the farm `farm_id_str` (`exchange@pool_id#farm_id`) of a
    /// Ref Finance strategy.
    pub fn get_strategy_for_ref_finance(&self, farm_id_str: &String) -> (res: Result<AutoCompounderState, SafeError>)
        requires
            self.wf(),
        ensures
            ref_state_is(*self, farm_id_str@, res),
    {
        if !is_farm_id(farm_id_str.as_str()) {
            return Err(SafeError::InvalidFarmId);
        }
        let (seed_id, _, farm_id) = get_ids_from_farm(farm_id_str.clone());
        let strat = self.get_strat(&seed_id)?;
        match strat {
            VersionedStrategy::AutoCompounder(a) => match a.farm_index(&farm_id) {
                Some(i) => {
                    proof {
                        lemma_first_farm(a.farm_ids(), farm_id@, i as int);
                    }
                    Ok(a.farms[i].state)
                },
                None => {
                    proof {
                        lemma_no_farm(a.farm_ids(), farm_id@);
                    }
                    Err(SafeError::FarmDoesNotExist)
                },
            },
            VersionedStrategy::StableAutoCompounder(a) => match a.farm_index(&farm_id) {
                Some(i) => {
                    proof {
                        lemma_first_farm(a.farm_ids(), farm_id@, i as int);
                    }
                    Ok(a.farms[i].state)
                },
                None => {
                    proof {
                        lemma_no_farm(a.farm_ids(), farm_id@);
                    }
                    Err(SafeError::FarmDoesNotExist)
                },
            },
            _ => Err(SafeError::WrongStrategyKind),
        }
    }

    /// The state of the farm `farm_id_str` (`exchange@pool_id#farm_id`) of a
    /// Jumbo strategy.
    pub fn get_strategy_for_jumbo(&self, farm_id_str: &String) -> (res: Result<JumboAutoCompounderState, SafeError>)
        requires
            self.wf(),
        ensures
            jumbo_state_is(*self, farm_id_str@, res),
    {
        if !is_farm_id(farm_id_str.as_str()) {
            return Err(SafeError::InvalidFarmId);
        }
        let (seed_id, _, farm_id) = get_ids_from_farm(farm_id_str.clone());
        let strat = self.get_strat(&seed_id)?;
        match strat {
            VersionedStrategy::JumboAutoCompounder(a) => match a.farm_index(&farm_id) {
                Some(i) => {
                    proof {
                        lemma_first_farm(a.farm_ids(), farm_id@, i as int);
                    }
                    Ok(a.farms[i].state)
                },
                None => {
                    proof {
                        lemma_no_farm(a.farm_ids(), farm_id@);
                    }
                    Err(SafeError::FarmDoesNotExist)
                },
            },
            _ => Err(SafeError::WrongStrategyKind),
        }
    }

    /// The state of the Pembrock strategy `strat_name` (`pembrock@token`).
    pub fn get_strategy_for_pembrock(&self, strat_name: &String) -> (res: Result<PembAutoCompounderState, SafeError>)
        requires
            self.wf(),
        ensures
            !self.strategies@.dom().contains(strat_name@) ==> res == Err::<PembAutoCompounderState, SafeError>(
                SafeError::StrategyDoesNotExist,
            ),
            self.strategies@.dom().contains(strat_name@) ==> match self.strategies@[strat_name@] {
                VersionedStrategy::PembrockAutoCompounder(p) => res == Ok::<PembAutoCompounderState, SafeError>(p.state),
                _ => res == Err::<PembAutoCompounderState, SafeError>(SafeError::WrongStrategyKind),
            },
    {
        match self.get_strat(strat_name)? {
            VersionedStrategy::PembrockAutoCompounder(p) => Ok(p.state),
            _ => Err(SafeError::WrongStrategyKind),
        }
    }
}

impl Contract {
    /// Every unit a sentry can harvest, strategy by strategy in the order of
    /// the strategies: each farm of an exchange strategy, named
    /// `seed_id#farm_id`, and each Pembrock strategy, named by its strategy
    /// name; with its kind, whether it runs, its reward token and its fees.
    pub fn get_harvest_info(&self) -> (res: Vec<StrategyInfo>)
        requires
            self.wf(),
        ensures
            res@.len() == units_before(self.strategies.entries@, self.strategies.entries@.len() as int),
            forall|i: int, j: int|
                0 <= i < self.strategies.entries@.len() && 0 <= j < unit_count(self.strategies.entries@[i].1)
                    ==> unit_info(
                    #[trigger] at_offset(res@, units_before(self.strategies.entries@, i) as int, j),
                    self.strategies.entries@[i].0@,
                    self.strategies.entries@[i].1,
                    j,
                ),
    {
        let ghost entries = self.strategies.entries@;
        let mut out: Vec<StrategyInfo> = Vec::new();
        let mut i: usize = 0;
        while i < self.strategies.entries.len()
            invariant
                self.wf(),
                entries == self.strategies.entries@,
                i <= entries.len(),
                out@.len() == units_before(entries, i as int),
                forall|a: int, j: int|
                    0 <= a < i && 0 <= j < unit_count(entries[a].1) ==> unit_info(
                        #[trigger] at_offset(out@, units_before(entries, a) as int, j),
                        entries[a].0@,
                        entries[a].1,
                        j,
                    ),
            decreases entries.len() - i,
        {
            proof {
                lemma_map_of_value(entries, i as int);
                assert(self.strategies@.dom().contains(entries[i as int].0@));
                lemma_units_before_monotone(entries, i as int);
            }
            let ghost prev = out@;
            push_units(&self.strategies.entries[i].0, &self.strategies.entries[i].1, &mut out);
            assert forall|a: int, j: int|
                0 <= a < i + 1 && 0 <= j < unit_count(entries[a].1) implies unit_info(
                #[trigger] at_offset(out@, units_before(entries, a) as int, j),
                entries[a].0@,
                entries[a].1,
                j,
            ) by {
                if a < i {
                    lemma_units_before_monotone(entries, a + 1);
                    lemma_units_before_le(entries, a + 1, i as int);
                    assert(at_offset(out@, units_before(entries, a) as int, j) == at_offset(
                        prev,
                        units_before(entries, a) as int,
                        j,
                    ));
                }
            }
            i = i + 1;
        }
        out
    }
}

/// One more strategy adds its units.
proof fn lemma_units_before_monotone(entries: Seq<(String, VersionedStrategy)>, i: int)
    requires
        0 <= i,
    ensures
        units_before(entries, i + 1) == units_before(entries, i) + unit_count(entries[i].1),
{
}

/// The count grows with the number of strategies.
proof fn lemma_units_before_le(entries: Seq<(String, VersionedStrategy)>, a: int, b: int)
    requires
        0 <= a <= b,
    ensures
        units_before(entries, a) <= units_before(entries, b),
    decreases b - a,
{
    if a < b {
        lemma_units_before_le(entries, a, b - 1);
    }
}

} // verus!
