//! What the vault does with tokens sent to it: the share tokens of an
//! exchange go on to the farm of their strategy, and a token lent on Pembrock
//! goes on to the lending.
use vstd::prelude::*;
use crate::errors::SafeError;
use crate::ids::{joined, unwrap_token_id, unwrapped_token_id};
use crate::safe::{Contract, RunningState};
use crate::strategy::{strategy_active, SupportedExchanges, VersionedStrategy};

verus! {

/// Where shares received from an exchange are staked: the farm of the
/// strategy of `seed_id`, reached through the exchange's share token.
pub struct StakeCall {
    /// Seed the shares belong to, `exchange@pool_id`.
    pub seed_id: String,
    /// Exchange whose share token is forwarded.
    pub exchange_contract_id: String,
    /// Farm that receives the shares.
    pub farm_contract_id: String,
    /// Kind of exchange, which decides the form of the call and its callback.
    pub exchange: SupportedExchanges,
}

/// Where a token received for a Pembrock strategy is lent.
pub struct LendCall {
    /// Name of the strategy, `pembrock@token`.
    pub strat_name: String,
    /// Pembrock's lending contract.
    pub pembrock_contract_id: String,
    /// The token lent.
    pub token_address: String,
}

/// The seed of the share token `token_id` (`:pool_id`) of the exchange
/// `caller`: `caller@pool_id`.
pub open spec fn received_seed(caller: Seq<char>, token_id: Seq<char>) -> Seq<char> {
    joined(caller, '@', unwrapped_token_id(token_id))
}

/// What receiving shares of `token_id` from `caller` leads to: the stake of
/// its seed's strategy, where that strategy exists, runs a farm and stakes on
/// an exchange.
pub open spec fn stake_call_is(c: Contract, caller: Seq<char>, token_id: Seq<char>, res: Result<StakeCall, SafeError>) -> bool {
    let seed = received_seed(caller, token_id);
    if !c.strategies@.dom().contains(seed) {
        res == Err::<StakeCall, SafeError>(SafeError::StrategyDoesNotExist)
    } else if !strategy_active(c.strategies@[seed]) {
        res == Err::<StakeCall, SafeError>(SafeError::NoRunningStrategy)
    } else {
        match c.strategies@[seed] {
            VersionedStrategy::AutoCompounder(a) => res matches Ok(s) && s.seed_id@ == seed
                && s.exchange_contract_id@ == a.exchange_contract_id@ && s.farm_contract_id@ == a.farm_contract_id@
                && s.exchange == SupportedExchanges::RefFinance,
            VersionedStrategy::StableAutoCompounder(a) => res matches Ok(s) && s.seed_id@ == seed
                && s.exchange_contract_id@ == a.exchange_contract_id@ && s.farm_contract_id@ == a.farm_contract_id@
                && s.exchange == SupportedExchanges::RefFinance,
            VersionedStrategy::JumboAutoCompounder(a) => res matches Ok(s) && s.seed_id@ == seed
                && s.exchange_contract_id@ == a.exchange_contract_id@ && s.farm_contract_id@ == a.farm_contract_id@
                && s.exchange == SupportedExchanges::Jumbo,
            VersionedStrategy::PembrockAutoCompounder(_) => res == Err::<StakeCall, SafeError>(
                SafeError::WrongStrategyKind,
            ),
        }
    }
}

/// The name of the Pembrock strategy of the token `token`: `pembrock@token`.
pub open spec fn pembrock_name(token: Seq<char>) -> Seq<char> {
    seq!['p', 'e', 'm', 'b', 'r', 'o', 'c', 'k', '@'] + token
}

/// What receiving the token `token_in` leads to: the lending of the Pembrock
/// strategy of that token, where the vault runs and that strategy exists.
pub open spec fn lend_call_is(c: Contract, token_in: Seq<char>, res: Result<LendCall, SafeError>) -> bool {
    let name = pembrock_name(token_in);
    if c.state == RunningState::Paused {
        res == Err::<LendCall, SafeError>(SafeError::ContractPaused)
    } else if !c.strategies@.dom().contains(name) {
        res == Err::<LendCall, SafeError>(SafeError::StrategyDoesNotExist)
    } else {
        match c.strategies@[name] {
            VersionedStrategy::PembrockAutoCompounder(p) => res matches Ok(l) && l.strat_name@ == name
                && l.pembrock_contract_id@ == p.pembrock_contract_id@ && l.token_address@ == p.token_address@,
            _ => res == Err::<LendCall, SafeError>(SafeError::WrongStrategyKind),
        }
    }
}

impl Contract {
    /// Shares of the token `token_id` (`:pool_id`) arrive from the exchange
    /// `caller`: they are staked on the farm of the strategy of
    /// `caller@pool_id`, which must exist and run a farm.
    pub fn mft_on_transfer(&self, caller: &String, token_id: &String) -> (res: Result<StakeCall, SafeError>)
        requires
            self.wf(),
        ensures
            stake_call_is(*self, caller@, token_id@, res),
    {
        let pool = unwrap_token_id(token_id.as_str());
        let mut seed_id = caller.clone();
        proof {
            reveal_strlit("@");
        }
        seed_id.append("@");
        seed_id.append(pool.as_str());
        assert(seed_id@ =~= received_seed(caller@, token_id@));
        if !self.is_strategy_active(&seed_id)? {
            return Err(SafeError::NoRunningStrategy);
        }
        match self.get_strat(&seed_id)? {
            VersionedStrategy::AutoCompounder(a) => Ok(
                StakeCall {
                    seed_id,
                    exchange_contract_id: a.exchange_contract_id.clone(),
                    farm_contract_id: a.farm_contract_id.clone(),
                    exchange: SupportedExchanges::RefFinance,
                },
            ),
            VersionedStrategy::StableAutoCompounder(a) => Ok(
                StakeCall {
                    seed_id,
                    exchange_contract_id: a.exchange_contract_id.clone(),
                    farm_contract_id: a.farm_contract_id.clone(),
                    exchange: SupportedExchanges::RefFinance,
                },
            ),
            VersionedStrategy::JumboAutoCompounder(a) => Ok(
                StakeCall {
                    seed_id,
                    exchange_contract_id: a.exchange_contract_id.clone(),
                    farm_contract_id: a.farm_contract_id.clone(),
                    exchange: SupportedExchanges::Jumbo,
                },
            ),
            VersionedStrategy::PembrockAutoCompounder(_) => Err(SafeError::WrongStrategyKind),
        }
    }

    /// Tokens of the contract `token_in` arrive: while the vault runs, they
    /// are lent through the Pembrock strategy `pembrock@token_in`.
    pub fn ft_on_transfer(&self, token_in: &String) -> (res: Result<LendCall, SafeError>)
        requires
            self.wf(),
        ensures
            lend_call_is(*self, token_in@, res),
    {
        if self.state == RunningState::Paused {
            return Err(SafeError::ContractPaused);
        }
        let mut name = String::from_str("pembrock@");
        proof {
            reveal_strlit("pembrock@");
        }
        name.append(token_in.as_str());
        assert(name@ =~= pembrock_name(token_in@));
        match self.get_strat(&name)? {
            VersionedStrategy::PembrockAutoCompounder(p) => Ok(
                LendCall {
                    strat_name: name,
                    pembrock_contract_id: p.pembrock_contract_id.clone(),
                    token_address: p.token_address.clone(),
                },
            ),
            _ => Err(SafeError::WrongStrategyKind),
        }
    }
}

} // verus!
