//! Reasons for which the vault refuses a call.
use vstd::prelude::*;

verus! {

/// Why a call of the vault was refused.
#[derive(PartialEq, Eq, Structural, Clone, Copy, Debug)]
pub enum SafeError {
    /// The seed id has no multi-token share registered.
    SeedDoesNotExist,
    /// The seed id, strategy name or farm id has no strategy.
    StrategyDoesNotExist,
    /// The strategy has no farm with that id.
    FarmDoesNotExist,
    /// The strategy is not of the kind that the call needs.
    WrongStrategyKind,
    /// A farm id string is not of the form `exchange@pool_id#farm_id`.
    InvalidFarmId,
    /// The sender does not hold enough shares or balance.
    NotEnoughBalance,
    /// A transfer from an account to itself.
    TransferToSelf,
    /// An amount does not fit in 128 bits, or would drop below zero.
    ArithmeticOverflow,
    /// A division by zero.
    DivisionByZero,
    /// A cross-contract call that this step depends on failed.
    PromiseFailed,
    /// Staking into the farm did not take the whole amount.
    StakeFailed,
    /// The farm reported no reward while it is still running.
    ZeroRewardsEarned,
    /// The exchange quoted no return for a swap.
    CouldNotGetReturn,
    /// The sentry is not registered, or has no storage, in the reward token.
    SentryNotRegistered,
    /// The caller may not do this.
    NotAllowed,
    /// The account is already in the list.
    AlreadyExists,
    /// The account is not in the list.
    DoesNotExist,
    /// The call needs exactly one yoctoNEAR attached.
    DepositNotOneYocto,
    /// The contract is paused.
    ContractPaused,
    /// No farm of the strategy is running.
    NoRunningStrategy,
    /// The farm or strategy has been cleared.
    StrategyCleared,
    /// A fee percentage is out of range, or the fees add up to too much.
    FeeNotValid,
    /// The attached deposit is below the minimum storage balance.
    DepositLessThanMinStorage,
    /// The account is not registered.
    AccountNotRegistered,
    /// Neither a farm id nor a strategy name was given.
    NoArguments,
    /// The token is not registered with the treasurer.
    TokenNotRegistered,
    /// The amount to transfer or withdraw is zero.
    ZeroAmount,
    /// The position of a farm's token is not one of the pool's tokens.
    InvalidTokenPosition,
}

} // verus!
