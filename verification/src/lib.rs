//! Share accounting, fee splitting and the harvest cycle of an auto-compounding vault.
use vstd::prelude::*;

pub mod arith;
pub mod strmap;
pub mod ids;
pub mod fees;
pub mod farm;
pub mod errors;
pub mod shares;
pub mod compounder;
pub mod stable;
pub mod jumbo;
pub mod pembrock;
pub mod strategy;
pub mod safe;
pub mod treasurer;
pub mod views;
pub mod receiver;
pub mod jumbo_vault;
pub mod stable_vault;
pub mod pembrock_vault;
pub mod messages;

verus! {

} // verus!
