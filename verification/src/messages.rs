//! The texts with which the owner's calls answer.
use vstd::prelude::*;
use crate::ids::{decimal, u128_to_string};

verus! {

/// `VersionedStrategy for {name} created successfully`.
pub open spec fn strategy_created_message(name: Seq<char>) -> Seq<char> {
    "VersionedStrategy for "@ + name + " created successfully"@
}

/// The answer where a strategy exists already under the key.
pub open spec fn strategy_exists_message() -> Seq<char> {
    "E24: A versioned strategy with this parameters already exist."@
}

/// `Farm with index {farm_id} for {seed_id} created successfully`.
pub open spec fn farm_created_message(farm_id: Seq<char>, seed_id: Seq<char>) -> Seq<char> {
    "Farm with index "@ + farm_id + " for "@ + seed_id + " created successfully"@
}

/// The answer where the strategy has a farm with that id already.
pub open spec fn farm_exists_message() -> Seq<char> {
    "E25: This farm_id already has a correspondent farm."@
}

/// `Account {account_id} was added with {fee} proportion from value`.
pub open spec fn stakeholder_added_message(account_id: Seq<char>, fee: u128) -> Seq<char> {
    "Account "@ + account_id + " was added with "@ + decimal(fee as nat) + " proportion from value"@
}

/// The answer once the stakeholders were credited.
pub open spec fn distributed_message() -> Seq<char> {
    "Stakeholders can already withdraw from Treasurer"@
}

/// The text of [`strategy_created_message`].
pub fn strategy_created(name: &str) -> (res: String)
    ensures
        res@ == strategy_created_message(name@),
{
    let mut res = String::from_str("VersionedStrategy for ");
    res.append(name);
    res.append(" created successfully");
    res
}

/// The text of [`strategy_exists_message`].
pub fn strategy_exists() -> (res: String)
    ensures
        res@ == strategy_exists_message(),
{
    String::from_str("E24: A versioned strategy with this parameters already exist.")
}

/// The text of [`farm_created_message`].
pub fn farm_created(farm_id: &str, seed_id: &str) -> (res: String)
    ensures
        res@ == farm_created_message(farm_id@, seed_id@),
{
    let mut res = String::from_str("Farm with index ");
    res.append(farm_id);
    res.append(" for ");
    res.append(seed_id);
    res.append(" created successfully");
    res
}

/// The text of [`farm_exists_message`].
pub fn farm_exists() -> (res: String)
    ensures
        res@ == farm_exists_message(),
{
    String::from_str("E25: This farm_id already has a correspondent farm.")
}

/// The text of [`stakeholder_added_message`].
pub fn stakeholder_added(account_id: &str, fee: u128) -> (res: String)
    ensures
        res@ == stakeholder_added_message(account_id@, fee),
{
    let mut res = String::from_str("Account ");
    res.append(account_id);
    res.append(" was added with ");
    let digits = u128_to_string(fee);
    res.append(digits.as_str());
    res.append(" proportion from value");
    res
}

/// The text of [`distributed_message`].
pub fn distribution_answer() -> (res: String)
    ensures
        res@ == distributed_message(),
{
    String::from_str("Stakeholders can already withdraw from Treasurer")
}

} // verus!
