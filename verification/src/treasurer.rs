//! The treasurer: it swaps the fees the vault sends it for one token and
//! shares them among stakeholders by percentage.
use vstd::prelude::*;
use crate::arith::{percent_of, percent_of_spec};
use crate::errors::SafeError;
use crate::safe::RunningState;
use crate::strmap::{lemma_map_of_value, StrMap};
use crate::messages::{distribution_answer, distributed_message, stakeholder_added, stakeholder_added_message};

verus! {

/// The treasurer's state.
pub struct Treasurer {
    /// Account that administers the treasurer.
    pub owner_id: String,
    /// Percentage of the fees each stakeholder gets.
    pub stakeholders_fees: StrMap<u128>,
    /// What each stakeholder may withdraw.
    pub stakeholders_amount_available: StrMap<u128>,
    /// The token the fees are swapped for.
    pub token_out: String,
    /// The pool in which each fee token is swapped.
    pub token_to_pool: StrMap<u64>,
    /// Contract address of the exchange used.
    pub exchange_contract_id: String,
    /// Whether the treasurer runs.
    pub state: RunningState,
}

/// The percentages of a list of stakeholders, added up.
pub open spec fn fee_sum(s: Seq<(String, u128)>) -> int
    decreases s.len(),
{
    if s.len() == 0 {
        0
    } else {
        fee_sum(s.drop_last()) + s.last().1
    }
}

/// A prefix of the list adds up to no more than the list.
pub proof fn lemma_fee_sum_prefix(s: Seq<(String, u128)>, i: int)
    requires
        0 <= i <= s.len(),
    ensures
        fee_sum(s.take(i)) <= fee_sum(s),
    decreases s.len(),
{
    if i < s.len() {
        assert(s.drop_last().take(i) =~= s.take(i));
        lemma_fee_sum_prefix(s.drop_last(), i);
    } else {
        assert(s.take(i) =~= s);
    }
}

/// Every percentage of the list is at most their sum.
pub proof fn lemma_fee_le_sum(s: Seq<(String, u128)>, j: int)
    requires
        0 <= j < s.len(),
    ensures
        s[j].1 <= fee_sum(s),
    decreases s.len(),
{
    lemma_fee_sum_nonneg(s.drop_last());
    if j < s.len() - 1 {
        lemma_fee_le_sum(s.drop_last(), j);
    }
}

/// The percentages add up to no less than zero.
pub proof fn lemma_fee_sum_nonneg(s: Seq<(String, u128)>)
    ensures
        fee_sum(s) >= 0,
    decreases s.len(),
{
    if s.len() > 0 {
        lemma_fee_sum_nonneg(s.drop_last());
    }
}

/// Removing an entry takes its percentage off the sum.
pub proof fn lemma_fee_sum_remove(s: Seq<(String, u128)>, j: int)
    requires
        0 <= j < s.len(),
    ensures
        fee_sum(s.remove(j)) == fee_sum(s) - s[j].1,
    decreases s.len(),
{
    if j < s.len() - 1 {
        assert(s.remove(j).drop_last() =~= s.drop_last().remove(j));
        assert(s.remove(j).last() == s.last());
        lemma_fee_sum_remove(s.drop_last(), j);
    } else {
        assert(s.remove(j) =~= s.drop_last());
    }
}

/// Replacing an entry's percentage replaces it in the sum.
pub proof fn lemma_fee_sum_update(s: Seq<(String, u128)>, j: int, e: (String, u128))
    requires
        0 <= j < s.len(),
    ensures
        fee_sum(s.update(j, e)) == fee_sum(s) - s[j].1 + e.1,
    decreases s.len(),
{
    if j < s.len() - 1 {
        assert(s.update(j, e).drop_last() =~= s.drop_last().update(j, e));
        lemma_fee_sum_update(s.drop_last(), j, e);
    } else {
        assert(s.update(j, e).drop_last() =~= s.drop_last());
    }
}

impl Treasurer {
    /// Well-formedness: the maps are, every stakeholder has an amount, and
    /// the percentages add up to at most 100.
    pub open spec fn wf(&self) -> bool {
        &&& self.stakeholders_fees.wf()
        &&& self.stakeholders_amount_available.wf()
        &&& self.token_to_pool.wf()
        &&& forall|a: Seq<char>| #[trigger] self.stakeholders_fees@.dom().contains(a)
            ==> self.stakeholders_amount_available@.dom().contains(a)
        &&& fee_sum(self.stakeholders_fees.entries@) <= 100
    }

    /// `caller` owns the treasurer, or is the treasurer itself.
    pub open spec fn owner_call(&self, caller: Seq<char>, current_account: Seq<char>) -> bool {
        caller == current_account || caller == self.owner_id@
    }

    /// A running treasurer of `owner_id`, swapping fees for `token_out` on
    /// `exchange_contract_id`, with no stakeholder and no token.
    pub fn new(owner_id: String, token_out: String, exchange_contract_id: String) -> (res: Self)
        ensures
            res.wf(),
            res.owner_id == owner_id,
            res.token_out == token_out,
            res.exchange_contract_id == exchange_contract_id,
            res.state == RunningState::Running,
            res.stakeholders_fees@ == Map::<Seq<char>, u128>::empty(),
            res.stakeholders_amount_available@ == Map::<Seq<char>, u128>::empty(),
            res.token_to_pool@ == Map::<Seq<char>, u64>::empty(),
    {
        Treasurer {
            owner_id,
            stakeholders_fees: StrMap::new(),
            stakeholders_amount_available: StrMap::new(),
            token_out,
            token_to_pool: StrMap::new(),
            exchange_contract_id,
            state: RunningState::Running,
        }
    }

    /// Refused (`NotAllowed`) unless `caller` owns the treasurer or is it.
    pub fn is_owner(&self, caller: &String, current_account: &String) -> (res: Result<(), SafeError>)
        ensures
            res is Ok <==> self.owner_call(caller@, current_account@),
            res matches Err(e) ==> e == SafeError::NotAllowed,
    {
        if *caller == *current_account || *caller == self.owner_id {
            Ok(())
        } else {
            Err(SafeError::NotAllowed)
        }
    }

    /// The stakeholders' percentages added up.
    fn total_fees(&self) -> (res: u128)
        requires
            self.wf(),
        ensures
            res == fee_sum(self.stakeholders_fees.entries@),
    {
        let mut total: u128 = 0;
        let mut i: usize = 0;
        while i < self.stakeholders_fees.entries.len()
            invariant
                i <= self.stakeholders_fees.entries@.len(),
                fee_sum(self.stakeholders_fees.entries@) <= 100,
                total == fee_sum(self.stakeholders_fees.entries@.take(i as int)),
            decreases self.stakeholders_fees.entries@.len() - i,
        {
            proof {
                let s = self.stakeholders_fees.entries@;
                assert(s.take(i + 1).drop_last() =~= s.take(i as int));
                lemma_fee_sum_prefix(s, i + 1);
            }
            total = total + self.stakeholders_fees.entries[i].1;
            i = i + 1;
        }
        assert(self.stakeholders_fees.entries@.take(i as int) =~= self.stakeholders_fees.entries@);
        total
    }

    /// The owner adds a stakeholder with percentage `fee`, with nothing to
    /// withdraw yet, answering `Account account_id was added with fee
    /// proportion from value`. Refused, changing nothing, where the caller may not,
    /// the stakeholder exists (`AlreadyExists`) or the percentages would add
    /// up to more than 100 (`FeeNotValid`).
    pub fn add_stakeholder(&mut self, caller: &String, current_account: &String, account_id: String, fee: u128) -> (res:
        Result<String, SafeError>)
        requires
            old(self).wf(),
        ensures
            final(self).wf(),
            !old(self).owner_call(caller@, current_account@) ==> res == Err::<String, SafeError>(SafeError::NotAllowed)
                && *final(self) == *old(self),
            old(self).owner_call(caller@, current_account@) && old(self).stakeholders_fees@.dom().contains(
                account_id@,
            ) ==> res == Err::<String, SafeError>(SafeError::AlreadyExists) && *final(self) == *old(self),
            old(self).owner_call(caller@, current_account@) && !old(self).stakeholders_fees@.dom().contains(
                account_id@,
            ) && fee_sum(old(self).stakeholders_fees.entries@) + fee > 100 ==> res == Err::<String, SafeError>(
                SafeError::FeeNotValid,
            ) && *final(self) == *old(self),
            old(self).owner_call(caller@, current_account@) && !old(self).stakeholders_fees@.dom().contains(
                account_id@,
            ) && fee_sum(old(self).stakeholders_fees.entries@) + fee <= 100 ==> (res matches Ok(m) && m@
                == stakeholder_added_message(account_id@, fee))
                && final(self).stakeholders_fees@ == old(self).stakeholders_fees@.insert(account_id@, fee)
                && final(self).stakeholders_amount_available@ == old(self).stakeholders_amount_available@.insert(
                account_id@,
                0,
            ) && *final(self) == (Treasurer {
                stakeholders_fees: final(self).stakeholders_fees,
                stakeholders_amount_available: final(self).stakeholders_amount_available,
                ..*old(self)
            }),
    {
        self.is_owner(caller, current_account)?;
        if self.stakeholders_fees.contains_key(&account_id) {
            return Err(SafeError::AlreadyExists);
        }
        let total = self.total_fees();
        if fee > 100 - total {
            return Err(SafeError::FeeNotValid);
        }
        let message = stakeholder_added(account_id.as_str(), fee);
        let ghost old_entries = self.stakeholders_fees.entries@;
        self.stakeholders_fees.insert(account_id.clone(), fee);
        self.stakeholders_amount_available.insert(account_id.clone(), 0);
        proof {
            assert(self.stakeholders_fees.entries@.drop_last() =~= old_entries);
        }
        Ok(message)
    }

    /// The owner removes a stakeholder's percentage; what it may withdraw
    /// stays.
    pub fn remove_stakeholder(&mut self, caller: &String, current_account: &String, account_id: &String) -> (res:
        Result<(), SafeError>)
        requires
            old(self).wf(),
        ensures
            final(self).wf(),
            !old(self).owner_call(caller@, current_account@) ==> res == Err::<(), SafeError>(SafeError::NotAllowed)
                && *final(self) == *old(self),
            old(self).owner_call(caller@, current_account@) ==> res is Ok && final(self).stakeholders_fees@
                == old(self).stakeholders_fees@.remove(account_id@) && *final(self) == (Treasurer {
                stakeholders_fees: final(self).stakeholders_fees,
                ..*old(self)
            }),
    {
        self.is_owner(caller, current_account)?;
        let ghost old_entries = self.stakeholders_fees.entries@;
        self.stakeholders_fees.remove(account_id);
        proof {
            if old(self).stakeholders_fees@.dom().contains(account_id@) {
                let j = choose|j: int| 0 <= j < old_entries.len() && #[trigger] old_entries[j].0@ == account_id@
                    && self.stakeholders_fees.entries@ == old_entries.remove(j);
                lemma_fee_sum_remove(old_entries, j);
            }
            assert forall|a: Seq<char>| #[trigger] self.stakeholders_fees@.dom().contains(a) implies self.stakeholders_amount_available@.dom().contains(a) by {
                assert(old(self).stakeholders_fees@.dom().contains(a));
            }
        }
        Ok(())
    }

    /// The owner sets a stakeholder's percentage. Refused, changing nothing,
    /// where the caller may not, the stakeholder does not exist
    /// (`DoesNotExist`) or the percentages would add up to more than 100
    /// (`FeeNotValid`).
    pub fn update_stakeholder_percentage(
        &mut self,
        caller: &String,
        current_account: &String,
        account_id: &String,
        new_percentage: u128,
    ) -> (res: Result<(), SafeError>)
        requires
            old(self).wf(),
        ensures
            final(self).wf(),
            !old(self).owner_call(caller@, current_account@) ==> res == Err::<(), SafeError>(SafeError::NotAllowed)
                && *final(self) == *old(self),
            old(self).owner_call(caller@, current_account@) && !old(self).stakeholders_fees@.dom().contains(
                account_id@,
            ) ==> res == Err::<(), SafeError>(SafeError::DoesNotExist) && *final(self) == *old(self),
            old(self).owner_call(caller@, current_account@) && old(self).stakeholders_fees@.dom().contains(
                account_id@,
            ) && fee_sum(old(self).stakeholders_fees.entries@) - old(self).stakeholders_fees@[account_id@]
                + new_percentage > 100 ==> res
                == Err::<(), SafeError>(SafeError::FeeNotValid) && *final(self) == *old(self),
            old(self).owner_call(caller@, current_account@) && old(self).stakeholders_fees@.dom().contains(
                account_id@,
            ) && fee_sum(old(self).stakeholders_fees.entries@) - old(self).stakeholders_fees@[account_id@]
                + new_percentage <= 100 ==> res is Ok
                && final(self).stakeholders_fees@ == old(self).stakeholders_fees@.insert(account_id@, new_percentage)
                && *final(self) == (Treasurer { stakeholders_fees: final(self).stakeholders_fees, ..*old(self) }),
    {
        self.is_owner(caller, current_account)?;
        let j = match self.stakeholders_fees.find(account_id) {
            Some(j) => j,
            None => return Err(SafeError::DoesNotExist),
        };
        let ghost old_entries = self.stakeholders_fees.entries@;
        let total = self.total_fees();
        let current = self.stakeholders_fees.entries[j].1;
        proof {
            lemma_map_of_value(old_entries, j as int);
            lemma_fee_le_sum(old_entries, j as int);
        }
        let others = total - current;
        if new_percentage > 100 - others {
            return Err(SafeError::FeeNotValid);
        }
        self.stakeholders_fees.set_value_at(j, new_percentage);
        proof {
            lemma_fee_sum_update(old_entries, j as int, (old_entries[j as int].0, new_percentage));
        }
        Ok(())
    }
}


/// What the stakeholders of a list get of `amount`, added up.
pub open spec fn distributed(s: Seq<(String, u128)>, amount: int) -> int
    decreases s.len(),
{
    if s.len() == 0 {
        0
    } else {
        distributed(s.drop_last(), amount) + percent_of_spec(s.last().1 as int, amount)
    }
}

/// Stakeholders whose percentages add up to at most 100 never get more than
/// the amount shared: what each gets is its percentage of the amount,
/// rounded down.
pub proof fn lemma_distribution_bounded(s: Seq<(String, u128)>, amount: int)
    requires
        fee_sum(s) <= 100,
        amount >= 0,
    ensures
        distributed(s, amount) <= amount,
{
    lemma_distributed_scaled(s, amount);
    assert(distributed(s, amount) <= amount) by (nonlinear_arith)
        requires
            distributed(s, amount) * 100 <= amount * fee_sum(s),
            fee_sum(s) <= 100,
            amount >= 0,
    ;
}

/// A hundred times what the stakeholders get is at most the amount times
/// their percentages.
pub proof fn lemma_distributed_scaled(s: Seq<(String, u128)>, amount: int)
    requires
        amount >= 0,
    ensures
        distributed(s, amount) * 100 <= amount * fee_sum(s),
    decreases s.len(),
{
    if s.len() > 0 {
        lemma_distributed_scaled(s.drop_last(), amount);
        let p = s.last().1 as int;
        let q = percent_of_spec(p, amount);
        assert(q * 100 <= amount * p) by (nonlinear_arith)
            requires
                q == amount * p / 100,
                amount >= 0,
                p >= 0,
        ;
        assert(amount * fee_sum(s) == amount * fee_sum(s.drop_last()) + amount * p) by (nonlinear_arith)
            requires
                fee_sum(s) == fee_sum(s.drop_last()) + p,
        ;
    }
}

/// Why the shares of `amount` cannot be computed, stakeholder by
/// stakeholder in the order of the list: the first whose percentage of the
/// amount overflows (`ArithmeticOverflow`) or rounds down to zero
/// (`ZeroAmount`); `None` where every share is positive.
pub open spec fn share_refusal(fees: Seq<(String, u128)>, amount: u128) -> Option<SafeError>
    decreases fees.len(),
{
    if fees.len() == 0 {
        None
    } else {
        match share_refusal(fees.drop_last(), amount) {
            Some(e) => Some(e),
            None => {
                let p = fees.last().1;
                if amount * p > u128::MAX {
                    Some(SafeError::ArithmeticOverflow)
                } else if percent_of_spec(p as int, amount as int) == 0 {
                    Some(SafeError::ZeroAmount)
                } else {
                    None
                }
            },
        }
    }
}

/// A refusal found among the first `k` stakeholders is the refusal of all.
proof fn lemma_share_refusal_prefix(s: Seq<(String, u128)>, k: int, amount: u128)
    requires
        0 <= k <= s.len(),
        share_refusal(s.take(k), amount) is Some,
    ensures
        share_refusal(s, amount) == share_refusal(s.take(k), amount),
    decreases s.len() - k,
{
    if k < s.len() {
        assert(s.take(k + 1).drop_last() =~= s.take(k));
        lemma_share_refusal_prefix(s, k + 1, amount);
    } else {
        assert(s.take(k) =~= s);
    }
}

/// What a stakeholder with percentage `fees[k]` gets of `amount`, or zero for
/// an account that is not a stakeholder.
pub open spec fn share_for(fees: Map<Seq<char>, u128>, k: Seq<char>, amount: u128) -> int {
    if fees.dom().contains(k) {
        percent_of_spec(fees[k] as int, amount as int)
    } else {
        0
    }
}

impl Treasurer {
    /// The stakeholders and their percentages, for the owner.
    pub fn get_stakeholders(&self, caller: &String, current_account: &String) -> (res: Result<StrMap<u128>, SafeError>)
        requires
            self.wf(),
        ensures
            !self.owner_call(caller@, current_account@) ==> res == Err::<StrMap<u128>, SafeError>(SafeError::NotAllowed),
            self.owner_call(caller@, current_account@) ==> (res matches Ok(m) && m.wf() && m@ == self.stakeholders_fees@),
    {
        self.is_owner(caller, current_account)?;
        Ok(self.stakeholders_fees.copy())
    }

    /// After the token was registered on the exchange and its storage paid
    /// for (`None` where either failed, which is refused): its pool is
    /// recorded.
    pub fn callback_register_token(&mut self, register_ok: bool, deposit_ok: bool, token: String, pool_id: u64) -> (res:
        Result<(), SafeError>)
        requires
            old(self).wf(),
        ensures
            final(self).wf(),
            !(register_ok && deposit_ok) ==> res == Err::<(), SafeError>(SafeError::PromiseFailed) && *final(self)
                == *old(self),
            register_ok && deposit_ok ==> res is Ok && final(self).token_to_pool@ == old(self).token_to_pool@.insert(
                token@,
                pool_id,
            ) && *final(self) == (Treasurer { token_to_pool: final(self).token_to_pool, ..*old(self) }),
    {
        if !(register_ok && deposit_ok) {
            return Err(SafeError::PromiseFailed);
        }
        self.token_to_pool.insert(token, pool_id);
        Ok(())
    }

    /// Before registering a token: the owner only, and a token not yet
    /// registered (`AlreadyExists`).
    pub fn register_token(&self, caller: &String, current_account: &String, token: &String) -> (res: Result<(), SafeError>)
        requires
            self.wf(),
        ensures
            !self.owner_call(caller@, current_account@) ==> res == Err::<(), SafeError>(SafeError::NotAllowed),
            self.owner_call(caller@, current_account@) ==> (res is Ok <==> !self.token_to_pool@.dom().contains(token@)),
            self.owner_call(caller@, current_account@) && res is Err ==> res == Err::<(), SafeError>(SafeError::AlreadyExists),
    {
        self.is_owner(caller, current_account)?;
        if self.token_to_pool.contains_key(token) {
            return Err(SafeError::AlreadyExists);
        }
        Ok(())
    }

    /// The owner sets the pool of a registered token (`TokenNotRegistered`
    /// otherwise).
    pub fn update_token_pool(&mut self, caller: &String, current_account: &String, token: String, pool_id: u64) -> (res:
        Result<(), SafeError>)
        requires
            old(self).wf(),
        ensures
            final(self).wf(),
            !old(self).owner_call(caller@, current_account@) ==> res == Err::<(), SafeError>(SafeError::NotAllowed)
                && *final(self) == *old(self),
            old(self).owner_call(caller@, current_account@) && !old(self).token_to_pool@.dom().contains(token@) ==> res
                == Err::<(), SafeError>(SafeError::TokenNotRegistered) && *final(self) == *old(self),
            old(self).owner_call(caller@, current_account@) && old(self).token_to_pool@.dom().contains(token@) ==> res is Ok
                && final(self).token_to_pool@ == old(self).token_to_pool@.insert(token@, pool_id) && *final(self) == (
            Treasurer { token_to_pool: final(self).token_to_pool, ..*old(self) }),
    {
        self.is_owner(caller, current_account)?;
        if !self.token_to_pool.contains_key(&token) {
            return Err(SafeError::TokenNotRegistered);
        }
        self.token_to_pool.insert(token, pool_id);
        Ok(())
    }

    /// The registered tokens and their pools.
    pub fn get_registered_tokens(&self) -> (res: StrMap<u64>)
        requires
            self.wf(),
        ensures
            res.wf(),
            res@ == self.token_to_pool@,
    {
        self.token_to_pool.copy()
    }

    /// The pool in which `token` is swapped; `TokenNotRegistered` if none.
    pub fn execute_swaps_and_distribute(&self, token: &String) -> (res: Result<u64, SafeError>)
        requires
            self.wf(),
        ensures
            match res {
                Ok(p) => self.token_to_pool@.dom().contains(token@) && p == self.token_to_pool@[token@],
                Err(e) => e == SafeError::TokenNotRegistered && !self.token_to_pool@.dom().contains(token@),
            },
    {
        match self.token_to_pool.get(token) {
            Some(p) => Ok(*p),
            None => Err(SafeError::TokenNotRegistered),
        }
    }

    /// The treasurer's deposit of a token on the exchange (`None` where the
    /// call failed): all of it is to be swapped; a zero deposit is refused.
    pub fn get_token_return_and_swap(&self, token_balance: Option<u128>) -> (res: Result<u128, SafeError>)
        ensures
            match token_balance {
                None => res == Err::<u128, SafeError>(SafeError::PromiseFailed),
                Some(b) => if b == 0 {
                    res == Err::<u128, SafeError>(SafeError::ZeroAmount)
                } else {
                    res == Ok::<u128, SafeError>(b)
                },
            },
    {
        match token_balance {
            None => Err(SafeError::PromiseFailed),
            Some(b) => if b == 0 {
                Err(SafeError::ZeroAmount)
            } else {
                Ok(b)
            },
        }
    }

    /// The exchange's quote for the swap (`None` where the call failed): the
    /// swap asks for at least the whole quote; a zero quote is refused.
    pub fn swap(&self, amount_out: Option<u128>) -> (res: Result<u128, SafeError>)
        ensures
            match amount_out {
                None => res == Err::<u128, SafeError>(SafeError::CouldNotGetReturn),
                Some(v) => if v == 0 {
                    res == Err::<u128, SafeError>(SafeError::ZeroAmount)
                } else {
                    res == Ok::<u128, SafeError>(v)
                },
            },
    {
        match amount_out {
            None => Err(SafeError::CouldNotGetReturn),
            Some(v) => if v == 0 {
                Err(SafeError::ZeroAmount)
            } else {
                Ok(v)
            },
        }
    }

    /// `amount` of the swapped token, withdrawn from the exchange
    /// (`withdraw_ok` false where that failed, which is refused), is shared:
    /// each stakeholder may withdraw its percentage of it more, as
    /// [`share_for`] says, and the answer is `Stakeholders can already
    /// withdraw from Treasurer`. Refused, changing nothing, where a share is zero
    /// (`ZeroAmount`) or an amount would overflow.
    pub fn internal_distribute(&mut self, withdraw_ok: bool, amount: u128) -> (res: Result<String, SafeError>)
        requires
            old(self).wf(),
        ensures
            final(self).wf(),
            !withdraw_ok ==> res == Err::<String, SafeError>(SafeError::PromiseFailed) && *final(self) == *old(self),
            res is Err ==> *final(self) == *old(self),
            withdraw_ok && res is Err ==> res == Err::<String, SafeError>(
                match share_refusal(old(self).stakeholders_fees.entries@, amount) {
                    Some(e) => e,
                    None => SafeError::ArithmeticOverflow,
                },
            ),
            withdraw_ok && res is Err ==> exists|k: Seq<char>| #[trigger] old(self).stakeholders_fees@.dom().contains(k)
                && (amount * old(self).stakeholders_fees@[k] > u128::MAX || share_for(
                old(self).stakeholders_fees@,
                k,
                amount,
            ) == 0 || old(self).stakeholders_amount_available@[k] + share_for(old(self).stakeholders_fees@, k, amount)
                > u128::MAX),
            res is Ok ==> {
                &&& res matches Ok(m) && m@ == distributed_message()
                &&& final(self).stakeholders_amount_available@.dom() == old(self).stakeholders_amount_available@.dom()
                &&& forall|k: Seq<char>| #[trigger] final(self).stakeholders_amount_available@.dom().contains(k)
                    ==> final(self).stakeholders_amount_available@[k] == old(self).stakeholders_amount_available@[k]
                    + share_for(old(self).stakeholders_fees@, k, amount)
                &&& *final(self) == (Treasurer {
                    stakeholders_amount_available: final(self).stakeholders_amount_available,
                    ..*old(self)
                })
            },
            withdraw_ok && (forall|k: Seq<char>| #[trigger] old(self).stakeholders_fees@.dom().contains(k)
                ==> amount * old(self).stakeholders_fees@[k] <= u128::MAX && share_for(
                old(self).stakeholders_fees@,
                k,
                amount,
            ) > 0 && old(self).stakeholders_amount_available@[k] + share_for(old(self).stakeholders_fees@, k, amount)
                <= u128::MAX) ==> res is Ok,
    {
        if !withdraw_ok {
            return Err(SafeError::PromiseFailed);
        }
        let ghost fees = self.stakeholders_fees.entries@;
        proof {
            crate::strmap::lemma_map_of_len(fees);
        }
        let mut shares: Vec<u128> = Vec::new();
        let mut i: usize = 0;
        while i < self.stakeholders_fees.entries.len()
            invariant
                i <= fees.len(),
                fees == self.stakeholders_fees.entries@,
                *self == *old(self),
                old(self).wf(),
                withdraw_ok,
                shares@.len() == i,
                share_refusal(fees.take(i as int), amount) is None,
                forall|j: int| 0 <= j < i ==> #[trigger] shares@[j] == percent_of_spec(fees[j].1 as int, amount as int)
                    && shares@[j] > 0,
            decreases fees.len() - i,
        {
            let p = self.stakeholders_fees.entries[i].1;
            proof {
                lemma_fee_le_sum(fees, i as int);
                crate::strmap::lemma_map_of_value(fees, i as int);
                assert(fees.take(i + 1).drop_last() =~= fees.take(i as int));
                assert(fees.take(i + 1).last() == fees[i as int]);
            }
            let r = match percent_of(p, amount) {
                Some(r) => r,
                None => {
                    assert(old(self).stakeholders_fees@.dom().contains(fees[i as int].0@));
                    proof {
                        lemma_share_refusal_prefix(fees, i + 1, amount);
                    }
                    return Err(SafeError::ArithmeticOverflow);
                },
            };
            if r == 0 {
                assert(old(self).stakeholders_fees@.dom().contains(fees[i as int].0@));
                proof {
                    lemma_share_refusal_prefix(fees, i + 1, amount);
                }
                return Err(SafeError::ZeroAmount);
            }
            shares.push(r);
            i = i + 1;
        }
        assert(fees.take(i as int) =~= fees);
        let mut i: usize = 0;
        while i < self.stakeholders_fees.entries.len()
            invariant
                i <= fees.len(),
                fees == self.stakeholders_fees.entries@,
                *self == *old(self),
                old(self).wf(),
                withdraw_ok,
                shares@.len() == fees.len(),
                share_refusal(fees, amount) is None,
                forall|j: int| 0 <= j < fees.len() ==> #[trigger] shares@[j] == percent_of_spec(fees[j].1 as int, amount as int)
                    && shares@[j] > 0,
                forall|j: int| 0 <= j < i ==> self.stakeholders_amount_available@[#[trigger] fees[j].0@] + shares@[j] <= u128::MAX,
            decreases fees.len() - i,
        {
            proof {
                crate::strmap::lemma_map_of_value(fees, i as int);
            }
            let acc = &self.stakeholders_fees.entries[i].0;
            assert(old(self).stakeholders_fees@.dom().contains(fees[i as int].0@));
            assert(self.stakeholders_amount_available@.dom().contains(fees[i as int].0@));
            let before = match self.stakeholders_amount_available.get(acc) {
                Some(v) => *v,
                None => 0,
            };
            if before > u128::MAX - shares[i] {
                assert(old(self).stakeholders_fees@.dom().contains(fees[i as int].0@));
                return Err(SafeError::ArithmeticOverflow);
            }
            i = i + 1;
        }
        let ghost old_avail = self.stakeholders_amount_available@;
        let mut i: usize = 0;
        while i < self.stakeholders_fees.entries.len()
            invariant
                i <= fees.len(),
                fees == self.stakeholders_fees.entries@,
                *self == (Treasurer { stakeholders_amount_available: self.stakeholders_amount_available, ..*old(self) }),
                old(self).wf(),
                withdraw_ok,
                self.stakeholders_amount_available.wf(),
                old_avail == old(self).stakeholders_amount_available@,
                self.stakeholders_amount_available@.dom() == old_avail.dom(),
                shares@.len() == fees.len(),
                crate::strmap::keys_distinct(fees),
                forall|j: int| 0 <= j < fees.len() ==> #[trigger] shares@[j] == percent_of_spec(fees[j].1 as int, amount as int),
                forall|j: int| 0 <= j < fees.len() ==> old_avail[#[trigger] fees[j].0@] + shares@[j] <= u128::MAX,
                forall|k: Seq<char>| #[trigger] self.stakeholders_amount_available@.dom().contains(k) ==> self.stakeholders_amount_available@[k]
                    == old_avail[k] + (if exists|j: int| 0 <= j < i && fees[j].0@ == k {
                    share_for(old(self).stakeholders_fees@, k, amount)
                } else {
                    0
                }),
            decreases fees.len() - i,
        {
            proof {
                crate::strmap::lemma_map_of_value(fees, i as int);
            }
            let acc = self.stakeholders_fees.entries[i].0.clone();
            assert(old(self).stakeholders_fees@.dom().contains(fees[i as int].0@));
            assert(self.stakeholders_amount_available@.dom().contains(fees[i as int].0@));
            let before = match self.stakeholders_amount_available.get(&acc) {
                Some(v) => *v,
                None => 0,
            };
            let ghost avail_before = self.stakeholders_amount_available@;
            self.stakeholders_amount_available.insert(acc, before + shares[i]);
            proof {
                assert forall|k: Seq<char>| #[trigger] self.stakeholders_amount_available@.dom().contains(k) implies self.stakeholders_amount_available@[k]
                    == old_avail[k] + (if exists|j: int| 0 <= j < i + 1 && fees[j].0@ == k {
                    share_for(old(self).stakeholders_fees@, k, amount)
                } else {
                    0
                }) by {
                    if k == fees[i as int].0@ {
                        assert(!exists|j: int| 0 <= j < i && fees[j].0@ == k) by {
                            if exists|j: int| 0 <= j < i && fees[j].0@ == k {
                                let j = choose|j: int| 0 <= j < i && fees[j].0@ == k;
                                assert(fees[j].0@ != fees[i as int].0@);
                            }
                        }
                        assert(exists|j: int| 0 <= j < i + 1 && fees[j].0@ == k) by {
                            assert(fees[i as int].0@ == k);
                        }
                    } else {
                        assert(avail_before.dom().contains(k));
                        if exists|j: int| 0 <= j < i + 1 && fees[j].0@ == k {
                            let j = choose|j: int| 0 <= j < i + 1 && fees[j].0@ == k;
                            assert(j < i);
                        }
                    }
                }
            }
            i = i + 1;
        }
        proof {
            assert forall|k: Seq<char>| #[trigger] self.stakeholders_amount_available@.dom().contains(k) implies self.stakeholders_amount_available@[k]
                == old_avail[k] + share_for(old(self).stakeholders_fees@, k, amount) by {
                crate::strmap::lemma_map_of_dom(fees, k);
                if !old(self).stakeholders_fees@.dom().contains(k) {
                    assert(!exists|j: int| 0 <= j < fees.len() && fees[j].0@ == k);
                }
            }
        }
        Ok(distribution_answer())
    }

    /// What the stakeholder `caller` may withdraw; refused where it is not a
    /// stakeholder (`DoesNotExist`) or may withdraw nothing (`ZeroAmount`).
    pub fn withdraw(&self, caller: &String) -> (res: Result<u128, SafeError>)
        requires
            self.wf(),
        ensures
            !self.stakeholders_fees@.dom().contains(caller@) ==> res == Err::<u128, SafeError>(SafeError::DoesNotExist),
            self.stakeholders_fees@.dom().contains(caller@) ==> if self.stakeholders_amount_available@[caller@] == 0 {
                res == Err::<u128, SafeError>(SafeError::ZeroAmount)
            } else {
                res == Ok::<u128, SafeError>(self.stakeholders_amount_available@[caller@])
            },
    {
        if !self.stakeholders_fees.contains_key(caller) {
            return Err(SafeError::DoesNotExist);
        }
        let amount = match self.stakeholders_amount_available.get(caller) {
            Some(v) => *v,
            None => 0,
        };
        if amount == 0 {
            return Err(SafeError::ZeroAmount);
        }
        Ok(amount)
    }

    /// After a stakeholder's withdrawal was sent (`transfer_ok` false where it
    /// failed, which is refused): it may withdraw nothing more.
    pub fn callback_withdraw(&mut self, transfer_ok: bool, account_id: String) -> (res: Result<(), SafeError>)
        requires
            old(self).wf(),
        ensures
            final(self).wf(),
            !transfer_ok ==> res == Err::<(), SafeError>(SafeError::PromiseFailed) && *final(self) == *old(self),
            transfer_ok ==> res is Ok && final(self).stakeholders_amount_available@
                == old(self).stakeholders_amount_available@.insert(account_id@, 0) && *final(self) == (Treasurer {
                stakeholders_amount_available: final(self).stakeholders_amount_available,
                ..*old(self)
            }),
    {
        if !transfer_ok {
            return Err(SafeError::PromiseFailed);
        }
        self.stakeholders_amount_available.insert(account_id, 0);
        Ok(())
    }

    /// Sets whether the treasurer runs.
    pub fn update_contract_state(&mut self, state: RunningState)
        ensures
            *final(self) == (Treasurer { state, ..*old(self) }),
    {
        self.state = state;
    }
}

} // verus!
