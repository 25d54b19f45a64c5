//! The multi-token ledger of vault shares ("fft shares"): every seed id (the
//! LP token that a strategy stakes) has one share token; a user's shares are
//! their claim on the seed that the vault holds.
use vstd::prelude::*;
use crate::arith::{mul_div, mul_div_checked};
use crate::errors::SafeError;
use crate::ids::{decimal, u128_to_string};
use crate::strmap::StrMap;

verus! {

/// Balances, supplies and seed amounts of the share tokens.
pub struct ShareLedger {
    /// For every share token, the balance of each user.
    pub users_balance_by_fft_share: StrMap<StrMap<u128>>,
    /// Total supply of every share token.
    pub total_supply_by_fft_share: StrMap<u128>,
    /// The share token of every seed id.
    pub fft_share_by_seed_id: StrMap<String>,
    /// Amount of every seed that the vault holds.
    pub seed_id_amount: StrMap<u128>,
}

/// The name of the `n`-th share token: `fft_share_n`.
pub open spec fn fft_share_name(n: nat) -> Seq<char> {
    "fft_share_"@ + decimal(n)
}

impl ShareLedger {
    /// All maps are well formed.
    pub open spec fn wf(&self) -> bool {
        &&& self.users_balance_by_fft_share.wf()
        &&& self.total_supply_by_fft_share.wf()
        &&& self.fft_share_by_seed_id.wf()
        &&& self.seed_id_amount.wf()
        &&& forall|s: Seq<char>| #[trigger] self.users_balance_by_fft_share@.dom().contains(s)
            ==> self.users_balance_by_fft_share@[s].wf()
    }

    /// Shares of `user` in the share token `share` (zero if none are recorded).
    pub open spec fn balance_of(&self, share: Seq<char>, user: Seq<char>) -> u128 {
        if self.users_balance_by_fft_share@.dom().contains(share)
            && self.users_balance_by_fft_share@[share]@.dom().contains(user) {
            self.users_balance_by_fft_share@[share]@[user]
        } else {
            0
        }
    }

    /// Total supply of the share token `share` (zero if none is recorded).
    pub open spec fn supply_of(&self, share: Seq<char>) -> u128 {
        if self.total_supply_by_fft_share@.dom().contains(share) {
            self.total_supply_by_fft_share@[share]
        } else {
            0
        }
    }

    /// Amount of the seed `seed` held by the vault, if recorded.
    pub open spec fn seed_amount_of(&self, seed: Seq<char>) -> Option<u128> {
        if self.seed_id_amount@.dom().contains(seed) {
            Some(self.seed_id_amount@[seed])
        } else {
            None
        }
    }

    /// Amount of the seed `seed` held by the vault, zero if none is recorded.
    pub open spec fn seed_amount_or_zero(&self, seed: Seq<char>) -> u128 {
        match self.seed_amount_of(seed) {
            Some(v) => v,
            None => 0,
        }
    }

    /// The share token of the seed `seed`, if registered.
    pub open spec fn share_of_seed(&self, seed: Seq<char>) -> Option<Seq<char>> {
        if self.fft_share_by_seed_id@.dom().contains(seed) {
            Some(self.fft_share_by_seed_id@[seed]@)
        } else {
            None
        }
    }

    /// Balances agree everywhere except possibly at `share` / `user`.
    pub open spec fn balances_agree_except(&self, other: &Self, share: Seq<char>, user: Seq<char>) -> bool {
        forall|s: Seq<char>, u: Seq<char>|
            !(s == share && u == user) ==> #[trigger] self.balance_of(s, u) == other.balance_of(s, u)
    }

    /// Balances agree everywhere except possibly at `share` for `u1` and `u2`.
    pub open spec fn balances_agree_except_two(
        &self,
        other: &Self,
        share: Seq<char>,
        u1: Seq<char>,
        u2: Seq<char>,
    ) -> bool {
        forall|s: Seq<char>, u: Seq<char>|
            !(s == share && (u == u1 || u == u2)) ==> #[trigger] self.balance_of(s, u)
                == other.balance_of(s, u)
    }

    /// Supplies agree everywhere except possibly at `share`.
    pub open spec fn supplies_agree_except(&self, other: &Self, share: Seq<char>) -> bool {
        forall|s: Seq<char>| s != share ==> #[trigger] self.supply_of(s) == other.supply_of(s)
    }

    /// The maps of seeds are those of `other`.
    pub open spec fn seeds_same(&self, other: &Self) -> bool {
        &&& self.fft_share_by_seed_id@ == other.fft_share_by_seed_id@
        &&& self.seed_id_amount@ == other.seed_id_amount@
    }

    /// An empty ledger.
    pub fn new() -> (res: Self)
        ensures
            res.wf(),
            forall|s: Seq<char>, u: Seq<char>| #[trigger] res.balance_of(s, u) == 0,
            forall|s: Seq<char>| #[trigger] res.supply_of(s) == 0,
            res.users_balance_by_fft_share@ == Map::<Seq<char>, StrMap<u128>>::empty(),
            res.total_supply_by_fft_share@ == Map::<Seq<char>, u128>::empty(),
            res.fft_share_by_seed_id@ == Map::<Seq<char>, String>::empty(),
            res.seed_id_amount@ == Map::<Seq<char>, u128>::empty(),
    {
        ShareLedger {
            users_balance_by_fft_share: StrMap::new(),
            total_supply_by_fft_share: StrMap::new(),
            fft_share_by_seed_id: StrMap::new(),
            seed_id_amount: StrMap::new(),
        }
    }

    /// The share token of a seed id.
    pub fn fft_token_seed_id(&self, seed_id: &String) -> (res: Result<String, SafeError>)
        requires
            self.wf(),
        ensures
            match res {
                Ok(s) => self.share_of_seed(seed_id@) == Some(s@),
                Err(e) => e == SafeError::SeedDoesNotExist && self.share_of_seed(seed_id@) is None,
            },
    {
        match self.fft_share_by_seed_id.get(seed_id) {
            Some(s) => Ok(s.clone()),
            None => Err(SafeError::SeedDoesNotExist),
        }
    }

    /// Shares that `user` holds of the share token `fft_share`.
    pub fn users_fft_share_amount(&self, fft_share: &String, user: &String) -> (res: u128)
        requires
            self.wf(),
        ensures
            res == self.balance_of(fft_share@, user@),
    {
        match self.users_balance_by_fft_share.get(fft_share) {
            Some(m) => match m.get(user) {
                Some(v) => *v,
                None => 0,
            },
            None => 0,
        }
    }

    /// Total supply of the share token `fft_share`.
    pub fn total_supply_amount(&self, fft_share: &String) -> (res: u128)
        requires
            self.wf(),
        ensures
            res == self.supply_of(fft_share@),
    {
        match self.total_supply_by_fft_share.get(fft_share) {
            Some(v) => *v,
            None => 0,
        }
    }

    /// Amount of the seed `seed_id` held by the vault, if recorded.
    pub fn seed_total_amount(&self, seed_id: &String) -> (res: Option<u128>)
        requires
            self.wf(),
        ensures
            res == self.seed_amount_of(seed_id@),
    {
        match self.seed_id_amount.get(seed_id) {
            Some(v) => Some(*v),
            None => None,
        }
    }

    /// Total supply of the share token of a seed id.
    pub fn total_supply_by_seed(&self, seed_id: &String) -> (res: Result<u128, SafeError>)
        requires
            self.wf(),
        ensures
            match res {
                Ok(v) => self.share_of_seed(seed_id@) is Some && v == self.supply_of(
                    self.share_of_seed(seed_id@)->0,
                ),
                Err(e) => e == SafeError::SeedDoesNotExist && self.share_of_seed(seed_id@) is None,
            },
    {
        let share = self.fft_token_seed_id(seed_id)?;
        Ok(self.total_supply_amount(&share))
    }

    /// Starts a fresh balance map for `fft_share`, holding only the empty account
    /// with no shares; the balances it had before are dropped.
    pub fn register_seed(&mut self, fft_share: String)
        requires
            old(self).wf(),
        ensures
            final(self).wf(),
            forall|u: Seq<char>| #[trigger] final(self).balance_of(fft_share@, u) == 0,
            forall|s: Seq<char>, u: Seq<char>|
                s != fft_share@ ==> #[trigger] final(self).balance_of(s, u) == old(self).balance_of(s, u),
            forall|s: Seq<char>| #[trigger] final(self).supply_of(s) == old(self).supply_of(s),
            final(self).seeds_same(&*old(self)),
    {
        let mut temp: StrMap<u128> = StrMap::new();
        temp.insert(String::new(), 0u128);
        self.users_balance_by_fft_share.insert(fft_share, temp);
    }

    /// Records `fft_share` as the share token of `seed_id`, with no holders and
    /// no supply.
    pub fn register_share_for_seed(&mut self, seed_id: String, fft_share: String)
        requires
            old(self).wf(),
        ensures
            final(self).wf(),
            final(self).fft_share_by_seed_id@ == old(self).fft_share_by_seed_id@.insert(seed_id@, fft_share),
            final(self).seed_id_amount@ == old(self).seed_id_amount@,
            forall|u: Seq<char>| #[trigger] final(self).balance_of(fft_share@, u) == 0,
            final(self).supply_of(fft_share@) == 0,
            forall|s: Seq<char>, u: Seq<char>|
                s != fft_share@ ==> #[trigger] final(self).balance_of(s, u) == old(self).balance_of(s, u),
            final(self).supplies_agree_except(&*old(self), fft_share@),
    {
        let share_copy = fft_share.clone();
        let share_copy2 = fft_share.clone();
        self.fft_share_by_seed_id.insert(seed_id, fft_share);
        self.users_balance_by_fft_share.insert(share_copy, StrMap::new());
        self.total_supply_by_fft_share.insert(share_copy2, 0u128);
    }

    /// Sets the amount of `seed_id` held by the vault.
    pub fn set_seed_amount(&mut self, seed_id: String, amount: u128)
        requires
            old(self).wf(),
        ensures
            final(self).wf(),
            final(self).seed_id_amount@ == old(self).seed_id_amount@.insert(seed_id@, amount),
            final(self).fft_share_by_seed_id@ == old(self).fft_share_by_seed_id@,
            final(self).users_balance_by_fft_share@ == old(self).users_balance_by_fft_share@,
            final(self).total_supply_by_fft_share@ == old(self).total_supply_by_fft_share@,
    {
        self.seed_id_amount.insert(seed_id, amount);
    }

    /// The name of the share token for a new seed id: `None` if the seed id has
    /// one already, otherwise `fft_share_n` where `n - 1` seeds are registered.
    pub fn new_fft_share(&self, seed_id: &String) -> (res: Option<String>)
        requires
            self.wf(),
        ensures
            self.fft_share_by_seed_id@.dom().contains(seed_id@) ==> res is None,
            !self.fft_share_by_seed_id@.dom().contains(seed_id@) ==> (res matches Some(s) && s@
                == fft_share_name(self.fft_share_by_seed_id@.dom().len() + 1)),
    {
        if self.fft_share_by_seed_id.contains_key(seed_id) {
            None
        } else {
            let n = self.fft_share_by_seed_id.len();
            let num: u128 = n as u128 + 1;
            let mut name = String::from_str("fft_share_");
            let digits = u128_to_string(num);
            name.append(digits.as_str());
            Some(name)
        }
    }

    /// Sets the balance of `user` in `fft_share` to `amount`.
    fn set_balance(&mut self, fft_share: &String, user: &String, amount: u128)
        requires
            old(self).wf(),
        ensures
            final(self).wf(),
            final(self).balance_of(fft_share@, user@) == amount,
            final(self).balances_agree_except(&*old(self), fft_share@, user@),
            final(self).total_supply_by_fft_share@ == old(self).total_supply_by_fft_share@,
            final(self).seeds_same(&*old(self)),
    {
        let mut inner: StrMap<u128> = match self.users_balance_by_fft_share.get(fft_share) {
            Some(m) => m.copy(),
            None => StrMap::new(),
        };
        inner.insert(user.clone(), amount);
        self.users_balance_by_fft_share.insert(fft_share.clone(), inner);
        proof {
            let o = old(self).users_balance_by_fft_share@;
            let n = self.users_balance_by_fft_share@;
            assert forall|s: Seq<char>| #[trigger] n.dom().contains(s) implies n[s].wf() by {
                if s != fft_share@ {
                    assert(o.dom().contains(s));
                }
            }
        }
    }

    /// Sets the total supply of `fft_share` to `amount`.
    fn set_supply(&mut self, fft_share: &String, amount: u128)
        requires
            old(self).wf(),
        ensures
            final(self).wf(),
            final(self).supply_of(fft_share@) == amount,
            final(self).supplies_agree_except(&*old(self), fft_share@),
            final(self).users_balance_by_fft_share@ == old(self).users_balance_by_fft_share@,
            final(self).seeds_same(&*old(self)),
    {
        self.total_supply_by_fft_share.insert(fft_share.clone(), amount);
    }

    /// Mints `balance` shares of `fft_share` for `user` and grows the supply
    /// accordingly; returns the user's new balance. Refused, with nothing
    /// changed, where the balance or the supply would overflow.
    pub fn mft_mint(&mut self, fft_share: String, balance: u128, user: String) -> (res: Result<
        u128,
        SafeError,
    >)
        requires
            old(self).wf(),
        ensures
            final(self).wf(),
            res is Ok <==> old(self).balance_of(fft_share@, user@) + balance <= u128::MAX
                && old(self).supply_of(fft_share@) + balance <= u128::MAX,
            match res {
                Ok(v) => {
                    &&& v == old(self).balance_of(fft_share@, user@) + balance
                    &&& final(self).balance_of(fft_share@, user@) == v
                    &&& final(self).supply_of(fft_share@) == old(self).supply_of(fft_share@) + balance
                    &&& final(self).balances_agree_except(&*old(self), fft_share@, user@)
                    &&& final(self).supplies_agree_except(&*old(self), fft_share@)
                    &&& final(self).seeds_same(&*old(self))
                },
                Err(e) => e == SafeError::ArithmeticOverflow && *final(self) == *old(self),
            },
    {
        let old_amount = self.users_fft_share_amount(&fft_share, &user);
        let old_total = self.total_supply_amount(&fft_share);
        if old_amount > u128::MAX - balance || old_total > u128::MAX - balance {
            return Err(SafeError::ArithmeticOverflow);
        }
        let new_balance = old_amount + balance;
        let ghost before = *self;
        self.set_balance(&fft_share, &user, new_balance);
        let ghost mid = *self;
        self.set_supply(&fft_share, old_total + balance);
        proof {
            assert forall|s: Seq<char>, u: Seq<char>| #[trigger] self.balance_of(s, u) == mid.balance_of(s, u) by {}
            assert forall|s: Seq<char>| #[trigger] mid.supply_of(s) == before.supply_of(s) by {}
            assert(self.balances_agree_except(&before, fft_share@, user@));
        }
        Ok(new_balance)
    }

    /// Burns `balance` shares of `fft_share` from `user` and shrinks the supply
    /// accordingly; returns the user's new balance. Refused, with nothing
    /// changed, where the user holds fewer shares or the supply is smaller.
    pub fn mft_burn(&mut self, fft_share: String, balance: u128, user: String) -> (res: Result<
        u128,
        SafeError,
    >)
        requires
            old(self).wf(),
        ensures
            final(self).wf(),
            match res {
                Ok(v) => {
                    &&& old(self).balance_of(fft_share@, user@) >= balance
                    &&& old(self).supply_of(fft_share@) >= balance
                    &&& v == old(self).balance_of(fft_share@, user@) - balance
                    &&& final(self).balance_of(fft_share@, user@) == v
                    &&& final(self).supply_of(fft_share@) == old(self).supply_of(fft_share@) - balance
                    &&& final(self).balances_agree_except(&*old(self), fft_share@, user@)
                    &&& final(self).supplies_agree_except(&*old(self), fft_share@)
                    &&& final(self).seeds_same(&*old(self))
                },
                Err(e) => {
                    &&& *final(self) == *old(self)
                    &&& (old(self).balance_of(fft_share@, user@) < balance ==> e
                        == SafeError::NotEnoughBalance)
                    &&& (old(self).balance_of(fft_share@, user@) >= balance ==> e
                        == SafeError::ArithmeticOverflow && old(self).supply_of(fft_share@) < balance)
                },
            },
    {
        let old_amount = self.users_fft_share_amount(&fft_share, &user);
        if old_amount < balance {
            return Err(SafeError::NotEnoughBalance);
        }
        let old_total = self.total_supply_amount(&fft_share);
        if old_total < balance {
            return Err(SafeError::ArithmeticOverflow);
        }
        let new_balance = old_amount - balance;
        let ghost before = *self;
        self.set_balance(&fft_share, &user, new_balance);
        let ghost mid = *self;
        self.set_supply(&fft_share, old_total - balance);
        proof {
            assert forall|s: Seq<char>, u: Seq<char>| #[trigger] self.balance_of(s, u) == mid.balance_of(s, u) by {}
            assert forall|s: Seq<char>| #[trigger] mid.supply_of(s) == before.supply_of(s) by {}
            assert(self.balances_agree_except(&before, fft_share@, user@));
        }
        Ok(new_balance)
    }

    /// Moves `amount` shares of `fft_share` from `sender_id` to `receiver_id`;
    /// the supply is unchanged. Refused, with nothing changed, where the sender
    /// holds fewer shares or the receiver's balance would overflow.
    pub fn share_transfer(
        &mut self,
        fft_share: String,
        sender_id: String,
        receiver_id: String,
        amount: u128,
    ) -> (res: Result<(), SafeError>)
        requires
            old(self).wf(),
        ensures
            final(self).wf(),
            match res {
                Ok(_) => {
                    &&& old(self).balance_of(fft_share@, sender_id@) >= amount
                    &&& sender_id@ != receiver_id@ ==> final(self).balance_of(fft_share@, sender_id@)
                        == old(self).balance_of(fft_share@, sender_id@) - amount
                    &&& sender_id@ != receiver_id@ ==> final(self).balance_of(fft_share@, receiver_id@)
                        == old(self).balance_of(fft_share@, receiver_id@) + amount
                    &&& sender_id@ == receiver_id@ ==> final(self).balance_of(fft_share@, sender_id@)
                        == old(self).balance_of(fft_share@, sender_id@)
                    &&& final(self).balances_agree_except_two(
                        &*old(self),
                        fft_share@,
                        sender_id@,
                        receiver_id@,
                    )
                    &&& final(self).total_supply_by_fft_share@ == old(self).total_supply_by_fft_share@
                    &&& final(self).seeds_same(&*old(self))
                },
                Err(e) => {
                    &&& *final(self) == *old(self)
                    &&& (old(self).balance_of(fft_share@, sender_id@) < amount ==> e
                        == SafeError::NotEnoughBalance)
                    &&& (old(self).balance_of(fft_share@, sender_id@) >= amount ==> e
                        == SafeError::ArithmeticOverflow && sender_id@ != receiver_id@
                        && old(self).balance_of(fft_share@, receiver_id@) + amount > u128::MAX)
                },
            },
    {
        let old_amount = self.users_fft_share_amount(&fft_share, &sender_id);
        if old_amount < amount {
            return Err(SafeError::NotEnoughBalance);
        }
        if sender_id != receiver_id {
            let old_receiver = self.users_fft_share_amount(&fft_share, &receiver_id);
            if old_receiver > u128::MAX - amount {
                return Err(SafeError::ArithmeticOverflow);
            }
        }
        let ghost before = *self;
        self.set_balance(&fft_share, &sender_id, old_amount - amount);
        let ghost middle = *self;
        let receiver_old = self.users_fft_share_amount(&fft_share, &receiver_id);
        self.set_balance(&fft_share, &receiver_id, receiver_old + amount);
        proof {
            assert forall|s: Seq<char>, u: Seq<char>|
                !(s == fft_share@ && (u == sender_id@ || u == receiver_id@)) implies #[trigger] self.balance_of(s, u)
                == before.balance_of(s, u) by {
                assert(self.balance_of(s, u) == middle.balance_of(s, u));
                assert(middle.balance_of(s, u) == before.balance_of(s, u));
            }
            if sender_id@ != receiver_id@ {
                assert(middle.balance_of(fft_share@, receiver_id@) == before.balance_of(fft_share@, receiver_id@));
                assert(self.balance_of(fft_share@, sender_id@) == middle.balance_of(fft_share@, sender_id@));
            }
        }
        Ok(())
    }

    /// Moves shares between two different accounts.
    pub fn internal_mft_transfer(
        &mut self,
        token_id: String,
        sender_id: String,
        receiver_id: String,
        amount: u128,
    ) -> (res: Result<(), SafeError>)
        requires
            old(self).wf(),
        ensures
            final(self).wf(),
            sender_id@ == receiver_id@ ==> res == Err::<(), SafeError>(SafeError::TransferToSelf)
                && *final(self) == *old(self),
            match res {
                Ok(_) => {
                    &&& sender_id@ != receiver_id@
                    &&& old(self).balance_of(token_id@, sender_id@) >= amount
                    &&& final(self).balance_of(token_id@, sender_id@) == old(self).balance_of(
                        token_id@,
                        sender_id@,
                    ) - amount
                    &&& final(self).balance_of(token_id@, receiver_id@) == old(self).balance_of(
                        token_id@,
                        receiver_id@,
                    ) + amount
                    &&& final(self).balances_agree_except_two(
                        &*old(self),
                        token_id@,
                        sender_id@,
                        receiver_id@,
                    )
                    &&& final(self).total_supply_by_fft_share@ == old(self).total_supply_by_fft_share@
                    &&& final(self).seeds_same(&*old(self))
                },
                Err(e) => {
                    &&& *final(self) == *old(self)
                    &&& sender_id@ != receiver_id@ && old(self).balance_of(token_id@, sender_id@)
                        < amount ==> e == SafeError::NotEnoughBalance
                    &&& sender_id@ != receiver_id@ && old(self).balance_of(token_id@, sender_id@)
                        >= amount ==> e == SafeError::ArithmeticOverflow && old(self).balance_of(
                        token_id@,
                        receiver_id@,
                    ) + amount > u128::MAX
                },
            },
    {
        if sender_id == receiver_id {
            return Err(SafeError::TransferToSelf);
        }
        self.share_transfer(token_id, sender_id, receiver_id, amount)
    }

    /// The part of the seed held by the vault that the shares of `user` stand for:
    /// `user_shares * seed_amount / share_supply`, or zero where any of the
    /// three is zero.
    pub fn user_share_seed_id(&self, seed_id: &String, user: &String) -> (res: Result<u128, SafeError>)
        requires
            self.wf(),
        ensures
            match res {
                Ok(v) => {
                    &&& self.share_of_seed(seed_id@) is Some
                    &&& v == user_seed_share(
                        self.balance_of(self.share_of_seed(seed_id@)->0, user@) as int,
                        self.seed_amount_or_zero(seed_id@) as int,
                        self.supply_of(self.share_of_seed(seed_id@)->0) as int,
                    )
                },
                Err(e) => {
                    ||| e == SafeError::SeedDoesNotExist && self.share_of_seed(seed_id@) is None
                    ||| e == SafeError::ArithmeticOverflow && self.share_of_seed(seed_id@) is Some
                        && user_seed_share(
                        self.balance_of(self.share_of_seed(seed_id@)->0, user@) as int,
                        self.seed_amount_or_zero(seed_id@) as int,
                        self.supply_of(self.share_of_seed(seed_id@)->0) as int,
                    ) > u128::MAX
                },
            },
    {
        let fft_name = self.fft_token_seed_id(seed_id)?;
        let user_fft_shares = self.users_fft_share_amount(&fft_name, user);
        let total_fft = self.total_supply_amount(&fft_name);
        let total_seed = match self.seed_total_amount(seed_id) {
            Some(v) => v,
            None => 0,
        };
        if total_fft == 0 || total_seed == 0 || user_fft_shares == 0 {
            Ok(0)
        } else {
            match mul_div_checked(user_fft_shares, total_seed, total_fft) {
                Some(v) => Ok(v),
                None => Err(SafeError::ArithmeticOverflow),
            }
        }
    }
}


impl ShareLedger {
    /// A deposit of `shares` of the seed `seed_id` by `account_id`, once
    /// staked: the account gets the shares [`shares_to_mint`] says, computed
    /// from the supply and the seed held before the deposit, and the vault
    /// holds `shares` more of the seed. Returns the shares minted. Refused,
    /// with nothing changed, where the seed has no share token, where the seed
    /// held would overflow, where there is a supply but no seed held
    /// (`DivisionByZero`), or where the shares minted, the account's balance
    /// or the supply would overflow.
    pub fn deposit_shares(&mut self, seed_id: &String, account_id: &String, shares: u128) -> (res: Result<u128, SafeError>)
        requires
            old(self).wf(),
        ensures
            final(self).wf(),
            deposit_step(*old(self), *final(self), *seed_id, *account_id, shares, res),
    {
        let share = match self.fft_token_seed_id(seed_id) {
            Ok(s) => s,
            Err(e) => return Err(e),
        };
        let total_fft = self.total_supply_amount(&share);
        let total_seed = match self.seed_total_amount(seed_id) {
            Some(v) => v,
            None => 0,
        };
        if total_seed > u128::MAX - shares {
            return Err(SafeError::ArithmeticOverflow);
        }
        let minted = match compute_shares_to_mint(shares, total_fft, total_seed) {
            Ok(v) => v,
            Err(e) => return Err(e),
        };
        match self.mft_mint(share, minted, account_id.clone()) {
            Ok(_) => {},
            Err(e) => return Err(e),
        }
        let ghost mid = *self;
        self.set_seed_amount(seed_id.clone(), total_seed + shares);
        proof {
            assert forall|s: Seq<char>, u: Seq<char>| #[trigger] self.balance_of(s, u) == mid.balance_of(s, u) by {}
            assert forall|s: Seq<char>| #[trigger] self.supply_of(s) == mid.supply_of(s) by {}
        }
        Ok(minted)
    }

    /// After `amount` of the seed `seed_id` was sent to `account_id`: the vault
    /// holds that much less and the account's `fft_shares` shares are burnt.
    /// Refused, with nothing changed, where the vault holds less seed
    /// (`ArithmeticOverflow`), where the seed has no share token, or where the
    /// burn is refused.
    pub fn withdraw_shares(&mut self, seed_id: &String, account_id: &String, amount: u128, fft_shares: u128) -> (res:
        Result<(), SafeError>)
        requires
            old(self).wf(),
        ensures
            final(self).wf(),
            withdraw_step(*old(self), *final(self), *seed_id, *account_id, amount, fft_shares, res),
    {
        let total_seed = match self.seed_total_amount(seed_id) {
            Some(v) => v,
            None => 0,
        };
        if total_seed < amount {
            return Err(SafeError::ArithmeticOverflow);
        }
        let share = match self.fft_token_seed_id(seed_id) {
            Ok(s) => s,
            Err(e) => return Err(e),
        };
        match self.mft_burn(share, fft_shares, account_id.clone()) {
            Ok(_) => {},
            Err(e) => return Err(e),
        }
        let ghost mid = *self;
        self.set_seed_amount(seed_id.clone(), total_seed - amount);
        proof {
            assert forall|s: Seq<char>, u: Seq<char>| #[trigger] self.balance_of(s, u) == mid.balance_of(s, u) by {}
            assert forall|s: Seq<char>| #[trigger] self.supply_of(s) == mid.supply_of(s) by {}
        }
        Ok(())
    }

    /// What `caller` withdraws of the seed `seed_id` and the shares it burns,
    /// as [`compute_withdrawal`] says, from the caller's shares, the supply and
    /// the seed held. Where `holder_only`, a caller with no share is refused
    /// (`NotEnoughBalance`); a seed with no share token is refused.
    pub fn unstake_plan(&self, seed_id: &String, caller: &String, amount_withdrawal: Option<u128>, holder_only: bool) -> (res:
        Result<(u128, u128), SafeError>)
        requires
            self.wf(),
        ensures
            unstake_plan_is(*self, *seed_id, *caller, amount_withdrawal, holder_only, res),
    {
        let share = match self.fft_token_seed_id(seed_id) {
            Ok(s) => s,
            Err(e) => return Err(e),
        };
        let user_fft = self.users_fft_share_amount(&share, caller);
        if holder_only && user_fft == 0 {
            return Err(SafeError::NotEnoughBalance);
        }
        let total_fft = self.total_supply_amount(&share);
        let total_seed = match self.seed_total_amount(seed_id) {
            Some(v) => v,
            None => 0,
        };
        compute_withdrawal(user_fft, total_fft, total_seed, amount_withdrawal)
    }
}

/// What a deposit of `shares` of `seed_id` by `account_id` does to the ledger
/// (`old` becoming `new`) and gives, as [`ShareLedger::deposit_shares`] says.
pub open spec fn deposit_step(old: ShareLedger, new: ShareLedger, seed_id: String, account_id: String, shares: u128, res: Result<u128, SafeError>) -> bool {
    match old.share_of_seed(seed_id@) {
        None => res == Err::<u128, SafeError>(SafeError::SeedDoesNotExist) && new == old,
        Some(share) => {
            let total_fft = old.supply_of(share);
            let total_seed = old.seed_amount_or_zero(seed_id@);
            let minted = shares_to_mint(shares as int, total_fft as int, total_seed as int);
            if total_seed + shares > u128::MAX {
                res == Err::<u128, SafeError>(SafeError::ArithmeticOverflow) && new == old
            } else if total_fft != 0 && total_seed == 0 {
                res == Err::<u128, SafeError>(SafeError::DivisionByZero) && new == old
            } else if minted > u128::MAX || old.balance_of(share, account_id@) + minted > u128::MAX
                || total_fft + minted > u128::MAX {
                res == Err::<u128, SafeError>(SafeError::ArithmeticOverflow) && new == old
            } else {
                &&& res == Ok::<u128, SafeError>(minted as u128)
                &&& new.balance_of(share, account_id@) == old.balance_of(share, account_id@)
                    + minted
                &&& new.supply_of(share) == total_fft + minted
                &&& new.balances_agree_except(&old, share, account_id@)
                &&& new.supplies_agree_except(&old, share)
                &&& new.seed_id_amount@ == old.seed_id_amount@.insert(
                    seed_id@,
                    (total_seed + shares) as u128,
                )
                &&& new.fft_share_by_seed_id@ == old.fft_share_by_seed_id@
            }
        },
    }
}

/// What a withdrawal of `amount` of `seed_id` for `fft_shares` shares of
/// `account_id` does to the ledger (`old` becoming `new`), as
/// [`ShareLedger::withdraw_shares`] says.
pub open spec fn withdraw_step(old: ShareLedger, new: ShareLedger, seed_id: String, account_id: String, amount: u128, fft_shares: u128, res: Result<(), SafeError>) -> bool {
    ({
        let total_seed = old.seed_amount_or_zero(seed_id@);
        if total_seed < amount {
            res == Err::<(), SafeError>(SafeError::ArithmeticOverflow) && new == old
        } else {
            match old.share_of_seed(seed_id@) {
                None => res == Err::<(), SafeError>(SafeError::SeedDoesNotExist) && new
                    == old,
                Some(share) => if old.balance_of(share, account_id@) < fft_shares {
                    res == Err::<(), SafeError>(SafeError::NotEnoughBalance) && new == old
                } else if old.supply_of(share) < fft_shares {
                    res == Err::<(), SafeError>(SafeError::ArithmeticOverflow) && new == old
                } else {
                    &&& res is Ok
                    &&& new.balance_of(share, account_id@) == old.balance_of(share, account_id@)
                        - fft_shares
                    &&& new.supply_of(share) == old.supply_of(share) - fft_shares
                    &&& new.balances_agree_except(&old, share, account_id@)
                    &&& new.supplies_agree_except(&old, share)
                    &&& new.seed_id_amount@ == old.seed_id_amount@.insert(
                        seed_id@,
                        (total_seed - amount) as u128,
                    )
                    &&& new.fft_share_by_seed_id@ == old.fft_share_by_seed_id@
                },
            }
        }
    })
}

/// What `caller` withdraws of `seed_id` and the shares it burns, as
/// [`ShareLedger::unstake_plan`] says.
pub open spec fn unstake_plan_is(
    ledger: ShareLedger,
    seed_id: String,
    caller: String,
    amount_withdrawal: Option<u128>,
    holder_only: bool,
    res: Result<(u128, u128), SafeError>,
) -> bool {
    match ledger.share_of_seed(seed_id@) {
        None => res == Err::<(u128, u128), SafeError>(SafeError::SeedDoesNotExist),
        Some(share) => {
            let user_fft = ledger.balance_of(share, caller@);
            let total_fft = ledger.supply_of(share);
            let total_seed = ledger.seed_amount_or_zero(seed_id@);
            if holder_only && user_fft == 0 {
                res == Err::<(u128, u128), SafeError>(SafeError::NotEnoughBalance)
            } else {
                match res {
                    Ok((amount, burnt)) => withdrawal_outcome(
                        user_fft as int,
                        total_fft as int,
                        total_seed as int,
                        amount_withdrawal,
                    ) == Ok::<(int, int), SafeError>((amount as int, burnt as int)),
                    Err(e) => withdrawal_outcome(user_fft as int, total_fft as int, total_seed as int, amount_withdrawal)
                        == Err::<(int, int), SafeError>(e),
                }
            }
        },
    }
}


/// A deposit followed by the withdrawal of the same seed for the shares it
/// minted leaves every balance, every supply and the seed held as they were.
pub proof fn lemma_deposit_then_withdraw(
    l0: ShareLedger,
    l1: ShareLedger,
    l2: ShareLedger,
    seed_id: String,
    account_id: String,
    shares: u128,
    minted: u128,
)
    requires
        deposit_step(l0, l1, seed_id, account_id, shares, Ok(minted)),
        withdraw_step(l1, l2, seed_id, account_id, shares, minted, Ok(())),
    ensures
        forall|s: Seq<char>, u: Seq<char>| #[trigger] l2.balance_of(s, u) == l0.balance_of(s, u),
        forall|s: Seq<char>| #[trigger] l2.supply_of(s) == l0.supply_of(s),
        l2.seed_amount_or_zero(seed_id@) == l0.seed_amount_or_zero(seed_id@),
        l2.fft_share_by_seed_id@ == l0.fft_share_by_seed_id@,
{
    let share = l0.share_of_seed(seed_id@)->0;
    assert(l1.share_of_seed(seed_id@) == l0.share_of_seed(seed_id@));
    assert(l1.seed_amount_or_zero(seed_id@) == l0.seed_amount_or_zero(seed_id@) + shares);
    assert forall|s: Seq<char>, u: Seq<char>| #[trigger] l2.balance_of(s, u) == l0.balance_of(s, u) by {
        if !(s == share && u == account_id@) {
            assert(l2.balance_of(s, u) == l1.balance_of(s, u));
            assert(l1.balance_of(s, u) == l0.balance_of(s, u));
        }
    }
    assert forall|s: Seq<char>| #[trigger] l2.supply_of(s) == l0.supply_of(s) by {
        if s != share {
            assert(l2.supply_of(s) == l1.supply_of(s));
        }
    }
}

/// Whole-number price bound: where `a * d <= c * b`, `a / b <= c / d`.
proof fn lemma_div_le(a: int, b: int, c: int, d: int)
    requires
        a >= 0,
        b > 0,
        c >= 0,
        d > 0,
        a * d <= c * b,
    ensures
        a / b <= c / d,
{
    let q = a / b;
    vstd::arithmetic::div_mod::lemma_fundamental_div_mod(a, b);
    assert(q * b <= a) by (nonlinear_arith)
        requires
            a == b * (a / b) + a % b,
            a % b >= 0,
            q == a / b,
    ;
    assert(q * d * b <= c * b) by (nonlinear_arith)
        requires
            q * b <= a,
            a * d <= c * b,
            d > 0,
            q >= 0,
    ;
    assert(q * d <= c) by (nonlinear_arith)
        requires
            q * d * b <= c * b,
            b > 0,
    ;
    vstd::arithmetic::div_mod::lemma_div_is_ordered_by_denominator(c, d, d);
    assert(q <= c / d) by (nonlinear_arith)
        requires
            q * d <= c,
            d > 0,
            q >= 0,
    {
        vstd::arithmetic::div_mod::lemma_div_multiples_vanish(q, d);
        vstd::arithmetic::div_mod::lemma_div_is_ordered(q * d, c, d);
    }
}

/// A deposit never lowers what a share is worth: after it, any number of
/// shares stands for at least as much of the seed as before, since the shares
/// minted are rounded down.
pub proof fn lemma_deposit_never_dilutes(
    l0: ShareLedger,
    l1: ShareLedger,
    seed_id: String,
    account_id: String,
    shares: u128,
    minted: u128,
    x: u128,
)
    requires
        deposit_step(l0, l1, seed_id, account_id, shares, Ok(minted)),
        l0.share_of_seed(seed_id@) is Some,
        l0.supply_of(l0.share_of_seed(seed_id@)->0) > 0,
    ensures
        ({
            let share = l0.share_of_seed(seed_id@)->0;
            user_seed_share(x as int, l0.seed_amount_or_zero(seed_id@) as int, l0.supply_of(share) as int)
                <= user_seed_share(x as int, l1.seed_amount_or_zero(seed_id@) as int, l1.supply_of(share) as int)
        }),
{
    let share = l0.share_of_seed(seed_id@)->0;
    let s0 = l0.seed_amount_or_zero(seed_id@) as int;
    let f0 = l0.supply_of(share) as int;
    let s1 = l1.seed_amount_or_zero(seed_id@) as int;
    let f1 = l1.supply_of(share) as int;
    let m = minted as int;
    let sh = shares as int;
    let xi = x as int;
    assert(s0 > 0);
    assert(s1 == s0 + sh);
    assert(f1 == f0 + m);
    assert(m == sh * f0 / s0);
    if xi > 0 {
        vstd::arithmetic::div_mod::lemma_fundamental_div_mod(sh * f0, s0);
        assert(m * s0 <= sh * f0) by (nonlinear_arith)
            requires
                sh * f0 == s0 * (sh * f0 / s0) + (sh * f0) % s0,
                (sh * f0) % s0 >= 0,
                m == sh * f0 / s0,
        ;
        assert((xi * s0) * f1 <= (xi * s1) * f0) by (nonlinear_arith)
            requires
                m * s0 <= sh * f0,
                f1 == f0 + m,
                s1 == s0 + sh,
                xi > 0,
        ;
        assert(f1 > 0);
        lemma_div_le(xi * s0, f0, xi * s1, f1);
        assert(xi * s1 >= 0) by (nonlinear_arith)
            requires
                xi > 0,
                s1 > 0,
        ;
    }
}

/// The seed that `user_fft` of `total_fft` shares stand for, of `total_seed`.
pub open spec fn user_seed_share(user_fft: int, total_seed: int, total_fft: int) -> int {
    if total_fft == 0 || total_seed == 0 || user_fft == 0 {
        0
    } else {
        (user_fft as int) * (total_seed as int) / (total_fft as int)
    }
}

/// Shares minted for a deposit of `shares` of seed: the deposit itself for the
/// first deposit, otherwise in proportion to the supply per seed held.
pub open spec fn shares_to_mint(shares: int, total_fft: int, total_seed: int) -> int {
    if total_fft == 0 {
        shares
    } else {
        shares * total_fft / total_seed
    }
}

/// The shares minted for a deposit: the deposit itself where no share exists
/// yet, otherwise the deposit times the share supply divided by the seed held,
/// rounded down, the product taken whole (never cut to 128 bits).
pub proof fn lemma_shares_to_mint_is_proportional(shares: u128, total_fft: u128, total_seed: u128)
    ensures
        total_fft == 0 ==> shares_to_mint(shares as int, total_fft as int, total_seed as int) == shares,
        total_fft > 0 && total_seed > 0 ==> shares_to_mint(shares as int, total_fft as int, total_seed as int)
            == (shares as int) * (total_fft as int) / (total_seed as int),
        total_fft > 0 && total_seed > 0 ==> shares_to_mint(shares as int, total_fft as int, total_seed as int)
            * (total_seed as int) <= (shares as int) * (total_fft as int) < (shares_to_mint(
            shares as int,
            total_fft as int,
            total_seed as int,
        ) + 1) * (total_seed as int),
{
    if total_fft > 0 && total_seed > 0 {
        let p = (shares as int) * (total_fft as int);
        let q = p / (total_seed as int);
        vstd::arithmetic::div_mod::lemma_fundamental_div_mod(p, total_seed as int);
        vstd::arithmetic::div_mod::lemma_mod_bound(p, total_seed as int);
        assert(q * (total_seed as int) <= p < (q + 1) * (total_seed as int)) by (nonlinear_arith)
            requires
                p == (total_seed as int) * q + p % (total_seed as int),
                0 <= p % (total_seed as int) < total_seed as int,
        ;
    }
}

/// Shares minted for a deposit of `shares` of seed.
pub fn compute_shares_to_mint(shares: u128, total_fft: u128, total_seed: u128) -> (res: Result<
    u128,
    SafeError,
>)
    ensures
        match res {
            Ok(v) => (total_fft == 0 || total_seed > 0) && v == shares_to_mint(
                shares as int,
                total_fft as int,
                total_seed as int,
            ),
            Err(e) => {
                ||| e == SafeError::DivisionByZero && total_fft != 0 && total_seed == 0
                ||| e == SafeError::ArithmeticOverflow && total_fft != 0 && total_seed > 0
                    && shares_to_mint(shares as int, total_fft as int, total_seed as int) > u128::MAX
            },
        },
        total_fft == 0 ==> res == Ok::<u128, SafeError>(shares),
        total_fft > 0 && total_seed == 0 ==> res == Err::<u128, SafeError>(SafeError::DivisionByZero),
        total_fft > 0 && total_seed > 0 ==> if (shares as int) * (total_fft as int) / (total_seed as int)
            <= u128::MAX {
            res == Ok::<u128, SafeError>(((shares as int) * (total_fft as int) / (total_seed as int)) as u128)
        } else {
            res == Err::<u128, SafeError>(SafeError::ArithmeticOverflow)
        },
{
    if total_fft == 0 {
        Ok(shares)
    } else if total_seed == 0 {
        Err(SafeError::DivisionByZero)
    } else {
        match mul_div_checked(shares, total_fft, total_seed) {
            Some(v) => Ok(v),
            None => Err(SafeError::ArithmeticOverflow),
        }
    }
}

/// Seed taken out for `user_fft` shares and the shares burnt for a withdrawal:
/// all the user's seed by default, otherwise `amount` of seed for the shares it
/// stands for.
pub open spec fn withdrawal_plan(user_fft: int, total_fft: int, total_seed: int, amount: Option<u128>) -> (
    int,
    int,
) {
    match amount {
        Some(a) => (a as int, (a as int) * total_fft / total_seed),
        None => ((user_fft as int) * (total_seed as int) / (total_fft as int), user_fft),
    }
}

/// What a withdrawal asks of `user_fft` of `total_fft` shares standing for
/// `total_seed` of seed: the plan of [`withdrawal_plan`], or why it is
/// refused: no share at all, a quotient beyond 128 bits, a seed of zero for a
/// given amount, or an amount beyond what the user's shares stand for.
pub open spec fn withdrawal_outcome(user_fft: int, total_fft: int, total_seed: int, amount: Option<u128>) -> Result<
    (int, int),
    SafeError,
> {
    if total_fft == 0 {
        Err(SafeError::DivisionByZero)
    } else if user_fft * total_seed / total_fft > u128::MAX {
        Err(SafeError::ArithmeticOverflow)
    } else {
        match amount {
            Some(a) => if total_seed == 0 {
                Err(SafeError::DivisionByZero)
            } else if (a as int) * total_fft / total_seed > u128::MAX {
                Err(SafeError::ArithmeticOverflow)
            } else if user_fft * total_seed / total_fft < a {
                Err(SafeError::NotEnoughBalance)
            } else {
                Ok(withdrawal_plan(user_fft, total_fft, total_seed, amount))
            },
            None => Ok(withdrawal_plan(user_fft, total_fft, total_seed, amount)),
        }
    }
}

/// A withdrawal that goes through never burns more shares than the user holds
/// and never gives more seed than those shares stand for: withdrawing
/// everything gives the user's shares times the seed held divided by the share
/// supply, rounded down, and burns all of them; withdrawing a given amount of
/// seed gives that amount and burns the amount times the supply divided by the
/// seed held, rounded down.
pub proof fn lemma_withdrawal_is_proportional(user_fft: u128, total_fft: u128, total_seed: u128, amount: Option<u128>)
    requires
        withdrawal_outcome(user_fft as int, total_fft as int, total_seed as int, amount) is Ok,
    ensures
        ({
            let (seed, burnt) = withdrawal_outcome(user_fft as int, total_fft as int, total_seed as int, amount)->Ok_0;
            let (u, f, t) = (user_fft as int, total_fft as int, total_seed as int);
            &&& 0 <= burnt <= u
            &&& seed * f <= u * t
            &&& match amount {
                None => burnt == u && u * t < (seed + 1) * f,
                Some(a) => seed == a && burnt * t <= a * f < (burnt + 1) * t,
            }
        }),
{
    let (u, f, t) = (user_fft as int, total_fft as int, total_seed as int);
    let q = u * t / f;
    vstd::arithmetic::div_mod::lemma_fundamental_div_mod(u * t, f);
    vstd::arithmetic::div_mod::lemma_mod_bound(u * t, f);
    assert(q * f <= u * t < (q + 1) * f) by (nonlinear_arith)
        requires
            u * t == f * q + (u * t) % f,
            0 <= (u * t) % f < f,
    ;
    match amount {
        None => {},
        Some(a) => {
            let a = a as int;
            let b = a * f / t;
            vstd::arithmetic::div_mod::lemma_fundamental_div_mod(a * f, t);
            vstd::arithmetic::div_mod::lemma_mod_bound(a * f, t);
            assert(b * t <= a * f < (b + 1) * t) by (nonlinear_arith)
                requires
                    a * f == t * b + (a * f) % t,
                    0 <= (a * f) % t < t,
            ;
            assert(a * f <= q * f) by (nonlinear_arith)
                requires
                    a <= q,
                    f > 0,
            ;
            assert(b <= u) by (nonlinear_arith)
                requires
                    b * t <= a * f,
                    a * f <= q * f,
                    q * f <= u * t,
                    t > 0,
            ;
            assert(b >= 0) by (nonlinear_arith)
                requires
                    a >= 0,
                    f > 0,
                    t > 0,
                    b == a * f / t,
            ;
            assert(a * f <= u * t);
        },
    }
}

/// The seed to withdraw and the shares to burn when `user_fft` of `total_fft`
/// shares (standing for `total_seed` of seed) ask to withdraw `amount_withdrawal`,
/// or everything. Refused where the user would take more seed than their shares
/// stand for.
pub fn compute_withdrawal(
    user_fft: u128,
    total_fft: u128,
    total_seed: u128,
    amount_withdrawal: Option<u128>,
) -> (res: Result<(u128, u128), SafeError>)
    ensures
        match res {
            Ok((amount, burnt)) => {
                &&& withdrawal_outcome(user_fft as int, total_fft as int, total_seed as int, amount_withdrawal) == Ok::<
                    (int, int),
                    SafeError,
                >((amount as int, burnt as int))
                &&& amount <= (user_fft as int) * (total_seed as int) / (total_fft as int)
            },
            Err(e) => withdrawal_outcome(user_fft as int, total_fft as int, total_seed as int, amount_withdrawal) == Err::<
                (int, int),
                SafeError,
            >(e),
        },
{
    if total_fft == 0 {
        return Err(SafeError::DivisionByZero);
    }
    let user_shares = match mul_div_checked(user_fft, total_seed, total_fft) {
        Some(v) => v,
        None => return Err(SafeError::ArithmeticOverflow),
    };
    let (amount, burnt) = match amount_withdrawal {
        Some(a) => {
            if total_seed == 0 {
                return Err(SafeError::DivisionByZero);
            }
            let b = match mul_div_checked(a, total_fft, total_seed) {
                Some(v) => v,
                None => return Err(SafeError::ArithmeticOverflow),
            };
            (a, b)
        },
        None => (user_shares, user_fft),
    };
    if user_shares < amount {
        return Err(SafeError::NotEnoughBalance);
    }
    Ok((amount, burnt))
}

/// A withdrawal never burns fewer shares than the seed it takes is worth: the
/// seed taken for the burnt shares is at most what those shares stand for.
pub proof fn lemma_withdrawal_not_overpaid(user_fft: int, total_fft: int, total_seed: int, a: int)
    requires
        total_fft > 0,
        total_seed > 0,
        a >= 0,
    ensures
        (a * total_fft / total_seed) * total_seed / total_fft <= a,
{
    let b = a * total_fft / total_seed;
    vstd::arithmetic::div_mod::lemma_fundamental_div_mod(a * total_fft, total_seed);
    assert(b * total_seed <= a * total_fft) by (nonlinear_arith)
        requires
            total_seed > 0,
            b == a * total_fft / total_seed,
            a * total_fft == total_seed * (a * total_fft / total_seed) + (a * total_fft) % total_seed,
            (a * total_fft) % total_seed >= 0,
    ;
    assert(b * total_seed / total_fft <= a) by (nonlinear_arith)
        requires
            total_fft > 0,
            b * total_seed <= a * total_fft,
    ;
}

} // verus!
