//! The ledger module: a mapping from account identities to balances, with
//! get/set access and a transfer operation guarded by checked arithmetic.
//! An account with no entry holds balance zero; no entry is ever removed.

use crate::error::StateError;
use crate::identity::Identity;
use crate::numeric::Numeric;
use crate::store::Store;
use vstd::prelude::*;

verus! {

/// The types the ledger module is bound to at composition time.
pub trait Config {
    /// The key of the balance mapping.
    type AccountId: Identity;

    /// The numeric type balances range over.
    type Balance: Numeric;
}

/// The ledger state: each account's balance, defaulting to zero.
pub struct Pallet<T: Config> {
    balances: Store<T::AccountId, T::Balance>,
}

impl<T: Config> Pallet<T> {
    /// The internal balance store holds each account at most once.
    pub closed spec fn wf(self) -> bool {
        self.balances.wf()
    }

    /// The balance an account holds: the stored value, or zero when the
    /// account was never set.
    pub closed spec fn spec_balance(self, who: <T::AccountId as View>::V) -> int {
        if self.balances@.dom().contains(who) {
            self.balances@[who].as_int()
        } else {
            0
        }
    }

    /// Creates a ledger in which every account holds zero.
    pub fn new() -> (p: Self)
        ensures
            p.wf(),
            forall|a: <T::AccountId as View>::V| p.spec_balance(a) == 0,
    {
        Pallet { balances: Store::new() }
    }

    /// Overwrites (or creates) the balance of `who`, touching no other
    /// account.
    pub fn set_balance(&mut self, who: &T::AccountId, amount: T::Balance)
        requires
            old(self).wf(),
        ensures
            final(self).wf(),
            final(self).spec_balance(who@) == amount.as_int(),
            forall|a: <T::AccountId as View>::V|
                a != who@ ==> final(self).spec_balance(a) == old(self).spec_balance(a),
    {
        self.balances.insert(who, amount);
    }

    /// Reads the balance of `who`; zero when no entry exists.
    pub fn balance(&self, who: &T::AccountId) -> (r: T::Balance)
        requires
            self.wf(),
        ensures
            r.as_int() == self.spec_balance(who@),
            0 <= self.spec_balance(who@) <= T::Balance::max_int(),
    {
        let r = match self.balances.get(who) {
            Some(b) => b,
            None => T::Balance::zero(),
        };
        proof {
            r.lemma_in_range();
        }
        r
    }

    /// Moves `amount` from `caller` to `to`, provided `caller` holds at
    /// least `amount` and the recipient's balance stays in range. Both
    /// checks read the pre-transfer balances; nothing is committed unless
    /// both pass, and a transfer of an account to itself leaves the ledger
    /// unchanged.
    pub fn transfer(&mut self, caller: T::AccountId, to: T::AccountId, amount: T::Balance) -> (r:
        Result<(), StateError>)
        requires
            old(self).wf(),
        ensures
            final(self).wf(),
            r == Err::<(), StateError>(StateError::InsufficientFunds) <==> amount.as_int() > old(
                self,
            ).spec_balance(caller@),
            r == Err::<(), StateError>(StateError::Overflow) <==> amount.as_int() <= old(
                self,
            ).spec_balance(caller@) && old(self).spec_balance(to@) + amount.as_int()
                > T::Balance::max_int(),
            r is Ok <==> amount.as_int() <= old(self).spec_balance(caller@) && old(
                self,
            ).spec_balance(to@) + amount.as_int() <= T::Balance::max_int(),
            r is Err ==> *final(self) == *old(self),
            r is Ok && caller@ != to@ ==> final(self).spec_balance(caller@) == old(
                self,
            ).spec_balance(caller@) - amount.as_int() && final(self).spec_balance(to@) == old(
                self,
            ).spec_balance(to@) + amount.as_int(),
            r is Ok && caller@ == to@ ==> *final(self) == *old(self),
            r is Ok ==> final(self).spec_balance(caller@) + final(self).spec_balance(to@) == old(
                self,
            ).spec_balance(caller@) + old(self).spec_balance(to@),
            forall|a: <T::AccountId as View>::V|
                a != caller@ && a != to@ ==> final(self).spec_balance(a) == old(self).spec_balance(
                    a,
                ),
    {
        let caller_balance = self.balance(&caller);
        let to_balance = self.balance(&to);

        let new_caller_balance = match caller_balance.checked_sub(amount) {
            Some(b) => b,
            None => {
                return Err(StateError::InsufficientFunds);
            },
        };
        let new_to_balance = match to_balance.checked_add(amount) {
            Some(b) => b,
            None => {
                return Err(StateError::Overflow);
            },
        };

        if caller.eq_id(&to) {
            return Ok(());
        }
        self.balances.insert(&caller, new_caller_balance);
        self.balances.insert(&to, new_to_balance);
        Ok(())
    }
}

} // verus!
