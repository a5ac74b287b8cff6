//! The progress module: the global block height and each account's
//! transaction count (nonce). Both counters start at zero, advance by
//! exactly one per call, and report numeric exhaustion as a recoverable
//! condition instead of wrapping or aborting.

use crate::error::StateError;
use crate::identity::Identity;
use crate::numeric::Numeric;
use crate::store::Store;
use vstd::prelude::*;

verus! {

/// The progress state: the current block number and the nonce mapping,
/// which defaults to zero for accounts never incremented.
pub struct Pallet<BlockNumber: Numeric, AccountId: Identity, Nonce: Numeric> {
    block_number: BlockNumber,
    nonce: Store<AccountId, Nonce>,
}

impl<BlockNumber: Numeric, AccountId: Identity, Nonce: Numeric> Pallet<
    BlockNumber,
    AccountId,
    Nonce,
> {
    /// The internal nonce store holds each account at most once.
    pub closed spec fn wf(self) -> bool {
        self.nonce.wf()
    }

    /// The current block height as a mathematical integer.
    pub closed spec fn spec_block_number(self) -> int {
        self.block_number.as_int()
    }

    /// The transaction count of an account: the stored value, or zero when
    /// the account never originated a transaction.
    pub closed spec fn spec_nonce(self, who: <AccountId as View>::V) -> int {
        if self.nonce@.dom().contains(who) {
            self.nonce@[who].as_int()
        } else {
            0
        }
    }

    /// Creates a progress module at block zero with every nonce zero.
    pub fn new() -> (p: Self)
        ensures
            p.wf(),
            p.spec_block_number() == 0,
            forall|a: <AccountId as View>::V| p.spec_nonce(a) == 0,
    {
        Pallet { block_number: BlockNumber::zero(), nonce: Store::new() }
    }

    /// Reads the current block number.
    pub fn block_number(&self) -> (r: BlockNumber)
        ensures
            r.as_int() == self.spec_block_number(),
            0 <= self.spec_block_number() <= BlockNumber::max_int(),
    {
        proof {
            self.block_number.lemma_in_range();
        }
        self.block_number
    }

    /// Advances the block number by one; reports exhaustion of the numeric
    /// range without changing any state.
    pub fn inc_block_number(&mut self) -> (r: Result<(), StateError>)
        requires
            old(self).wf(),
        ensures
            final(self).wf(),
            r is Ok <==> old(self).spec_block_number() + 1 <= BlockNumber::max_int(),
            r is Err ==> r == Err::<(), StateError>(StateError::BlockNumberOverflow) && *final(self)
                == *old(self),
            r is Ok ==> final(self).spec_block_number() == old(self).spec_block_number() + 1,
            forall|a: <AccountId as View>::V|
                final(self).spec_nonce(a) == old(self).spec_nonce(a),
    {
        match self.block_number.checked_add(BlockNumber::one()) {
            Some(next) => {
                self.block_number = next;
                Ok(())
            },
            None => Err(StateError::BlockNumberOverflow),
        }
    }

    /// Advances the nonce of `who` by one; reports exhaustion of the
    /// numeric range without changing any state.
    pub fn inc_nonce(&mut self, who: &AccountId) -> (r: Result<(), StateError>)
        requires
            old(self).wf(),
        ensures
            final(self).wf(),
            r is Ok <==> old(self).spec_nonce(who@) + 1 <= Nonce::max_int(),
            r is Err ==> r == Err::<(), StateError>(StateError::NonceOverflow) && *final(self)
                == *old(self),
            r is Ok ==> final(self).spec_nonce(who@) == old(self).spec_nonce(who@) + 1,
            forall|a: <AccountId as View>::V|
                a != who@ ==> final(self).spec_nonce(a) == old(self).spec_nonce(a),
            final(self).spec_block_number() == old(self).spec_block_number(),
    {
        let nonce = match self.nonce.get(who) {
            Some(n) => n,
            None => Nonce::zero(),
        };
        match nonce.checked_add(Nonce::one()) {
            Some(next) => {
                self.nonce.insert(who, next);
                Ok(())
            },
            None => Err(StateError::NonceOverflow),
        }
    }

    /// Reads the nonce of `who`; zero when no entry exists.
    pub fn get_nonce(&self, who: &AccountId) -> (r: Nonce)
        requires
            self.wf(),
        ensures
            r.as_int() == self.spec_nonce(who@),
            0 <= self.spec_nonce(who@) <= Nonce::max_int(),
    {
        let r = match self.nonce.get(who) {
            Some(n) => n,
            None => Nonce::zero(),
        };
        proof {
            r.lemma_in_range();
        }
        r
    }

    /// One successful block advance: exactly what `inc_block_number`
    /// ensures of the block height on its `Ok` path.
    pub open spec fn block_step(pre: Self, post: Self) -> bool {
        post.spec_block_number() == pre.spec_block_number() + 1
    }

    /// One successful nonce advance for `who`: exactly what `inc_nonce`
    /// ensures of that account's nonce on its `Ok` path.
    pub open spec fn nonce_step(pre: Self, post: Self, who: <AccountId as View>::V) -> bool {
        post.spec_nonce(who) == pre.spec_nonce(who) + 1
    }

    /// Advancing the block number N times from height zero yields height N:
    /// any chain of states starting at zero whose consecutive states are
    /// each one successful advance apart ends at the number of advances.
    pub proof fn lemma_block_number_counts_increments(states: Seq<Self>)
        requires
            states.len() >= 1,
            states[0].spec_block_number() == 0,
            forall|i: int|
                0 <= i < states.len() - 1 ==> Self::block_step(
                    #[trigger] states[i],
                    states[i + 1],
                ),
        ensures
            states.last().spec_block_number() == states.len() - 1,
        decreases states.len(),
    {
        if states.len() > 1 {
            let prefix = states.drop_last();
            assert forall|i: int| 0 <= i < prefix.len() - 1 implies Self::block_step(
                #[trigger] prefix[i],
                prefix[i + 1],
            ) by {
                assert(prefix[i] == states[i]);
                assert(prefix[i + 1] == states[i + 1]);
            }
            Self::lemma_block_number_counts_increments(prefix);
            assert(Self::block_step(states[states.len() - 2], states[states.len() - 1]));
        }
    }

    /// Advancing the nonce of one account N times from zero yields nonce N:
    /// any chain of states starting at zero whose consecutive states are
    /// each one successful advance for `who` apart ends at the number of
    /// advances.
    pub proof fn lemma_nonce_counts_increments(states: Seq<Self>, who: <AccountId as View>::V)
        requires
            states.len() >= 1,
            states[0].spec_nonce(who) == 0,
            forall|i: int|
                0 <= i < states.len() - 1 ==> Self::nonce_step(
                    #[trigger] states[i],
                    states[i + 1],
                    who,
                ),
        ensures
            states.last().spec_nonce(who) == states.len() - 1,
        decreases states.len(),
    {
        if states.len() > 1 {
            let prefix = states.drop_last();
            assert forall|i: int| 0 <= i < prefix.len() - 1 implies Self::nonce_step(
                #[trigger] prefix[i],
                prefix[i + 1],
                who,
            ) by {
                assert(prefix[i] == states[i]);
                assert(prefix[i + 1] == states[i + 1]);
            }
            Self::lemma_nonce_counts_increments(prefix, who);
            assert(Self::nonce_step(states[states.len() - 2], states[states.len() - 1], who));
        }
    }
}

} // verus!
