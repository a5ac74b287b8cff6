//! The composition root: one concrete choice of account-identity and
//! numeric types, bound once and shared by both state modules. A driver
//! emulates a block by calling the modules' operations directly; the
//! runtime itself only constructs and owns them.

use crate::balances;
use crate::error::StateError;
use crate::system;
use vstd::prelude::*;

verus! {

/// The one concrete configuration the runtime binds: string account
/// identities, 128-bit balances, and 32-bit block numbers and nonces.
pub struct RuntimeConfig {}

impl balances::Config for RuntimeConfig {
    type AccountId = String;

    type Balance = u128;
}

/// One ledger module and one progress module, bound to the shared
/// configuration above.
pub struct Runtime {
    pub system: system::Pallet<u32, String, u32>,
    pub balances: balances::Pallet<RuntimeConfig>,
}

impl Runtime {
    /// Creates a runtime whose ledger holds zero everywhere and whose
    /// progress module is at block zero with every nonce zero.
    pub fn new() -> (r: Self)
        ensures
            r.balances.wf(),
            r.system.wf(),
            forall|a: Seq<char>| r.balances.spec_balance(a) == 0,
            r.system.spec_block_number() == 0,
            forall|a: Seq<char>| r.system.spec_nonce(a) == 0,
    {
        Runtime { system: system::Pallet::new(), balances: balances::Pallet::new() }
    }

    /// The full outcome of one transaction executed against `pre`,
    /// leaving `post`: the sender's nonce advances unless it has exhausted
    /// its range, and the transfer outcome mirrors the ledger's contract.
    pub open spec fn transaction_outcome(
        pre: Runtime,
        post: Runtime,
        from: Seq<char>,
        to: Seq<char>,
        amount: u128,
        r: Result<(), StateError>,
    ) -> bool {
        &&& (r == Err::<(), StateError>(StateError::NonceOverflow) <==> pre.system.spec_nonce(from)
            + 1 > u32::MAX)
        &&& (r == Err::<(), StateError>(StateError::NonceOverflow) ==> post == pre)
        &&& (r != Err::<(), StateError>(StateError::NonceOverflow) ==> post.system.spec_nonce(from)
            == pre.system.spec_nonce(from) + 1)
        &&& post.system.spec_block_number() == pre.system.spec_block_number()
        &&& (forall|a: Seq<char>|
            a != from ==> post.system.spec_nonce(a) == pre.system.spec_nonce(a))
        &&& (r == Err::<(), StateError>(StateError::InsufficientFunds) <==> pre.system.spec_nonce(
            from,
        ) + 1 <= u32::MAX && amount > pre.balances.spec_balance(from))
        &&& (r == Err::<(), StateError>(StateError::Overflow) <==> pre.system.spec_nonce(from) + 1
            <= u32::MAX && amount <= pre.balances.spec_balance(from)
            && pre.balances.spec_balance(to) + amount > u128::MAX)
        &&& (r is Ok <==> pre.system.spec_nonce(from) + 1 <= u32::MAX && amount
            <= pre.balances.spec_balance(from) && pre.balances.spec_balance(to) + amount
            <= u128::MAX)
        &&& (r is Err ==> post.balances == pre.balances)
        &&& (r is Ok && from != to ==> post.balances.spec_balance(from)
            == pre.balances.spec_balance(from) - amount && post.balances.spec_balance(to)
            == pre.balances.spec_balance(to) + amount)
        &&& (r is Ok && from == to ==> post.balances == pre.balances)
        &&& (forall|a: Seq<char>|
            a != from && a != to ==> post.balances.spec_balance(a) == pre.balances.spec_balance(a))
    }

    /// Executes one transaction: advances the sender's nonce, then
    /// attempts the transfer. Nonce increments and transfer attempts are
    /// independent: the sender's nonce advances even when the transfer
    /// itself fails. Only when the nonce cannot advance is the transfer
    /// not attempted at all.
    pub fn execute_transaction(&mut self, from: &String, to: &String, amount: u128) -> (r: Result<
        (),
        StateError,
    >)
        requires
            old(self).balances.wf(),
            old(self).system.wf(),
        ensures
            final(self).balances.wf(),
            final(self).system.wf(),
            Self::transaction_outcome(*old(self), *final(self), from@, to@, amount, r),
    {
        match self.system.inc_nonce(from) {
            Ok(()) => {},
            Err(e) => {
                return Err(e);
            },
        }
        self.balances.transfer(from.clone(), to.clone(), amount)
    }
}

} // verus!
