//! The account-identity contract: an opaque, cloneable value whose
//! abstract view (`@`) serves as the key of the state modules' mappings.

use vstd::prelude::*;

verus! {

/// An account identity: a value with an abstract view that can be compared
/// and cloned in executable code, faithfully to that view.
///
/// Identities are never created or destroyed by the modules; they are only
/// referenced, so equality and cloning are the only capabilities required.
pub trait Identity: Sized + View {
    /// Decides whether two identities denote the same account.
    fn eq_id(&self, other: &Self) -> (r: bool)
        ensures
            r == (self@ == other@),
    ;

    /// Produces an identity denoting the same account.
    fn clone_id(&self) -> (r: Self)
        ensures
            r@ == self@,
    ;
}

impl Identity for String {
    fn eq_id(&self, other: &Self) -> (r: bool) {
        *self == *other
    }

    fn clone_id(&self) -> (r: Self) {
        self.clone()
    }
}

} // verus!
