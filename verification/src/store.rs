//! What the persistence collaborator hands this layer. The store itself
//! lives outside; these records are consumed read-only here.

use vstd::prelude::*;

verus! {

/// A watched platform identifier, owned by one user.
#[derive(Debug, Clone, PartialEq, Eq)]
pub struct Subscription {
    pub user_id: u64,
    pub cpe: String,
}

/// One remembered command of a user.
#[derive(Debug, Clone, PartialEq, Eq)]
pub struct History {
    pub user_id: u64,
    pub command: String,
}

} // verus!
