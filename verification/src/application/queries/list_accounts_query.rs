//! The question which accounts there are.

use vstd::prelude::*;

verus! {

/// Asks for every account.
#[derive(Debug, Clone, Copy)]
pub struct ListAccountsQuery;

impl ListAccountsQuery {
    /// The question for every account.
    pub fn new() -> (r: ListAccountsQuery)
        ensures
            r == ListAccountsQuery,
    {
        ListAccountsQuery
    }
}

impl Default for ListAccountsQuery {
    fn default() -> (r: Self)
        ensures
            r == ListAccountsQuery,
    {
        Self::new()
    }
}

} // verus!
