//! Answering what the balance of an account is.

use crate::application::queries::GetAccountBalanceQuery;
use crate::domain::entities::account_balance::AccountBalanceView;
use crate::domain::entities::AccountBalance;
use crate::domain::errors::{outcome, DomainError, DomainErrorView, DomainResult};
use crate::domain::repositories::{AccountBalanceRepository, LedgerEventRepository};
use crate::domain::value_objects::Money;
use chrono::NaiveDateTime;
use std::sync::Arc;
use vstd::prelude::*;

verus! {

/// Answers balance queries, from the latest snapshot where the query
/// allows it and one exists, and from the events otherwise.
pub struct GetAccountBalanceHandler<E: LedgerEventRepository, B: AccountBalanceRepository> {
    event_repository: Arc<E>,
    balance_repository: Arc<B>,
}

impl<E: LedgerEventRepository, B: AccountBalanceRepository> GetAccountBalanceHandler<E, B> {
    /// The store of events that the handler works on.
    pub closed spec fn events(&self) -> Arc<E> {
        self.event_repository
    }

    /// The store of snapshots that the handler works on.
    pub closed spec fn balances(&self) -> Arc<B> {
        self.balance_repository
    }

    /// The answer for a balance computed from the events: a balance that is
    /// not stored, so without identifier and time stamp. A negative balance
    /// is no amount of money: the answer is then the error of that amount,
    /// as it is.
    pub open spec fn spec_computed_balance(account_id: i32, balance: i64) -> Result<
        AccountBalanceView,
        DomainErrorView,
    > {
        if balance < 0 {
            Err(DomainErrorView::InvalidAmount(balance as int))
        } else {
            Ok(
                AccountBalanceView {
                    id: None,
                    account_id,
                    balance: balance as int,
                    snapshot_at: None::<NaiveDateTime>,
                },
            )
        }
    }

    /// What the handler may return when it answers from the events: the
    /// error of the store of events if it cannot compute the balance, else
    /// the answer for the computed balance.
    pub open spec fn computed(events: &E, account_id: i32, r: DomainResult<AccountBalance>) -> bool {
        exists|computed: DomainResult<i64>|
            {
                &&& #[trigger] call_ensures(E::calculate_balance, (events, account_id), computed)
                &&& match computed {
                    Err(error) => outcome(r) == Err::<AccountBalanceView, DomainErrorView>(error@),
                    Ok(balance) => outcome(r) == Self::spec_computed_balance(account_id, balance),
                }
            }
    }

    /// What the handler may return for a query on two stores. Where the
    /// query allows a snapshot: the error of the store of snapshots if it
    /// fails; its latest snapshot, as it is, if it has one; and the answer
    /// from the events if it has none. Where the query allows none: the
    /// answer from the events, whatever snapshots there are.
    pub open spec fn handled(
        events: &E,
        balances: &B,
        query: GetAccountBalanceQuery,
        r: DomainResult<AccountBalance>,
    ) -> bool {
        if query.use_snapshot {
            exists|latest: DomainResult<Option<AccountBalance>>|
                {
                    &&& #[trigger] call_ensures(
                        B::find_latest_by_account_id,
                        (balances, query.account_id),
                        latest,
                    )
                    &&& match latest {
                        Err(error) => outcome(r) == Err::<AccountBalanceView, DomainErrorView>(
                            error@,
                        ),
                        Ok(Some(snapshot)) => r == Ok::<AccountBalance, DomainError>(snapshot),
                        Ok(None) => Self::computed(events, query.account_id, r),
                    }
                }
        } else {
            Self::computed(events, query.account_id, r)
        }
    }

    /// A handler on the two stores given.
    pub fn new(event_repository: Arc<E>, balance_repository: Arc<B>) -> (r: Self)
        ensures
            r.events() == event_repository,
            r.balances() == balance_repository,
    {
        GetAccountBalanceHandler { event_repository, balance_repository }
    }

    /// Wraps a balance computed from the events in the answer.
    pub fn computed_balance(account_id: i32, balance: i64) -> (r: DomainResult<AccountBalance>)
        ensures
            outcome(r) == Self::spec_computed_balance(account_id, balance),
    {
        let balance = Money::new(balance)?;
        Ok(AccountBalance::new(account_id, balance))
    }

    /// Answers the query.
    pub fn handle(&self, query: GetAccountBalanceQuery) -> (r: DomainResult<AccountBalance>)
        ensures
            Self::handled(&*self.events(), &*self.balances(), query, r),
    {
        if query.use_snapshot {
            let latest = self.balance_repository.find_latest_by_account_id(query.account_id)?;
            if let Some(snapshot) = latest {
                return Ok(snapshot);
            }
        }
        let balance = self.event_repository.calculate_balance(query.account_id)?;
        Self::computed_balance(query.account_id, balance)
    }

    /// Where the query allows a snapshot and the store of snapshots has none
    /// for the account, the answer is the one from the events: if it is a
    /// balance, it is one that is not stored.
    pub proof fn law_missing_snapshot_falls_back(
        events: &E,
        balances: &B,
        query: GetAccountBalanceQuery,
        r: DomainResult<AccountBalance>,
    )
        requires
            query.use_snapshot,
            forall|latest: DomainResult<Option<AccountBalance>>| #[trigger]
                call_ensures(B::find_latest_by_account_id, (balances, query.account_id), latest)
                    ==> latest == Ok::<Option<AccountBalance>, DomainError>(None),
            Self::handled(events, balances, query, r),
        ensures
            Self::computed(events, query.account_id, r),
            r matches Ok(balance) ==> balance.id is None && balance.snapshot_at is None,
    {
    }
}

} // verus!
