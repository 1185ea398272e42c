//! Taking a snapshot of an account's balance.

use crate::application::commands::CreateBalanceSnapshotCommand;
use crate::domain::entities::account_balance::AccountBalanceView;
use crate::domain::entities::AccountBalance;
use crate::domain::errors::{outcome, DomainErrorView, DomainResult};
use crate::domain::repositories::{AccountBalanceRepository, LedgerEventRepository};
use crate::domain::value_objects::Money;
use chrono::NaiveDateTime;
use std::sync::Arc;
use vstd::prelude::*;

verus! {

/// Takes snapshots. Each one is computed anew from the events, whatever
/// snapshots exist already, and is stored beside them.
pub struct CreateBalanceSnapshotHandler<E: LedgerEventRepository, B: AccountBalanceRepository> {
    event_repository: Arc<E>,
    balance_repository: Arc<B>,
}

impl<E: LedgerEventRepository, B: AccountBalanceRepository> CreateBalanceSnapshotHandler<E, B> {
    /// The store of events that the handler works on.
    pub closed spec fn events(&self) -> Arc<E> {
        self.event_repository
    }

    /// The store of snapshots that the handler works on.
    pub closed spec fn balances(&self) -> Arc<B> {
        self.balance_repository
    }

    /// The snapshot to store for a computed balance: none for a negative
    /// balance, which is no amount of money.
    pub open spec fn spec_snapshot_of(account_id: i32, balance: i64) -> Result<
        AccountBalanceView,
        DomainErrorView,
    > {
        if balance < 0 {
            Err(DomainErrorView::InvalidAmount(balance as int))
        } else {
            Ok(
                AccountBalanceView {
                    id: None,
                    account_id,
                    balance: balance as int,
                    snapshot_at: None::<NaiveDateTime>,
                },
            )
        }
    }

    /// What the handler may return for a command on two stores: the error
    /// of the store of events if it cannot compute the balance, the error
    /// of a negative balance, or what the store of snapshots returns when it
    /// saves the snapshot of the computed balance.
    pub open spec fn handled(
        events: &E,
        balances: &B,
        command: CreateBalanceSnapshotCommand,
        r: DomainResult<AccountBalance>,
    ) -> bool {
        exists|computed: DomainResult<i64>|
            {
                &&& #[trigger] call_ensures(
                    E::calculate_balance,
                    (events, command.account_id),
                    computed,
                )
                &&& match computed {
                    Err(error) => outcome(r) == Err::<AccountBalanceView, DomainErrorView>(error@),
                    Ok(balance) => match Self::spec_snapshot_of(command.account_id, balance) {
                        Err(error) => outcome(r) == Err::<AccountBalanceView, DomainErrorView>(
                            error,
                        ),
                        Ok(draft) => exists|snapshot: AccountBalance|
                            snapshot@ == draft && #[trigger] call_ensures(
                                B::save,
                                (balances, &snapshot),
                                r,
                            ),
                    },
                }
            }
    }

    /// A handler on the two stores given.
    pub fn new(event_repository: Arc<E>, balance_repository: Arc<B>) -> (r: Self)
        ensures
            r.events() == event_repository,
            r.balances() == balance_repository,
    {
        CreateBalanceSnapshotHandler { event_repository, balance_repository }
    }

    /// Wraps a computed balance in the snapshot to store.
    pub fn snapshot_of(account_id: i32, balance: i64) -> (r: DomainResult<AccountBalance>)
        ensures
            outcome(r) == Self::spec_snapshot_of(account_id, balance),
    {
        let balance = Money::new(balance)?;
        Ok(AccountBalance::new(account_id, balance))
    }

    /// Computes the balance of the account from its events and stores it as
    /// a new snapshot.
    pub fn handle(&self, command: CreateBalanceSnapshotCommand) -> (r: DomainResult<
        AccountBalance,
    >)
        ensures
            Self::handled(&*self.events(), &*self.balances(), command, r),
    {
        let balance = self.event_repository.calculate_balance(command.account_id)?;
        let snapshot = Self::snapshot_of(command.account_id, balance)?;
        self.balance_repository.save(&snapshot)
    }
}

} // verus!
