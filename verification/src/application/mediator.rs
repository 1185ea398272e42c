//! The single point through which commands and queries reach their
//! handlers.

use crate::application::commands::{
    CreateAccountCommand, CreateBalanceSnapshotCommand, CreateLedgerEventCommand,
};
use crate::application::handlers::{
    CreateAccountHandler, CreateBalanceSnapshotHandler, CreateLedgerEventHandler,
    GetAccountBalanceHandler, GetAccountHandler, ListAccountsHandler, ListLedgerEventsHandler,
};
use crate::application::queries::{
    GetAccountBalanceQuery, GetAccountByNumberQuery, GetAccountQuery, ListAccountsQuery,
    ListLedgerEventsQuery,
};
use crate::domain::entities::{Account, AccountBalance, LedgerEvent};
use crate::domain::errors::DomainResult;
use crate::domain::repositories::{
    AccountBalanceRepository, AccountRepository, LedgerEventRepository,
};
use std::sync::Arc;
use vstd::prelude::*;

verus! {

/// Routes each command and query to its handler. The set of handlers is
/// fixed when the mediator is made; the mediator validates nothing and
/// keeps no state of its own.
pub struct Mediator<A: AccountRepository, E: LedgerEventRepository, B: AccountBalanceRepository> {
    create_account_handler: CreateAccountHandler<A>,
    create_ledger_event_handler: CreateLedgerEventHandler<E>,
    create_balance_snapshot_handler: CreateBalanceSnapshotHandler<E, B>,
    get_account_handler: GetAccountHandler<A>,
    get_account_balance_handler: GetAccountBalanceHandler<E, B>,
    list_accounts_handler: ListAccountsHandler<A>,
    list_ledger_events_handler: ListLedgerEventsHandler<E>,
}

impl<A: AccountRepository, E: LedgerEventRepository, B: AccountBalanceRepository> Mediator<
    A,
    E,
    B,
> {
    /// The store of accounts that the handlers work on.
    pub closed spec fn accounts(&self) -> Arc<A> {
        self.create_account_handler.repository()
    }

    /// The store of events that the handlers work on.
    pub closed spec fn events(&self) -> Arc<E> {
        self.create_ledger_event_handler.repository()
    }

    /// The store of snapshots that the handlers work on.
    pub closed spec fn balances(&self) -> Arc<B> {
        self.create_balance_snapshot_handler.balances()
    }

    #[verifier::type_invariant]
    spec fn is_wired(&self) -> bool {
        &&& self.create_balance_snapshot_handler.events() == self.events()
        &&& self.get_account_handler.repository() == self.accounts()
        &&& self.get_account_balance_handler.events() == self.events()
        &&& self.get_account_balance_handler.balances() == self.balances()
        &&& self.list_accounts_handler.repository() == self.accounts()
        &&& self.list_ledger_events_handler.repository() == self.events()
    }

    /// A mediator whose handlers all work on the three stores given.
    pub fn new(
        account_repository: Arc<A>,
        event_repository: Arc<E>,
        balance_repository: Arc<B>,
    ) -> (r: Self)
        ensures
            r.accounts() == account_repository,
            r.events() == event_repository,
            r.balances() == balance_repository,
    {
        Mediator {
            create_account_handler: CreateAccountHandler::new(account_repository.clone()),
            create_ledger_event_handler: CreateLedgerEventHandler::new(event_repository.clone()),
            create_balance_snapshot_handler: CreateBalanceSnapshotHandler::new(
                event_repository.clone(),
                balance_repository.clone(),
            ),
            get_account_handler: GetAccountHandler::new(account_repository.clone()),
            get_account_balance_handler: GetAccountBalanceHandler::new(
                event_repository.clone(),
                balance_repository,
            ),
            list_accounts_handler: ListAccountsHandler::new(account_repository),
            list_ledger_events_handler: ListLedgerEventsHandler::new(event_repository),
        }
    }

    /// Opens an account.
    pub fn send_create_account(&self, command: CreateAccountCommand) -> (r: DomainResult<Account>)
        ensures
            CreateAccountHandler::<A>::handled(&*self.accounts(), command, r),
    {
        proof {
            use_type_invariant(self);
        }
        self.create_account_handler.handle(command)
    }

    /// Appends an event to the ledger.
    pub fn send_create_ledger_event(&self, command: CreateLedgerEventCommand) -> (r: DomainResult<
        LedgerEvent,
    >)
        ensures
            CreateLedgerEventHandler::<E>::handled(&*self.events(), command, r),
    {
        proof {
            use_type_invariant(self);
        }
        self.create_ledger_event_handler.handle(command)
    }

    /// Takes a snapshot of an account's balance.
    pub fn send_create_balance_snapshot(&self, command: CreateBalanceSnapshotCommand) -> (r:
        DomainResult<AccountBalance>)
        ensures
            CreateBalanceSnapshotHandler::<E, B>::handled(
                &*self.events(),
                &*self.balances(),
                command,
                r,
            ),
    {
        proof {
            use_type_invariant(self);
        }
        self.create_balance_snapshot_handler.handle(command)
    }

    /// Looks an account up by its identifier.
    pub fn send_get_account(&self, query: GetAccountQuery) -> (r: DomainResult<Account>)
        ensures
            call_ensures(A::find_by_id, (&*self.accounts(), query.account_id), r),
    {
        proof {
            use_type_invariant(self);
        }
        self.get_account_handler.handle(query)
    }

    /// Looks an account up by its account number.
    pub fn send_get_account_by_number(&self, query: GetAccountByNumberQuery) -> (r: DomainResult<
        Account,
    >)
        ensures
            GetAccountHandler::<A>::handled_by_number(&*self.accounts(), query, r),
    {
        proof {
            use_type_invariant(self);
        }
        self.get_account_handler.handle_by_number(query)
    }

    /// Answers what the balance of an account is.
    pub fn send_get_account_balance(&self, query: GetAccountBalanceQuery) -> (r: DomainResult<
        AccountBalance,
    >)
        ensures
            GetAccountBalanceHandler::<E, B>::handled(
                &*self.events(),
                &*self.balances(),
                query,
                r,
            ),
    {
        proof {
            use_type_invariant(self);
        }
        self.get_account_balance_handler.handle(query)
    }

    /// Lists every account.
    pub fn send_list_accounts(&self, query: ListAccountsQuery) -> (r: DomainResult<Vec<Account>>)
        ensures
            call_ensures(A::find_all, (&*self.accounts(),), r),
    {
        proof {
            use_type_invariant(self);
        }
        self.list_accounts_handler.handle(query)
    }

    /// Lists the events of one account, or every event.
    pub fn send_list_ledger_events(&self, query: ListLedgerEventsQuery) -> (r: DomainResult<
        Vec<LedgerEvent>,
    >)
        ensures
            ListLedgerEventsHandler::<E>::handled(&*self.events(), query, r),
    {
        proof {
            use_type_invariant(self);
        }
        self.list_ledger_events_handler.handle(query)
    }
}

} // verus!
