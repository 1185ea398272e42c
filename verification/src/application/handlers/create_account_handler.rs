//! Opening an account.

use crate::application::commands::CreateAccountCommand;
use crate::domain::entities::account::AccountView;
use crate::domain::entities::Account;
use crate::domain::errors::{outcome, DomainError, DomainErrorView, DomainResult};
use crate::domain::repositories::AccountRepository;
use crate::domain::value_objects::AccountNumber;
use chrono::NaiveDateTime;
use std::sync::Arc;
use vstd::prelude::*;

verus! {

/// Opens accounts, each under an account number that no stored account has.
pub struct CreateAccountHandler<R: AccountRepository> {
    account_repository: Arc<R>,
}

impl<R: AccountRepository> CreateAccountHandler<R> {
    /// The store of accounts that the handler works on.
    pub closed spec fn repository(&self) -> Arc<R> {
        self.account_repository
    }

    /// The account to store, once the store has said whether the account
    /// number is taken: the answer's own error if the store failed, a
    /// duplicate if the number is taken, and otherwise a new account, unless
    /// its name is empty.
    pub open spec fn spec_new_account(
        account_number: Seq<char>,
        account_name: Seq<char>,
        taken: Result<bool, DomainErrorView>,
    ) -> Result<AccountView, DomainErrorView> {
        match taken {
            Err(error) => Err(error),
            Ok(true) => Err(DomainErrorView::DuplicateAccountNumber(account_number)),
            Ok(false) => if account_name.len() == 0 {
                Err(DomainErrorView::ValidationError("Account name cannot be empty"@))
            } else {
                Ok(
                    AccountView {
                        id: None,
                        account_number,
                        account_name,
                        created_at: None::<NaiveDateTime>,
                        updated_at: None::<NaiveDateTime>,
                    },
                )
            },
        }
    }

    /// What the handler may return for a command on a store: the error of
    /// an account number that is not valid, whatever the store holds; else
    /// what follows from the store's answer whether the number is taken;
    /// and, where that is a new account, what the store returns when it
    /// saves that account.
    pub open spec fn handled(
        repository: &R,
        command: CreateAccountCommand,
        r: DomainResult<Account>,
    ) -> bool {
        match AccountNumber::spec_new(command.account_number@) {
            Err(error) => outcome(r) == Err::<AccountView, DomainErrorView>(error),
            Ok(text) => exists|account_number: AccountNumber, taken: DomainResult<bool>|
                {
                    &&& account_number@ == text
                    &&& #[trigger] call_ensures(
                        R::exists_by_account_number,
                        (repository, &account_number),
                        taken,
                    )
                    &&& match Self::spec_new_account(text, command.account_name@, outcome(taken)) {
                        Err(error) => outcome(r) == Err::<AccountView, DomainErrorView>(error),
                        Ok(draft) => exists|account: Account|
                            account@ == draft && #[trigger] call_ensures(
                                R::save,
                                (repository, &account),
                                r,
                            ),
                    }
                },
        }
    }

    /// A handler on the store given.
    pub fn new(account_repository: Arc<R>) -> (r: Self)
        ensures
            r.repository() == account_repository,
    {
        CreateAccountHandler { account_repository }
    }

    /// Decides what to store once the store has said whether the account
    /// number is taken.
    pub fn new_account(
        account_number: AccountNumber,
        account_name: String,
        taken: DomainResult<bool>,
    ) -> (r: DomainResult<Account>)
        ensures
            outcome(r) == Self::spec_new_account(account_number@, account_name@, outcome(taken)),
            r matches Ok(account) ==> account.is_valid(),
    {
        match taken {
            Err(error) => Err(error),
            Ok(true) => Err(
                DomainError::DuplicateAccountNumber(String::from_str(account_number.value())),
            ),
            Ok(false) => {
                let account = Account::new(account_number, account_name);
                account.validate()?;
                Ok(account)
            },
        }
    }

    /// Opens the account that the command asks for.
    pub fn handle(&self, command: CreateAccountCommand) -> (r: DomainResult<Account>)
        ensures
            Self::handled(&*self.repository(), command, r),
    {
        let CreateAccountCommand { account_number, account_name } = command;
        let account_number = AccountNumber::new(account_number)?;
        let taken = self.account_repository.exists_by_account_number(&account_number);
        let account = Self::new_account(account_number, account_name, taken)?;
        self.account_repository.save(&account)
    }

    /// Once an account has been stored under an account number, so that the
    /// store answers that the number is taken, a second command with the
    /// same number is refused as a duplicate, whatever its name.
    pub proof fn law_taken_number_is_refused(
        stored: Set<Seq<char>>,
        account_number: Seq<char>,
        first_name: Seq<char>,
        second_name: Seq<char>,
    )
        requires
            Self::spec_new_account(
                account_number,
                first_name,
                Ok(stored.contains(account_number)),
            ) is Ok,
        ensures
            Self::spec_new_account(
                account_number,
                second_name,
                Ok(stored.insert(account_number).contains(account_number)),
            ) == Err::<AccountView, DomainErrorView>(
                DomainErrorView::DuplicateAccountNumber(account_number),
            ),
    {
    }
}

} // verus!
