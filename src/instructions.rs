use vstd::prelude::*;

use crate::vault::{
    applied, close_accounts, close_spec, deposit_accounts, deposit_spec, initialize_accounts,
    initialize_spec, withdraw_accounts, withdraw_spec, Accounts, StateAccount, SystemAccount,
    UserAccount,
};

verus! {

/// The accounts of Initialize, with the existence reserve that the new
/// record must be funded with.
pub struct Initialize {
    pub user: UserAccount,
    pub vault_state: StateAccount,
    pub vault: SystemAccount,
    pub reserve: u64,
}

/// The accounts of Deposit and Withdraw.
pub struct Payment {
    pub user: UserAccount,
    pub vault_state: StateAccount,
    pub vault: SystemAccount,
}

/// The accounts of Close.
pub struct CloseVault {
    pub user: UserAccount,
    pub vault_state: StateAccount,
    pub vault: SystemAccount,
}

impl Initialize {
    pub open spec fn accounts(&self) -> Accounts {
        Accounts { user: self.user, vault_state: self.vault_state, vault: self.vault }
    }

    /// Allocates the record at the derived state address, funded by the
    /// user, and stores in it the bumps of both derived addresses.
    pub fn initialize(&mut self) -> (r: Result<(), crate::vault::VaultError>)
        ensures
            applied(
                old(self).accounts(),
                final(self).accounts(),
                r,
                initialize_spec(old(self).accounts(), old(self).reserve),
            ),
            final(self).reserve == old(self).reserve,
    {
        let a = Accounts { user: self.user, vault_state: self.vault_state, vault: self.vault };
        match initialize_accounts(&a, self.reserve) {
            Err(e) => Err(e),
            Ok(n) => {
                self.user = n.user;
                self.vault_state = n.vault_state;
                self.vault = n.vault;
                Ok(())
            },
        }
    }
}

impl Payment {
    pub open spec fn accounts(&self) -> Accounts {
        Accounts { user: self.user, vault_state: self.vault_state, vault: self.vault }
    }

    fn set(&mut self, n: Accounts)
        ensures
            final(self).accounts() == n,
    {
        self.user = n.user;
        self.vault_state = n.vault_state;
        self.vault = n.vault;
    }

    /// Moves `amount` from the user to the vault. An amount of zero is
    /// accepted and moves nothing.
    pub fn deposit(&mut self, amount: u64) -> (r: Result<(), crate::vault::VaultError>)
        ensures
            applied(
                old(self).accounts(),
                final(self).accounts(),
                r,
                deposit_spec(old(self).accounts(), amount),
            ),
    {
        let a = Accounts { user: self.user, vault_state: self.vault_state, vault: self.vault };
        match deposit_accounts(&a, amount) {
            Err(e) => Err(e),
            Ok(n) => {
                self.set(n);
                Ok(())
            },
        }
    }

    /// Moves `amount` from the vault to the user, authorized by the vault's
    /// seed material. An amount of zero is accepted and moves nothing.
    pub fn withdraw(&mut self, amount: u64) -> (r: Result<(), crate::vault::VaultError>)
        ensures
            applied(
                old(self).accounts(),
                final(self).accounts(),
                r,
                withdraw_spec(old(self).accounts(), amount),
            ),
    {
        let a = Accounts { user: self.user, vault_state: self.vault_state, vault: self.vault };
        match withdraw_accounts(&a, amount) {
            Err(e) => Err(e),
            Ok(n) => {
                self.set(n);
                Ok(())
            },
        }
    }
}

impl CloseVault {
    pub open spec fn accounts(&self) -> Accounts {
        Accounts { user: self.user, vault_state: self.vault_state, vault: self.vault }
    }

    /// Drains the vault to the user, then deallocates the record and returns
    /// its reserve to the user.
    pub fn close(&mut self) -> (r: Result<(), crate::vault::VaultError>)
        ensures
            applied(old(self).accounts(), final(self).accounts(), r, close_spec(old(self).accounts())),
    {
        let a = Accounts { user: self.user, vault_state: self.vault_state, vault: self.vault };
        match close_accounts(&a) {
            Err(e) => Err(e),
            Ok(n) => {
                self.user = n.user;
                self.vault_state = n.vault_state;
                self.vault = n.vault;
                Ok(())
            },
        }
    }
}

} // verus!
