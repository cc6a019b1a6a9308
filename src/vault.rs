use vstd::prelude::*;

use crate::address::Address;
use crate::derivation::{
    canonical_address, derived_address, find_address, is_canonical_bump, seeds_authorize,
    SeedTag,
};

verus! {

/// Why an instruction was refused. A refused instruction changes nothing.
#[derive(Clone, Copy, Debug, PartialEq, Eq, Structural)]
pub enum VaultError {
    /// The user identity did not sign the transaction.
    AuthorizationError,
    /// A supplied address is not the one re-derived from the identity.
    DerivationMismatch,
    /// A metadata record already exists for this identity.
    DuplicateInitialization,
    /// The source of a transfer holds less than the amount.
    InsufficientBalance,
    /// The destination's balance would overflow.
    ArithmeticOverflow,
    /// No metadata record exists for this identity.
    AccountNotInitialized,
    /// The record's bytes are too short or carry another record-type tag.
    InvalidRecord,
}

/// The metadata record: the two bumps that re-derive the vault and the record.
#[derive(Clone, Copy, Debug, PartialEq, Eq, Structural)]
pub struct VaultState {
    pub vault_bump: u8,
    pub state_bump: u8,
}

impl VaultState {
    /// Bytes the record takes: an 8-byte type tag and the two bumps.
    pub const INIT_SPACE: usize = 8 + 1 + 1;
}

/// The user's own account; `is_signer` says whether it signed the transaction.
#[derive(Clone, Copy, Debug)]
pub struct UserAccount {
    pub key: Address,
    pub lamports: u64,
    pub is_signer: bool,
}

/// The account at the derived metadata address; `data` is `None` while no
/// record is allocated there.
#[derive(Clone, Copy, Debug)]
pub struct StateAccount {
    pub key: Address,
    pub lamports: u64,
    pub data: Option<VaultState>,
}

/// The derived vault: an address with a balance and nothing else.
#[derive(Clone, Copy, Debug)]
pub struct SystemAccount {
    pub key: Address,
    pub lamports: u64,
}

/// The three accounts that every instruction works on.
#[derive(Clone, Copy, Debug)]
pub struct Accounts {
    pub user: UserAccount,
    pub vault_state: StateAccount,
    pub vault: SystemAccount,
}

/// A transfer of `amount` from a balance `from` to a balance `to`: the new
/// pair of balances.
pub open spec fn transfer_spec(from: u64, to: u64, amount: u64) -> Result<(u64, u64), VaultError> {
    if from < amount {
        Err(VaultError::InsufficientBalance)
    } else if to + amount > u64::MAX {
        Err(VaultError::ArithmeticOverflow)
    } else {
        Ok(((from - amount) as u64, (to + amount) as u64))
    }
}

/// The record's derived address and the vault's derived address both match
/// the accounts supplied; the record's bumps when they do.
pub open spec fn check_spec(a: Accounts) -> Result<VaultState, VaultError> {
    if !a.user.is_signer {
        Err(VaultError::AuthorizationError)
    } else if a.vault_state.data is None {
        Err(VaultError::AccountNotInitialized)
    } else {
        let st = a.vault_state.data.unwrap();
        if derived_address(SeedTag::State, a.user.key@, st.state_bump) != Some(a.vault_state.key@) {
            Err(VaultError::DerivationMismatch)
        } else if derived_address(SeedTag::Vault, a.user.key@, st.vault_bump) != Some(
            a.vault.key@,
        ) {
            Err(VaultError::DerivationMismatch)
        } else {
            Ok(st)
        }
    }
}

/// Initialize: the record is allocated at the derived state address, funded
/// with `reserve` by the user, and holds the bumps that the search found.
pub open spec fn initialize_spec(a: Accounts, reserve: u64) -> Result<Accounts, VaultError> {
    let s = canonical_address(SeedTag::State, a.user.key@);
    let v = canonical_address(SeedTag::Vault, a.user.key@);
    if !a.user.is_signer {
        Err(VaultError::AuthorizationError)
    } else if s is None || s.unwrap().0 != a.vault_state.key@ {
        Err(VaultError::DerivationMismatch)
    } else if v is None || v.unwrap().0 != a.vault.key@ {
        Err(VaultError::DerivationMismatch)
    } else if a.vault_state.data is Some {
        Err(VaultError::DuplicateInitialization)
    } else {
        match transfer_spec(a.user.lamports, a.vault_state.lamports, reserve) {
            Err(e) => Err(e),
            Ok((u, st)) => Ok(
                Accounts {
                    user: UserAccount { lamports: u, ..a.user },
                    vault_state: StateAccount {
                        lamports: st,
                        data: Some(VaultState { vault_bump: v.unwrap().1, state_bump: s.unwrap().1 }),
                        ..a.vault_state
                    },
                    vault: a.vault,
                },
            ),
        }
    }
}

/// Deposit: `amount` moves from the user to the vault.
pub open spec fn deposit_spec(a: Accounts, amount: u64) -> Result<Accounts, VaultError> {
    match check_spec(a) {
        Err(e) => Err(e),
        Ok(_) => match transfer_spec(a.user.lamports, a.vault.lamports, amount) {
            Err(e) => Err(e),
            Ok((u, v)) => Ok(
                Accounts {
                    user: UserAccount { lamports: u, ..a.user },
                    vault_state: a.vault_state,
                    vault: SystemAccount { lamports: v, ..a.vault },
                },
            ),
        },
    }
}

/// Withdraw: `amount` moves from the vault to the user.
pub open spec fn withdraw_spec(a: Accounts, amount: u64) -> Result<Accounts, VaultError> {
    match check_spec(a) {
        Err(e) => Err(e),
        Ok(_) => match transfer_spec(a.vault.lamports, a.user.lamports, amount) {
            Err(e) => Err(e),
            Ok((v, u)) => Ok(
                Accounts {
                    user: UserAccount { lamports: u, ..a.user },
                    vault_state: a.vault_state,
                    vault: SystemAccount { lamports: v, ..a.vault },
                },
            ),
        },
    }
}

/// Close: the vault's whole balance, then the record's reserve, go to the
/// user, and the record is gone.
pub open spec fn close_spec(a: Accounts) -> Result<Accounts, VaultError> {
    match check_spec(a) {
        Err(e) => Err(e),
        Ok(_) => if a.user.lamports + a.vault.lamports > u64::MAX {
            Err(VaultError::ArithmeticOverflow)
        } else if a.user.lamports + a.vault.lamports + a.vault_state.lamports > u64::MAX {
            Err(VaultError::ArithmeticOverflow)
        } else {
            Ok(
                Accounts {
                    user: UserAccount {
                        lamports: (a.user.lamports + a.vault.lamports
                            + a.vault_state.lamports) as u64,
                        ..a.user
                    },
                    vault_state: StateAccount { lamports: 0, data: None, ..a.vault_state },
                    vault: SystemAccount { lamports: 0, ..a.vault },
                },
            )
        },
    }
}

/// `after` and `r` are what the transition `t` gives from `before`: its new
/// accounts on success, the accounts untouched on error.
pub open spec fn applied(
    before: Accounts,
    after: Accounts,
    r: Result<(), VaultError>,
    t: Result<Accounts, VaultError>,
) -> bool {
    match t {
        Ok(n) => r is Ok && after == n,
        Err(e) => r == Err::<(), VaultError>(e) && after == before,
    }
}

/// Moves `amount` from balance `from` to balance `to`.
pub fn transfer(from: u64, to: u64, amount: u64) -> (r: Result<(u64, u64), VaultError>)
    ensures
        r == transfer_spec(from, to, amount),
{
    if from < amount {
        Err(VaultError::InsufficientBalance)
    } else {
        match to.checked_add(amount) {
            Some(t) => Ok((from - amount, t)),
            None => Err(VaultError::ArithmeticOverflow),
        }
    }
}

/// Re-derives both addresses from the identity and the record's bumps and
/// compares them with the accounts supplied.
pub fn check(a: &Accounts) -> (r: Result<VaultState, VaultError>)
    ensures
        r == check_spec(*a),
{
    if !a.user.is_signer {
        return Err(VaultError::AuthorizationError);
    }
    match a.vault_state.data {
        None => Err(VaultError::AccountNotInitialized),
        Some(st) => {
            if !seeds_authorize(SeedTag::State, &a.user.key, st.state_bump, &a.vault_state.key) {
                Err(VaultError::DerivationMismatch)
            } else if !seeds_authorize(SeedTag::Vault, &a.user.key, st.vault_bump, &a.vault.key) {
                Err(VaultError::DerivationMismatch)
            } else {
                Ok(st)
            }
        },
    }
}

/// A transfer out of a derived address: it goes through only where the seed
/// material (the vault tag, the identity, the bump) derives `from_key`.
pub fn transfer_signed(
    from_key: &Address,
    identity: &Address,
    bump: u8,
    from: u64,
    to: u64,
    amount: u64,
) -> (r: Result<(u64, u64), VaultError>)
    ensures
        r == (if derived_address(SeedTag::Vault, identity@, bump) != Some(from_key@) {
            Err(VaultError::DerivationMismatch)
        } else {
            transfer_spec(from, to, amount)
        }),
{
    if !seeds_authorize(SeedTag::Vault, identity, bump, from_key) {
        return Err(VaultError::DerivationMismatch);
    }
    transfer(from, to, amount)
}

/// The accounts after Initialize.
pub fn initialize_accounts(a: &Accounts, reserve: u64) -> (r: Result<Accounts, VaultError>)
    ensures
        r == initialize_spec(*a, reserve),
{
    if !a.user.is_signer {
        return Err(VaultError::AuthorizationError);
    }
    let (state_key, state_bump) = match find_address(SeedTag::State, &a.user.key) {
        None => return Err(VaultError::DerivationMismatch),
        Some(found) => found,
    };
    if !state_key.same(&a.vault_state.key) {
        return Err(VaultError::DerivationMismatch);
    }
    let (vault_key, vault_bump) = match find_address(SeedTag::Vault, &a.user.key) {
        None => return Err(VaultError::DerivationMismatch),
        Some(found) => found,
    };
    if !vault_key.same(&a.vault.key) {
        return Err(VaultError::DerivationMismatch);
    }
    if a.vault_state.data.is_some() {
        return Err(VaultError::DuplicateInitialization);
    }
    match transfer(a.user.lamports, a.vault_state.lamports, reserve) {
        Err(e) => Err(e),
        Ok((u, st)) => Ok(
            Accounts {
                user: UserAccount { key: a.user.key, lamports: u, is_signer: a.user.is_signer },
                vault_state: StateAccount {
                    key: a.vault_state.key,
                    lamports: st,
                    data: Some(VaultState { vault_bump, state_bump }),
                },
                vault: a.vault,
            },
        ),
    }
}

/// The accounts after Deposit of `amount`.
pub fn deposit_accounts(a: &Accounts, amount: u64) -> (r: Result<Accounts, VaultError>)
    ensures
        r == deposit_spec(*a, amount),
{
    if let Err(e) = check(a) {
        return Err(e);
    }
    match transfer(a.user.lamports, a.vault.lamports, amount) {
        Err(e) => Err(e),
        Ok((u, v)) => Ok(
            Accounts {
                user: UserAccount { key: a.user.key, lamports: u, is_signer: a.user.is_signer },
                vault_state: a.vault_state,
                vault: SystemAccount { key: a.vault.key, lamports: v },
            },
        ),
    }
}

/// The accounts after Withdraw of `amount`.
pub fn withdraw_accounts(a: &Accounts, amount: u64) -> (r: Result<Accounts, VaultError>)
    ensures
        r == withdraw_spec(*a, amount),
{
    let st = match check(a) {
        Err(e) => return Err(e),
        Ok(st) => st,
    };
    match transfer_signed(
        &a.vault.key,
        &a.user.key,
        st.vault_bump,
        a.vault.lamports,
        a.user.lamports,
        amount,
    ) {
        Err(e) => Err(e),
        Ok((v, u)) => Ok(
            Accounts {
                user: UserAccount { key: a.user.key, lamports: u, is_signer: a.user.is_signer },
                vault_state: a.vault_state,
                vault: SystemAccount { key: a.vault.key, lamports: v },
            },
        ),
    }
}

/// The accounts after Close: first the vault is drained to the user, then
/// the record is deallocated and its reserve returned to the user.
pub fn close_accounts(a: &Accounts) -> (r: Result<Accounts, VaultError>)
    ensures
        r == close_spec(*a),
{
    let st = match check(a) {
        Err(e) => return Err(e),
        Ok(st) => st,
    };
    let balance = a.vault.lamports;
    let mut user_lamports = a.user.lamports;
    let mut vault_lamports = balance;
    if balance > 0 {
        match transfer_signed(
            &a.vault.key,
            &a.user.key,
            st.vault_bump,
            vault_lamports,
            user_lamports,
            balance,
        ) {
            Err(e) => return Err(e),
            Ok((v, u)) => {
                vault_lamports = v;
                user_lamports = u;
            },
        }
    }
    match user_lamports.checked_add(a.vault_state.lamports) {
        None => Err(VaultError::ArithmeticOverflow),
        Some(u) => Ok(
            Accounts {
                user: UserAccount { key: a.user.key, lamports: u, is_signer: a.user.is_signer },
                vault_state: StateAccount { key: a.vault_state.key, lamports: 0, data: None },
                vault: SystemAccount { key: a.vault.key, lamports: vault_lamports },
            },
        ),
    }
}

/// Right after Initialize, the derivation check of the other instructions
/// passes: the stored bumps re-derive the record and the vault.
pub proof fn lemma_initialized_accounts_check(a: Accounts, reserve: u64)
    requires
        initialize_spec(a, reserve) is Ok,
    ensures
        check_spec(initialize_spec(a, reserve).unwrap()) == Ok::<VaultState, VaultError>(
            initialize_spec(a, reserve).unwrap().vault_state.data.unwrap(),
        ),
{
    let id = a.user.key@;
    let sb = choose|b: u8| is_canonical_bump(SeedTag::State, id, b);
    let vb = choose|b: u8| is_canonical_bump(SeedTag::Vault, id, b);
    assert(is_canonical_bump(SeedTag::State, id, sb));
    assert(is_canonical_bump(SeedTag::Vault, id, vb));
}

/// A deposit of an amount followed by a withdrawal of the same amount gives
/// back the accounts as they were.
pub proof fn lemma_deposit_withdraw_round_trip(a: Accounts, amount: u64)
    requires
        deposit_spec(a, amount) is Ok,
    ensures
        withdraw_spec(deposit_spec(a, amount).unwrap(), amount) == Ok::<Accounts, VaultError>(a),
{
    let n = deposit_spec(a, amount).unwrap();
    assert(check_spec(n) == check_spec(a));
}

/// Initialize, then Deposit of an amount, then Withdraw of the same amount:
/// the vault holds what it held before, and the user is short only the
/// reserve that now funds the record.
pub proof fn lemma_initialize_deposit_withdraw(a: Accounts, reserve: u64, amount: u64)
    requires
        initialize_spec(a, reserve) is Ok,
        a.user.lamports >= reserve + amount,
        a.vault.lamports + amount <= u64::MAX,
    ensures
        deposit_spec(initialize_spec(a, reserve).unwrap(), amount) is Ok,
        ({
            let n = withdraw_spec(
                deposit_spec(initialize_spec(a, reserve).unwrap(), amount).unwrap(),
                amount,
            );
            &&& n is Ok
            &&& n.unwrap().vault.lamports == a.vault.lamports
            &&& n.unwrap().user.lamports == a.user.lamports - reserve
            &&& n.unwrap().vault_state == initialize_spec(a, reserve).unwrap().vault_state
        }),
{
    let n1 = initialize_spec(a, reserve).unwrap();
    lemma_initialized_accounts_check(a, reserve);
    assert(deposit_spec(n1, amount) is Ok);
    lemma_deposit_withdraw_round_trip(n1, amount);
}

/// A withdrawal of more than the vault holds fails with
/// `InsufficientBalance` once the accounts pass the derivation check; a
/// failed instruction moves nothing.
pub proof fn lemma_withdraw_over_balance(a: Accounts, amount: u64)
    requires
        check_spec(a) is Ok,
        amount > a.vault.lamports,
    ensures
        withdraw_spec(a, amount) == Err::<Accounts, VaultError>(VaultError::InsufficientBalance),
{
}

/// Close gives the user the vault's balance plus the record's reserve,
/// leaves the vault empty and the record gone; after it Deposit, Withdraw
/// and Close fail, and Initialize no longer finds a record there.
pub proof fn lemma_close_returns_everything(a: Accounts, amount: u64, reserve: u64)
    requires
        close_spec(a) is Ok,
    ensures
        ({
            let n = close_spec(a).unwrap();
            &&& n.user.lamports == a.user.lamports + a.vault.lamports + a.vault_state.lamports
            &&& n.vault.lamports == 0
            &&& n.vault_state.lamports == 0
            &&& n.vault_state.data is None
            &&& deposit_spec(n, amount) is Err
            &&& withdraw_spec(n, amount) is Err
            &&& close_spec(n) is Err
            &&& initialize_spec(n, reserve) != Err::<Accounts, VaultError>(
                VaultError::DuplicateInitialization,
            )
        }),
{
}

/// A second Initialize without a Close in between fails with
/// `DuplicateInitialization`, and so leaves the record's bumps as they are.
pub proof fn lemma_initialize_twice(a: Accounts, reserve: u64, reserve2: u64)
    requires
        initialize_spec(a, reserve) is Ok,
    ensures
        initialize_spec(initialize_spec(a, reserve).unwrap(), reserve2) == Err::<
            Accounts,
            VaultError,
        >(VaultError::DuplicateInitialization),
{
}

} // verus!
