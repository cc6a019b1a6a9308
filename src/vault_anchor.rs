//! The program's four instructions.
use vstd::prelude::*;

use crate::instructions::{CloseVault, Initialize, Payment};
use crate::vault::{
    applied, close_spec, deposit_spec, initialize_spec, withdraw_spec, VaultError,
};

verus! {

/// Creates the caller's metadata record.
pub fn initialize(ctx: &mut Initialize) -> (r: Result<(), VaultError>)
    ensures
        applied(
            old(ctx).accounts(),
            final(ctx).accounts(),
            r,
            initialize_spec(old(ctx).accounts(), old(ctx).reserve),
        ),
        final(ctx).reserve == old(ctx).reserve,
{
    ctx.initialize()
}

/// Moves `amount` into the caller's vault.
pub fn deposit(ctx: &mut Payment, amount: u64) -> (r: Result<(), VaultError>)
    ensures
        applied(old(ctx).accounts(), final(ctx).accounts(), r, deposit_spec(old(ctx).accounts(), amount)),
{
    ctx.deposit(amount)
}

/// Moves `amount` out of the caller's vault.
pub fn withdraw(ctx: &mut Payment, amount: u64) -> (r: Result<(), VaultError>)
    ensures
        applied(
            old(ctx).accounts(),
            final(ctx).accounts(),
            r,
            withdraw_spec(old(ctx).accounts(), amount),
        ),
{
    ctx.withdraw(amount)
}

/// Closes the caller's vault and record.
pub fn close_vault(ctx: &mut CloseVault) -> (r: Result<(), VaultError>)
    ensures
        applied(old(ctx).accounts(), final(ctx).accounts(), r, close_spec(old(ctx).accounts())),
{
    ctx.close()
}

} // verus!
