use vault_anchor::address::{id, Address};
use vault_anchor::derivation::{derive_address, find_address, seeds_authorize, seeds_with_bump, SeedTag};
use vault_anchor::instructions::{CloseVault, Initialize, Payment};
use vault_anchor::vault::{
    transfer, Accounts, StateAccount, SystemAccount, UserAccount, VaultError, VaultState,
};
use vault_anchor::vault_anchor::{close_vault, deposit, initialize, withdraw};

const RESERVE: u64 = 1_000;

fn identity(b: u8) -> Address {
    Address::new([b; 32])
}

fn fresh(b: u8, lamports: u64) -> Initialize {
    let user = identity(b);
    let (state_key, _) = find_address(SeedTag::State, &user).unwrap();
    let (vault_key, _) = find_address(SeedTag::Vault, &user).unwrap();
    Initialize {
        user: UserAccount { key: user, lamports, is_signer: true },
        vault_state: StateAccount { key: state_key, lamports: 0, data: None },
        vault: SystemAccount { key: vault_key, lamports: 0 },
        reserve: RESERVE,
    }
}

fn payment(i: &Initialize) -> Payment {
    Payment { user: i.user, vault_state: i.vault_state, vault: i.vault }
}

fn closing(p: &Payment) -> CloseVault {
    CloseVault { user: p.user, vault_state: p.vault_state, vault: p.vault }
}

fn same_accounts(a: &Accounts, b: &Accounts) -> bool {
    a.user.key.same(&b.user.key)
        && a.user.lamports == b.user.lamports
        && a.vault_state.key.same(&b.vault_state.key)
        && a.vault_state.lamports == b.vault_state.lamports
        && a.vault_state.data == b.vault_state.data
        && a.vault.key.same(&b.vault.key)
        && a.vault.lamports == b.vault.lamports
}

fn snapshot(p: &Payment) -> Accounts {
    Accounts { user: p.user, vault_state: p.vault_state, vault: p.vault }
}

#[test]
fn derivation_is_repeatable() {
    let user = identity(7);
    let (a1, b1) = find_address(SeedTag::Vault, &user).unwrap();
    let (a2, b2) = find_address(SeedTag::Vault, &user).unwrap();
    assert!(a1.same(&a2));
    assert_eq!(b1, b2);
    let d1 = derive_address(SeedTag::Vault, &user, b1).unwrap();
    let d2 = derive_address(SeedTag::Vault, &Address::new([7; 32]), b1).unwrap();
    assert!(d1.same(&a1));
    assert!(d1.same(&d2));
    assert!(seeds_authorize(SeedTag::Vault, &user, b1, &a1));
}

#[test]
fn found_bump_is_the_highest_that_derives() {
    let user = identity(5);
    let (a, b) = find_address(SeedTag::State, &user).unwrap();
    assert!(b >= 1);
    assert!(derive_address(SeedTag::State, &user, b).unwrap().same(&a));
    for c in (b as u16 + 1)..=255 {
        assert!(derive_address(SeedTag::State, &user, c as u8).is_none());
    }
}

#[test]
fn derived_address_differs_from_its_inputs() {
    let user = identity(7);
    let (a, _) = find_address(SeedTag::State, &user).unwrap();
    assert!(!a.same(&user));
    assert!(!a.same(&id()));
}

#[test]
fn distinct_identities_and_tags_do_not_collide() {
    let a = identity(1);
    let b = identity(2);
    let (av, _) = find_address(SeedTag::Vault, &a).unwrap();
    let (bv, _) = find_address(SeedTag::Vault, &b).unwrap();
    let (as_, _) = find_address(SeedTag::State, &a).unwrap();
    let (bs, _) = find_address(SeedTag::State, &b).unwrap();
    assert!(!av.same(&bv));
    assert!(!as_.same(&bs));
    assert!(!av.same(&as_));
    assert!(!bv.same(&bs));
}

#[test]
fn seed_material_layout() {
    let user = identity(9);
    let seeds = seeds_with_bump(SeedTag::State, &user, 254);
    assert_eq!(seeds.len(), 3);
    assert_eq!(seeds[0], b"state".to_vec());
    assert_eq!(seeds[1], vec![9u8; 32]);
    assert_eq!(seeds[2], vec![254u8]);
    assert_eq!(seeds_with_bump(SeedTag::Vault, &user, 1)[0], b"vault".to_vec());
}

#[test]
fn program_id_bytes() {
    let p = id();
    assert_eq!(p.bytes[0], 30);
    assert_eq!(p.bytes[31], 140);
    assert_eq!(p.to_vec().len(), 32);
}

#[test]
fn record_space() {
    assert_eq!(VaultState::INIT_SPACE, 10);
}

#[test]
fn transfer_moves_exact_amount() {
    assert_eq!(transfer(100, 5, 30), Ok((70, 35)));
    assert_eq!(transfer(100, 5, 100), Ok((0, 105)));
    assert_eq!(transfer(10, 5, 11), Err(VaultError::InsufficientBalance));
    assert_eq!(transfer(10, u64::MAX, 1), Err(VaultError::ArithmeticOverflow));
}

#[test]
fn initialize_records_found_bumps() {
    let mut ctx = fresh(3, 5_000);
    assert_eq!(initialize(&mut ctx), Ok(()));
    let (_, sb) = find_address(SeedTag::State, &ctx.user.key).unwrap();
    let (_, vb) = find_address(SeedTag::Vault, &ctx.user.key).unwrap();
    assert_eq!(ctx.vault_state.data, Some(VaultState { vault_bump: vb, state_bump: sb }));
    assert_eq!(ctx.user.lamports, 4_000);
    assert_eq!(ctx.vault_state.lamports, RESERVE);
    assert_eq!(ctx.vault.lamports, 0);
}

#[test]
fn initialize_twice_fails() {
    let mut ctx = fresh(4, 5_000);
    assert_eq!(initialize(&mut ctx), Ok(()));
    let record = ctx.vault_state.data;
    assert_eq!(initialize(&mut ctx), Err(VaultError::DuplicateInitialization));
    assert_eq!(ctx.vault_state.data, record);
    assert_eq!(ctx.user.lamports, 4_000);
    assert_eq!(ctx.vault_state.lamports, RESERVE);
}

#[test]
fn initialize_needs_signer() {
    let mut ctx = fresh(5, 5_000);
    ctx.user.is_signer = false;
    assert_eq!(initialize(&mut ctx), Err(VaultError::AuthorizationError));
    assert_eq!(ctx.vault_state.data, None);
}

#[test]
fn initialize_rejects_wrong_addresses() {
    let mut ctx = fresh(6, 5_000);
    ctx.vault_state.key = identity(42);
    assert_eq!(initialize(&mut ctx), Err(VaultError::DerivationMismatch));
    let mut ctx = fresh(6, 5_000);
    let other = fresh(8, 0);
    ctx.vault = other.vault;
    assert_eq!(initialize(&mut ctx), Err(VaultError::DerivationMismatch));
    assert_eq!(ctx.user.lamports, 5_000);
}

#[test]
fn initialize_needs_reserve() {
    let mut ctx = fresh(10, RESERVE - 1);
    assert_eq!(initialize(&mut ctx), Err(VaultError::InsufficientBalance));
    assert_eq!(ctx.vault_state.data, None);
}

#[test]
fn deposit_then_withdraw_restores_balances() {
    let mut ctx = fresh(11, 10_000);
    assert_eq!(initialize(&mut ctx), Ok(()));
    let mut p = payment(&ctx);
    assert_eq!(deposit(&mut p, 2_500), Ok(()));
    assert_eq!(p.vault.lamports, 2_500);
    assert_eq!(p.user.lamports, 6_500);
    assert_eq!(withdraw(&mut p, 2_500), Ok(()));
    assert_eq!(p.vault.lamports, 0);
    assert_eq!(p.user.lamports, 10_000 - RESERVE);
}

#[test]
fn withdraw_over_balance_fails_without_moving() {
    let mut ctx = fresh(12, 10_000);
    assert_eq!(initialize(&mut ctx), Ok(()));
    let mut p = payment(&ctx);
    assert_eq!(deposit(&mut p, 300), Ok(()));
    let before = snapshot(&p);
    assert_eq!(withdraw(&mut p, 301), Err(VaultError::InsufficientBalance));
    assert!(same_accounts(&before, &snapshot(&p)));
}

#[test]
fn deposit_over_user_balance_fails() {
    let mut ctx = fresh(13, 2_000);
    assert_eq!(initialize(&mut ctx), Ok(()));
    let mut p = payment(&ctx);
    assert_eq!(deposit(&mut p, 1_001), Err(VaultError::InsufficientBalance));
    assert_eq!(p.user.lamports, 1_000);
    assert_eq!(p.vault.lamports, 0);
}

#[test]
fn deposit_overflow_fails() {
    let mut ctx = fresh(14, 2_000);
    assert_eq!(initialize(&mut ctx), Ok(()));
    let mut p = payment(&ctx);
    p.vault.lamports = u64::MAX;
    assert_eq!(deposit(&mut p, 1), Err(VaultError::ArithmeticOverflow));
    assert_eq!(p.vault.lamports, u64::MAX);
}

#[test]
fn withdraw_overflow_fails() {
    let mut ctx = fresh(15, 2_000);
    assert_eq!(initialize(&mut ctx), Ok(()));
    let mut p = payment(&ctx);
    p.vault.lamports = 10;
    p.user.lamports = u64::MAX;
    assert_eq!(withdraw(&mut p, 1), Err(VaultError::ArithmeticOverflow));
    assert_eq!(p.vault.lamports, 10);
}

#[test]
fn zero_amounts_succeed_and_change_nothing() {
    let mut ctx = fresh(16, 2_000);
    assert_eq!(initialize(&mut ctx), Ok(()));
    let mut p = payment(&ctx);
    let before = snapshot(&p);
    assert_eq!(deposit(&mut p, 0), Ok(()));
    assert_eq!(withdraw(&mut p, 0), Ok(()));
    assert!(same_accounts(&before, &snapshot(&p)));
}

#[test]
fn payment_needs_signer_and_record() {
    let ctx = fresh(17, 2_000);
    let mut p = payment(&ctx);
    assert_eq!(deposit(&mut p, 1), Err(VaultError::AccountNotInitialized));
    p.user.is_signer = false;
    assert_eq!(withdraw(&mut p, 0), Err(VaultError::AuthorizationError));
}

#[test]
fn payment_rejects_tampered_bumps() {
    let mut ctx = fresh(18, 5_000);
    assert_eq!(initialize(&mut ctx), Ok(()));
    let mut p = payment(&ctx);
    assert_eq!(deposit(&mut p, 500), Ok(()));
    let st = p.vault_state.data.unwrap();
    p.vault_state.data = Some(VaultState { vault_bump: st.vault_bump.wrapping_sub(1), state_bump: st.state_bump });
    assert_eq!(withdraw(&mut p, 500), Err(VaultError::DerivationMismatch));
    assert_eq!(p.vault.lamports, 500);
}

#[test]
fn payment_rejects_another_users_vault() {
    let mut a = fresh(19, 5_000);
    let mut b = fresh(20, 5_000);
    assert_eq!(initialize(&mut a), Ok(()));
    assert_eq!(initialize(&mut b), Ok(()));
    let mut pb = payment(&b);
    assert_eq!(deposit(&mut pb, 700), Ok(()));
    let mut thief = payment(&a);
    thief.vault = pb.vault;
    assert_eq!(withdraw(&mut thief, 700), Err(VaultError::DerivationMismatch));
    assert_eq!(thief.vault.lamports, 700);
}

#[test]
fn close_returns_balance_and_reserve() {
    let mut ctx = fresh(21, 10_000);
    assert_eq!(initialize(&mut ctx), Ok(()));
    let mut p = payment(&ctx);
    assert_eq!(deposit(&mut p, 3_000), Ok(()));
    let user_before = p.user.lamports;
    let mut c = closing(&p);
    assert_eq!(close_vault(&mut c), Ok(()));
    assert_eq!(c.user.lamports, user_before + 3_000 + RESERVE);
    assert_eq!(c.vault.lamports, 0);
    assert_eq!(c.vault_state.lamports, 0);
    assert_eq!(c.vault_state.data, None);
    assert_eq!(close_vault(&mut c), Err(VaultError::AccountNotInitialized));
    let mut p = Payment { user: c.user, vault_state: c.vault_state, vault: c.vault };
    assert_eq!(withdraw(&mut p, 1), Err(VaultError::AccountNotInitialized));
    let mut again = Initialize { user: c.user, vault_state: c.vault_state, vault: c.vault, reserve: RESERVE };
    assert_eq!(initialize(&mut again), Ok(()));
    assert!(again.vault_state.data.is_some());
}

#[test]
fn close_empty_vault_returns_reserve() {
    let mut ctx = fresh(22, 10_000);
    assert_eq!(initialize(&mut ctx), Ok(()));
    let mut c = CloseVault { user: ctx.user, vault_state: ctx.vault_state, vault: ctx.vault };
    assert_eq!(close_vault(&mut c), Ok(()));
    assert_eq!(c.user.lamports, 10_000);
    assert_eq!(c.vault_state.data, None);
}

#[test]
fn close_overflow_fails_without_moving() {
    let mut ctx = fresh(23, 10_000);
    assert_eq!(initialize(&mut ctx), Ok(()));
    let mut c = CloseVault { user: ctx.user, vault_state: ctx.vault_state, vault: ctx.vault };
    c.user.lamports = u64::MAX - 10;
    assert_eq!(close_vault(&mut c), Err(VaultError::ArithmeticOverflow));
    assert!(c.vault_state.data.is_some());
    assert_eq!(c.vault_state.lamports, RESERVE);
}

#[test]
fn end_to_end_scenario() {
    let start = 50_000u64;
    let mut ctx = fresh(24, start);
    assert_eq!(initialize(&mut ctx), Ok(()));
    let mut p = payment(&ctx);
    assert_eq!(deposit(&mut p, 1_000), Ok(()));
    assert_eq!(withdraw(&mut p, 400), Ok(()));
    assert_eq!(p.vault.lamports, 600);
    let mut c = closing(&p);
    assert_eq!(close_vault(&mut c), Ok(()));
    assert_eq!(c.vault.lamports, 0);
    assert_eq!(c.vault_state.data, None);
    assert_eq!(c.vault_state.lamports, 0);
    assert_eq!(c.user.lamports, start);
    assert_eq!(c.user.lamports - p.user.lamports, 600 + RESERVE);
}
