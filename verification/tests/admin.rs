use anchor_nftflashloan::accounts::{InitVault, Initialize, SetFeeBps, SetMerkleRoot, SetPaused};
use anchor_nftflashloan::error::ProgramError;
use anchor_nftflashloan::instructions::{
    init_vault, initialize, set_fee_bps, set_merkle_root, set_paused,
};
use anchor_nftflashloan::pda::{find_config_address, find_vault_authority_address, find_vault_state_address};
use anchor_nftflashloan::state::{Config, Pubkey, VaultState};

fn key(n: u8) -> Pubkey {
    Pubkey::new_from_array([n; 32])
}

fn fresh_initialize(admin: Pubkey) -> Initialize {
    let (config_key, _) = find_config_address(&admin).unwrap();
    Initialize { config: None, config_key, admin, admin_is_signer: true }
}

fn config_of(admin: Pubkey) -> Config {
    let (_, bump) = find_config_address(&admin).unwrap();
    Config { admin, fee_bps: 5, merkle_root: None, bump, paused: false }
}

#[test]
fn initialize_creates_an_unpaused_config() {
    let admin = key(1);
    let mut ctx = fresh_initialize(admin);
    let (_, bump) = find_config_address(&admin).unwrap();
    assert_eq!(initialize(&mut ctx, 25, Some([8; 32])), Ok(()));
    assert_eq!(
        ctx.config,
        Some(Config { admin, fee_bps: 25, merkle_root: Some([8; 32]), bump, paused: false })
    );
}

#[test]
fn initialize_twice_is_refused() {
    let mut ctx = fresh_initialize(key(1));
    assert_eq!(initialize(&mut ctx, 25, None), Ok(()));
    let before = ctx;
    assert_eq!(initialize(&mut ctx, 30, None), Err(ProgramError::AccountAlreadyInUse));
    assert_eq!(ctx, before);
}

#[test]
fn initialize_needs_the_admin_signature() {
    let mut ctx = fresh_initialize(key(1));
    ctx.admin_is_signer = false;
    let before = ctx;
    assert_eq!(initialize(&mut ctx, 25, None), Err(ProgramError::AccountNotSigner));
    assert_eq!(ctx, before);
}

#[test]
fn initialize_at_a_wrong_address_is_refused() {
    let mut ctx = fresh_initialize(key(1));
    ctx.config_key = key(2);
    assert_eq!(initialize(&mut ctx, 25, None), Err(ProgramError::ConstraintSeeds));
    assert_eq!(ctx.config, None);
    let mut ctx = fresh_initialize(key(1));
    ctx.config_key = find_config_address(&key(3)).unwrap().0;
    assert_eq!(initialize(&mut ctx, 25, None), Err(ProgramError::ConstraintSeeds));
}

#[test]
fn admin_changes_settings() {
    let admin = key(1);
    let config = config_of(admin);

    let mut fee_ctx = SetFeeBps { config, admin, admin_is_signer: true };
    assert_eq!(set_fee_bps(&mut fee_ctx, 77), Ok(()));
    assert_eq!(fee_ctx.config, Config { fee_bps: 77, ..config });

    let mut root_ctx = SetMerkleRoot { config, admin, admin_is_signer: true };
    assert_eq!(set_merkle_root(&mut root_ctx, Some([4; 32])), Ok(()));
    assert_eq!(root_ctx.config, Config { merkle_root: Some([4; 32]), ..config });
    assert_eq!(set_merkle_root(&mut root_ctx, None), Ok(()));
    assert_eq!(root_ctx.config, config);

    let mut paused_ctx = SetPaused { config, admin, admin_is_signer: true };
    assert_eq!(set_paused(&mut paused_ctx, true), Ok(()));
    assert_eq!(paused_ctx.config, Config { paused: true, ..config });
    assert_eq!(set_paused(&mut paused_ctx, false), Ok(()));
    assert_eq!(paused_ctx.config, config);
}

#[test]
fn others_cannot_change_settings() {
    let config = config_of(key(1));
    let intruder = key(2);

    let mut fee_ctx = SetFeeBps { config, admin: intruder, admin_is_signer: true };
    assert_eq!(set_fee_bps(&mut fee_ctx, 77), Err(ProgramError::ConstraintHasOne));
    assert_eq!(fee_ctx.config, config);

    let mut root_ctx = SetMerkleRoot { config, admin: intruder, admin_is_signer: true };
    assert_eq!(set_merkle_root(&mut root_ctx, Some([4; 32])), Err(ProgramError::ConstraintHasOne));
    assert_eq!(root_ctx.config, config);

    let mut paused_ctx = SetPaused { config, admin: intruder, admin_is_signer: true };
    assert_eq!(set_paused(&mut paused_ctx, true), Err(ProgramError::ConstraintHasOne));
    assert_eq!(paused_ctx.config, config);

    let mut unsigned = SetPaused { config, admin: key(1), admin_is_signer: false };
    assert_eq!(set_paused(&mut unsigned, true), Err(ProgramError::AccountNotSigner));
    assert_eq!(unsigned.config, config);
}

fn fresh_vault(admin: Pubkey, mint: Pubkey) -> InitVault {
    let (vault_state_key, _) = find_vault_state_address(&mint).unwrap();
    let (vault_authority, _) = find_vault_authority_address(&vault_state_key).unwrap();
    let (config_key, _) = find_config_address(&admin).unwrap();
    InitVault {
        vault_state: None,
        vault_state_key,
        vault_authority,
        config: config_of(admin),
        config_key,
        liquidity_mint: mint,
        admin,
        admin_is_signer: true,
    }
}

#[test]
fn admin_opens_a_vault() {
    let admin = key(1);
    let mint = key(9);
    let mut ctx = fresh_vault(admin, mint);
    let (vault_key, bump) = find_vault_state_address(&mint).unwrap();
    let (authority, vault_bump) = find_vault_authority_address(&vault_key).unwrap();
    assert_eq!(init_vault(&mut ctx), Ok(()));
    assert_eq!(
        ctx.vault_state,
        Some(VaultState {
            mint,
            authority,
            config: ctx.config_key,
            bump,
            vault_bump,
            in_flash: false,
        })
    );
    assert_eq!(init_vault(&mut ctx), Err(ProgramError::AccountAlreadyInUse));
}

#[test]
fn init_vault_refusals() {
    let admin = key(1);
    let mint = key(9);

    let mut ctx = fresh_vault(admin, mint);
    ctx.admin = key(2);
    assert_eq!(init_vault(&mut ctx), Err(ProgramError::ConstraintHasOne));
    assert_eq!(ctx.vault_state, None);

    let mut ctx = fresh_vault(admin, mint);
    ctx.admin_is_signer = false;
    assert_eq!(init_vault(&mut ctx), Err(ProgramError::AccountNotSigner));

    let mut ctx = fresh_vault(admin, mint);
    ctx.vault_authority = key(5);
    assert_eq!(init_vault(&mut ctx), Err(ProgramError::ConstraintSeeds));
    assert_eq!(ctx.vault_state, None);

    let mut ctx = fresh_vault(admin, mint);
    ctx.liquidity_mint = key(10);
    assert_eq!(init_vault(&mut ctx), Err(ProgramError::ConstraintSeeds));
}
