use anchor_nftflashloan::accounts::{DepositNft, WithdrawNft};
use anchor_nftflashloan::error::{ErrorCode, ProgramError};
use anchor_nftflashloan::instructions::{deposit_nft, withdraw_nft};
use anchor_lang::prelude::Pubkey as SdkPubkey;
use anchor_nftflashloan::pda::{id, escrow_authority_signer_seeds, find_config_address, find_escrow_address, find_escrow_authority_address};
use anchor_nftflashloan::state::{Config, Escrow, EscrowStatus, Pubkey};

fn key(n: u8) -> Pubkey {
    Pubkey::new_from_array([n; 32])
}

fn config(paused: bool) -> Config {
    let admin = key(1);
    let (_, bump) = find_config_address(&admin).unwrap();
    Config { admin, fee_bps: 5, merkle_root: None, bump, paused }
}

fn fresh_deposit(user: Pubkey, mint: Pubkey) -> DepositNft {
    let (escrow_key, _) = find_escrow_address(&user, &mint).unwrap();
    let (escrow_authority, _) = find_escrow_authority_address(&escrow_key).unwrap();
    DepositNft {
        escrow: None,
        escrow_key,
        escrow_nft_ata: key(40),
        escrow_authority,
        config: config(false),
        vault_state_key: key(50),
        user_nft_ata: key(41),
        nft_mint: mint,
        user,
        user_is_signer: true,
    }
}

fn withdraw_from(deposit: &DepositNft) -> WithdrawNft {
    WithdrawNft {
        escrow: deposit.escrow.unwrap(),
        escrow_key: deposit.escrow_key,
        escrow_nft_ata: deposit.escrow_nft_ata,
        escrow_authority: deposit.escrow_authority,
        user_nft_ata: deposit.user_nft_ata,
        owner: deposit.user,
        owner_is_signer: true,
    }
}

#[test]
fn deposit_moves_the_nft_into_escrow() {
    let user = key(3);
    let mint = key(9);
    let mut ctx = fresh_deposit(user, mint);
    let (_, bump) = find_escrow_address(&user, &mint).unwrap();
    let transfer = deposit_nft(&mut ctx).unwrap();
    assert_eq!(transfer.from, key(41));
    assert_eq!(transfer.to, key(40));
    assert_eq!(transfer.authority, user);
    assert_eq!(transfer.amount, 1);
    assert!(transfer.signer_seeds.is_empty());
    assert_eq!(
        ctx.escrow,
        Some(Escrow { owner: user, nft_mint: mint, vault_state: key(50), bump, status: EscrowStatus::Deposited })
    );
}

#[test]
fn deposit_refusals() {
    let mut ctx = fresh_deposit(key(3), key(9));
    ctx.config = config(true);
    assert_eq!(deposit_nft(&mut ctx), Err(ProgramError::Custom(ErrorCode::Paused)));
    assert_eq!(ctx.escrow, None);

    let mut ctx = fresh_deposit(key(3), key(9));
    ctx.user_is_signer = false;
    assert_eq!(deposit_nft(&mut ctx), Err(ProgramError::AccountNotSigner));

    let mut ctx = fresh_deposit(key(3), key(9));
    ctx.escrow_authority = key(8);
    assert_eq!(deposit_nft(&mut ctx), Err(ProgramError::ConstraintSeeds));
    assert_eq!(ctx.escrow, None);

    let mut ctx = fresh_deposit(key(3), key(9));
    ctx.nft_mint = key(10);
    assert_eq!(deposit_nft(&mut ctx), Err(ProgramError::ConstraintSeeds));

    let mut ctx = fresh_deposit(key(3), key(9));
    assert!(deposit_nft(&mut ctx).is_ok());
    let before = ctx;
    assert_eq!(deposit_nft(&mut ctx), Err(ProgramError::AccountAlreadyInUse));
    assert_eq!(ctx, before);
}

#[test]
fn withdraw_returns_the_nft_and_closes_the_escrow() {
    let mut deposit = fresh_deposit(key(3), key(9));
    let sent = deposit_nft(&mut deposit).unwrap();
    let mut ctx = withdraw_from(&deposit);
    let escrow = ctx.escrow;
    let returned = withdraw_nft(&mut ctx).unwrap();
    assert_eq!(returned.from, sent.to);
    assert_eq!(returned.to, sent.from);
    assert_eq!(returned.authority, deposit.escrow_authority);
    assert_eq!(returned.amount, 1);
    let (_, authority_bump) = find_escrow_authority_address(&deposit.escrow_key).unwrap();
    assert_eq!(returned.signer_seeds, escrow_authority_signer_seeds(&deposit.escrow_key, authority_bump));
    let refs: Vec<&[u8]> = returned.signer_seeds.iter().map(|s| s.as_slice()).collect();
    let program = SdkPubkey::new_from_array(id().to_bytes());
    let signer = SdkPubkey::create_program_address(&refs, &program).unwrap();
    assert_eq!(signer.to_bytes(), returned.authority.to_bytes());
    assert_eq!(ctx.escrow, Escrow { status: EscrowStatus::Closed, ..escrow });

    let before = ctx;
    assert_eq!(withdraw_nft(&mut ctx), Err(ProgramError::Custom(ErrorCode::EscrowLocked)));
    assert_eq!(ctx, before);
}

#[test]
fn only_the_owner_withdraws() {
    let mut deposit = fresh_deposit(key(3), key(9));
    deposit_nft(&mut deposit).unwrap();

    let mut ctx = withdraw_from(&deposit);
    ctx.owner = key(4);
    assert_eq!(withdraw_nft(&mut ctx), Err(ProgramError::ConstraintHasOne));
    assert_eq!(ctx.escrow.status, EscrowStatus::Deposited);

    let mut ctx = withdraw_from(&deposit);
    ctx.owner_is_signer = false;
    assert_eq!(withdraw_nft(&mut ctx), Err(ProgramError::AccountNotSigner));

    let mut ctx = withdraw_from(&deposit);
    ctx.escrow_authority = key(8);
    assert_eq!(withdraw_nft(&mut ctx), Err(ProgramError::ConstraintSeeds));
    assert_eq!(ctx.escrow.status, EscrowStatus::Deposited);
}

#[test]
fn withdraw_signs_for_the_authority_whatever_the_escrow_bump() {
    for n in 0..12u8 {
        let mut deposit = fresh_deposit(key(3), key(100 + n));
        deposit_nft(&mut deposit).unwrap();
        let mut ctx = withdraw_from(&deposit);
        let returned = withdraw_nft(&mut ctx).unwrap();
        let refs: Vec<&[u8]> = returned.signer_seeds.iter().map(|s| s.as_slice()).collect();
        let program = SdkPubkey::new_from_array(id().to_bytes());
        let signer = SdkPubkey::create_program_address(&refs, &program).unwrap();
        assert_eq!(signer.to_bytes(), deposit.escrow_authority.to_bytes());
    }
}
