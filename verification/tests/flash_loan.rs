use anchor_nftflashloan::events::{borrow_event, repay_events};
use anchor_nftflashloan::accounts::FlashLoan;
use anchor_nftflashloan::cpi::{AccountMeta, AccountRef};
use anchor_nftflashloan::error::{ErrorCode, ProgramError};
use anchor_nftflashloan::instructions::{flash_loan, flash_loan_callback, flash_loan_repay};
use anchor_nftflashloan::pda::{
    find_config_address, find_vault_authority_address, find_vault_state_address,
    vault_authority_signer_seeds,
};
use anchor_nftflashloan::state::{Config, Pubkey, VaultState};

fn key(n: u8) -> Pubkey {
    Pubkey::new_from_array([n; 32])
}

fn loan_ctx(fee_bps: u16, paused: bool, balance: u64) -> FlashLoan {
    let admin = key(1);
    let (config_key, config_bump) = find_config_address(&admin).unwrap();
    let mint = key(9);
    let (vault_state_key, bump) = find_vault_state_address(&mint).unwrap();
    let (vault_authority, vault_bump) = find_vault_authority_address(&vault_state_key).unwrap();
    FlashLoan {
        config: Config { admin, fee_bps, merkle_root: None, bump: config_bump, paused },
        vault_state: VaultState {
            mint,
            authority: vault_authority,
            config: config_key,
            bump,
            vault_bump,
            in_flash: false,
        },
        vault_state_key,
        vault_ata: key(20),
        vault_ata_amount: balance,
        vault_authority,
        borrower_ata: key(21),
        borrower_program: key(22),
        remaining_accounts: vec![
            AccountRef { key: key(30), is_signer: true, is_writable: true },
            AccountRef { key: key(31), is_signer: false, is_writable: true },
            AccountRef { key: key(32), is_signer: true, is_writable: false },
            AccountRef { key: key(33), is_signer: false, is_writable: false },
        ],
    }
}

#[test]
fn a_repaid_loan_completes_and_collects_the_fee() {
    let mut ctx = loan_ctx(30, false, 1_000_000);
    let vault_before = ctx.vault_state;
    let (transfer, loan) = flash_loan(&mut ctx, 500_000, vec![1, 2, 3], key(22)).unwrap();
    assert!(ctx.vault_state.in_flash);
    assert_eq!(transfer.from, key(20));
    assert_eq!(transfer.to, key(21));
    assert_eq!(transfer.authority, ctx.vault_authority);
    assert_eq!(transfer.amount, 500_000);
    assert_eq!(
        transfer.signer_seeds,
        vault_authority_signer_seeds(&ctx.vault_state_key, ctx.vault_state.vault_bump)
    );
    assert_eq!(loan.amount, 500_000);
    assert_eq!(loan.initial_balance, 1_000_000);

    let ix = flash_loan_callback(&ctx, &loan).unwrap();
    assert_eq!(ix.program_id, key(22));
    assert_eq!(ix.data, vec![1, 2, 3]);
    assert_eq!(
        ix.accounts,
        vec![
            AccountMeta { pubkey: key(30), is_signer: true, is_writable: true },
            AccountMeta { pubkey: key(31), is_signer: false, is_writable: true },
            AccountMeta { pubkey: key(32), is_signer: true, is_writable: false },
            AccountMeta { pubkey: key(33), is_signer: false, is_writable: false },
        ]
    );

    // 500_000 * 30 / 10000 = 1500
    assert_eq!(flash_loan_repay(&mut ctx, &loan, 1_001_500), Ok(1500));
    assert_eq!(ctx.vault_state, vault_before);
}

#[test]
fn an_unrepaid_loan_is_refused() {
    let mut ctx = loan_ctx(30, false, 1_000_000);
    let (_, loan) = flash_loan(&mut ctx, 500_000, vec![], key(22)).unwrap();
    let during = ctx.vault_state;
    assert_eq!(
        flash_loan_repay(&mut ctx, &loan, 1_001_499),
        Err(ProgramError::Custom(ErrorCode::LoanNotRepaid))
    );
    assert_eq!(ctx.vault_state, during);
    assert_eq!(
        flash_loan_repay(&mut ctx, &loan, 500_000),
        Err(ProgramError::Custom(ErrorCode::LoanNotRepaid))
    );
}

#[test]
fn a_zero_fee_loan_needs_only_the_principal_back() {
    let mut ctx = loan_ctx(0, false, 10);
    let (_, loan) = flash_loan(&mut ctx, 10, vec![], key(22)).unwrap();
    assert_eq!(flash_loan_repay(&mut ctx, &loan, 10), Ok(0));
    assert!(!ctx.vault_state.in_flash);
}

#[test]
fn nested_loans_are_refused() {
    let mut ctx = loan_ctx(30, false, 1000);
    flash_loan(&mut ctx, 100, vec![], key(22)).unwrap();
    let during = ctx.vault_state;
    assert_eq!(
        flash_loan(&mut ctx, 100, vec![], key(22)).err(),
        Some(ProgramError::Custom(ErrorCode::Reentrancy))
    );
    assert_eq!(ctx.vault_state, during);
}

#[test]
fn paused_program_refuses_loans() {
    let mut ctx = loan_ctx(30, true, 1000);
    assert_eq!(
        flash_loan(&mut ctx, 100, vec![], key(22)).err(),
        Some(ProgramError::Custom(ErrorCode::Paused))
    );
    assert!(!ctx.vault_state.in_flash);
}

#[test]
fn wrong_vault_authority_is_refused() {
    let mut ctx = loan_ctx(30, false, 1000);
    ctx.vault_authority = key(23);
    assert_eq!(flash_loan(&mut ctx, 100, vec![], key(22)).err(), Some(ProgramError::ConstraintSeeds));
    assert!(!ctx.vault_state.in_flash);
}

#[test]
fn wrong_borrower_program_is_refused() {
    let mut ctx = loan_ctx(30, false, 1000);
    let (_, loan) = flash_loan(&mut ctx, 100, vec![], key(24)).unwrap();
    assert_eq!(
        flash_loan_callback(&ctx, &loan),
        Err(ProgramError::Custom(ErrorCode::WrongProgram))
    );
}

#[test]
fn fee_overflow_is_refused() {
    let mut ctx = loan_ctx(65535, false, 0);
    let (_, loan) = flash_loan(&mut ctx, u64::MAX, vec![], key(22)).unwrap();
    assert_eq!(
        flash_loan_repay(&mut ctx, &loan, u64::MAX),
        Err(ProgramError::Custom(ErrorCode::MathOverflow))
    );

    let mut ctx = loan_ctx(10000, false, u64::MAX);
    let (_, loan) = flash_loan(&mut ctx, 1, vec![], key(22)).unwrap();
    assert_eq!(
        flash_loan_repay(&mut ctx, &loan, u64::MAX),
        Err(ProgramError::Custom(ErrorCode::MathOverflow))
    );
}

#[test]
fn loan_events_name_the_borrower_the_mint_and_the_fee() {
    let mut ctx = loan_ctx(30, false, 1_000_000);
    let (_, loan) = flash_loan(&mut ctx, 500_000, vec![], key(22)).unwrap();
    let borrowed = borrow_event(&ctx, &loan, 1700);
    assert_eq!(borrowed.borrower, key(21));
    assert_eq!(borrowed.mint, key(9));
    assert_eq!(borrowed.amount, 500_000);
    assert_eq!(borrowed.timestamp, 1700);
    let fee = flash_loan_repay(&mut ctx, &loan, 1_001_500).unwrap();
    let (repaid, collected) = repay_events(&ctx, &loan, fee, 1701);
    assert_eq!(repaid.borrower, key(21));
    assert_eq!(repaid.amount, 500_000);
    assert_eq!(repaid.timestamp, 1701);
    assert_eq!(collected.amount, 1500);
    assert_eq!(collected.recipient, key(20));
}
