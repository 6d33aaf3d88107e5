//! Properties of the program that span instructions.
use vstd::prelude::*;
use crate::accounts::{DepositNft, FlashLoan, InitVault, Initialize, SetFeeBps, SetMerkleRoot, SetPaused, WithdrawNft};
use crate::error::{ErrorCode, ProgramError};
use crate::fee::{fee_fits, fee_of};
use crate::instructions::{
    deposit_nft_result, derived, flash_loan_repay_result, flash_loan_result, init_vault_result,
    initialize_result, set_fee_bps_result, set_merkle_root_result, set_paused_result,
    withdraw_nft_result, LoanInFlight,
};
use crate::layout::{config_fields, escrow_fields, vault_state_fields};
use crate::pda::{
    bump_search, config_seeds, escrow_authority_seeds, escrow_seeds, find_program_address,
    program_address, program_id_spec, vault_authority_seeds, vault_state_seeds,
};
use crate::state::{Config, Escrow, EscrowStatus, VaultState};

verus! {

/// The admin settings change exactly when the config's admin signs, and
/// then only the one setting changes.
pub proof fn lemma_settings_admin_only(
    fee_ctx: SetFeeBps,
    new_fee_bps: u16,
    root_ctx: SetMerkleRoot,
    merkle_root: Option<[u8; 32]>,
    paused_ctx: SetPaused,
    paused: bool,
)
    ensures
        set_fee_bps_result(fee_ctx, new_fee_bps) is Ok
            <==> fee_ctx.admin_is_signer && fee_ctx.config.admin@ == fee_ctx.admin@,
        set_merkle_root_result(root_ctx, merkle_root) is Ok
            <==> root_ctx.admin_is_signer && root_ctx.config.admin@ == root_ctx.admin@,
        set_paused_result(paused_ctx, paused) is Ok
            <==> paused_ctx.admin_is_signer && paused_ctx.config.admin@ == paused_ctx.admin@,
        set_fee_bps_result(fee_ctx, new_fee_bps) matches Ok(post)
            ==> post.config.fee_bps == new_fee_bps && post.config.admin == fee_ctx.config.admin
                && post.config.merkle_root == fee_ctx.config.merkle_root
                && post.config.paused == fee_ctx.config.paused && post.config.bump == fee_ctx.config.bump,
        set_merkle_root_result(root_ctx, merkle_root) matches Ok(post)
            ==> post.config.merkle_root == merkle_root && post.config.admin == root_ctx.config.admin
                && post.config.fee_bps == root_ctx.config.fee_bps
                && post.config.paused == root_ctx.config.paused && post.config.bump == root_ctx.config.bump,
        set_paused_result(paused_ctx, paused) matches Ok(post)
            ==> post.config.paused == paused && post.config.admin == paused_ctx.config.admin
                && post.config.fee_bps == paused_ctx.config.fee_bps
                && post.config.merkle_root == paused_ctx.config.merkle_root
                && post.config.bump == paused_ctx.config.bump,
{
}

/// A vault can only be opened by the config's admin, signing.
pub proof fn lemma_init_vault_admin_only(pre: InitVault)
    requires
        !(pre.admin_is_signer && pre.config.admin@ == pre.admin@),
    ensures
        init_vault_result(pre) is Err,
{
}

/// A config, a vault or an escrow is created once: the same instruction
/// on the accounts it produced is refused.
pub proof fn lemma_accounts_created_once(
    init: Initialize,
    fees_bps: u16,
    merkle_root: Option<[u8; 32]>,
    fees_bps2: u16,
    merkle_root2: Option<[u8; 32]>,
    vault: InitVault,
    deposit: DepositNft,
)
    ensures
        initialize_result(init, fees_bps, merkle_root) matches Ok(post)
            ==> initialize_result(post, fees_bps2, merkle_root2) == Err::<Initialize, ProgramError>(
                ProgramError::AccountAlreadyInUse,
            ),
        init_vault_result(vault) matches Ok(post)
            ==> init_vault_result(post) == Err::<InitVault, ProgramError>(ProgramError::AccountAlreadyInUse),
        deposit_nft_result(deposit) matches Ok((post, _))
            ==> (deposit_nft_result(post) matches Err(e) && e == ProgramError::AccountAlreadyInUse),
{
}

/// While the program is paused, no deposit and no flash loan succeeds.
pub proof fn lemma_paused_refuses(deposit: DepositNft, loan: FlashLoan, amount: u64)
    ensures
        deposit.config.paused ==> deposit_nft_result(deposit) is Err,
        loan.config.paused ==> flash_loan_result(loan, amount) is Err,
{
}

/// A deposited NFT can be withdrawn by its owner: the withdrawal sends it
/// back from the escrow's token account to the account it came from,
/// signed with seeds that derive the escrow authority, and closes the
/// escrow.
pub proof fn lemma_deposit_then_withdraw(deposit: DepositNft)
    ensures
        deposit_nft_result(deposit) matches Ok((post, sent)) ==> {
            let withdraw = WithdrawNft {
                escrow: post.escrow.unwrap(),
                escrow_key: deposit.escrow_key,
                escrow_nft_ata: deposit.escrow_nft_ata,
                escrow_authority: deposit.escrow_authority,
                user_nft_ata: deposit.user_nft_ata,
                owner: deposit.user,
                owner_is_signer: true,
            };
            withdraw_nft_result(withdraw) matches Ok((after, returned)) && {
                &&& returned.from == sent.to
                &&& returned.to == sent.from
                &&& returned.amount == sent.amount
                &&& returned.authority == deposit.escrow_authority@
                &&& program_address(returned.signer_seeds, program_id_spec()) == Some(returned.authority)
                &&& after.escrow.status == EscrowStatus::Closed
            }
        },
{
    lemma_found_bump_derives(escrow_authority_seeds(deposit.escrow_key@), program_id_spec(), 255);
}

/// An escrow is withdrawn once: a second withdrawal is refused with
/// `EscrowLocked`.
pub proof fn lemma_withdraw_once(pre: WithdrawNft)
    ensures
        withdraw_nft_result(pre) matches Ok((post, _))
            ==> (withdraw_nft_result(post) matches Err(e) && e == ProgramError::Custom(ErrorCode::EscrowLocked)),
{
}

/// While a flash loan from a vault is in progress, another flash loan from
/// it is refused with `Reentrancy`.
pub proof fn lemma_no_reentrant_loan(pre: FlashLoan, amount: u64, amount2: u64)
    ensures
        flash_loan_result(pre, amount) matches Ok((during, _))
            ==> (flash_loan_result(during, amount2) matches Err(e) && e == ProgramError::Custom(
                ErrorCode::Reentrancy,
            )),
{
}

/// A flash loan completes exactly when the vault is paid back its balance
/// before the loan plus the fee; a completed loan leaves the accounts as
/// they were before it.
pub proof fn lemma_loan_repaid_or_refused(pre: FlashLoan, amount: u64, loan: LoanInFlight, final_balance: u64)
    requires
        loan.amount == amount,
        loan.initial_balance == pre.vault_ata_amount,
        fee_fits(amount, pre.config.fee_bps),
        loan.initial_balance + fee_of(amount, pre.config.fee_bps) <= u64::MAX,
    ensures
        flash_loan_result(pre, amount) matches Ok((during, _)) ==> {
            &&& (flash_loan_repay_result(during, loan, final_balance) is Ok
                <==> final_balance >= pre.vault_ata_amount + fee_of(amount, pre.config.fee_bps))
            &&& (flash_loan_repay_result(during, loan, final_balance) matches Ok((after, fee))
                ==> after == pre && fee == fee_of(amount, pre.config.fee_bps))
            &&& (final_balance < pre.vault_ata_amount + fee_of(amount, pre.config.fee_bps)
                ==> (flash_loan_repay_result(during, loan, final_balance) matches Err(e) && e
                    == ProgramError::Custom(ErrorCode::LoanNotRepaid)))
        },
{
}

/// The canonical bump of a derivation derives its address.
pub proof fn lemma_found_bump_derives(seeds: Seq<Seq<u8>>, program_id: Seq<u8>, bump: nat)
    ensures
        bump_search(seeds, program_id, bump) matches Some((address, b))
            ==> program_address(seeds.push(seq![b]), program_id) == Some(address),
    decreases bump,
{
    if bump > 0 {
        lemma_found_bump_derives(seeds, program_id, (bump - 1) as nat);
    }
}

/// A vault's stored authority bump is the canonical one, and the loan
/// transfer of a vault with the canonical bump is signed with seeds that
/// derive the vault authority.
pub proof fn lemma_loan_signed_by_vault_authority(vault: InitVault, pre: FlashLoan, amount: u64)
    ensures
        init_vault_result(vault) matches Ok(post) ==> derived(
            vault_authority_seeds(vault.vault_state_key@),
            vault.vault_authority@,
        ) == Ok::<u8, ProgramError>(post.vault_state.unwrap().vault_bump),
        derived(vault_authority_seeds(pre.vault_state_key@), pre.vault_authority@) == Ok::<u8, ProgramError>(
            pre.vault_state.vault_bump,
        ) ==> (flash_loan_result(pre, amount) matches Ok((_, transfer)) ==> program_address(
            transfer.signer_seeds,
            program_id_spec(),
        ) == Some(transfer.authority)),
{
    let seeds = vault_authority_seeds(pre.vault_state_key@);
    lemma_found_bump_derives(seeds, program_id_spec(), 255);
}

/// The NFT transfer of a withdrawal is signed with seeds that derive the
/// escrow authority, the owner of the escrow's token account.
pub proof fn lemma_withdraw_signed_by_escrow_authority(pre: WithdrawNft)
    ensures
        withdraw_nft_result(pre) matches Ok((_, transfer)) ==> transfer.authority == pre.escrow_authority@
            && program_address(transfer.signer_seeds, program_id_spec()) == Some(transfer.authority),
{
    lemma_found_bump_derives(escrow_authority_seeds(pre.escrow_key@), program_id_spec(), 255);
}

/// `initialize` by the signing admin, at the canonical config address of
/// the admin with bump `bump`, on an account holding no data, succeeds for
/// every fee and root, and stores exactly them, the admin, the bump and an
/// unpaused flag.
pub proof fn lemma_initialize_succeeds(pre: Initialize, fees_bps: u16, merkle_root: Option<[u8; 32]>, bump: u8)
    requires
        pre.admin_is_signer,
        find_program_address(config_seeds(pre.admin@), program_id_spec()) == Some((pre.config_key@, bump)),
        pre.config is None,
    ensures
        initialize_result(pre, fees_bps, merkle_root) matches Ok(post) && post.config == Some(
            Config { admin: pre.admin, fee_bps: fees_bps, merkle_root, bump, paused: false },
        ) && post.config_key == pre.config_key && post.admin == pre.admin,
{
}

/// `init_vault` succeeds exactly when the admin signs, is the config's
/// admin, the vault and its authority sit at their canonical addresses and
/// the vault holds no data; the paused flag plays no part. The new vault
/// records the mint, the authority, the config, both canonical bumps and
/// no loan in progress.
pub proof fn lemma_init_vault_succeeds(pre: InitVault, bump: u8, vault_bump: u8)
    requires
        find_program_address(vault_state_seeds(pre.liquidity_mint@), program_id_spec()) == Some(
            (pre.vault_state_key@, bump),
        ),
        find_program_address(vault_authority_seeds(pre.vault_state_key@), program_id_spec()) == Some(
            (pre.vault_authority@, vault_bump),
        ),
    ensures
        init_vault_result(pre) is Ok <==> pre.admin_is_signer && pre.config.admin@ == pre.admin@
            && pre.vault_state is None,
        init_vault_result(pre) matches Ok(post) ==> post.vault_state == Some(
            VaultState {
                mint: pre.liquidity_mint,
                authority: pre.vault_authority,
                config: pre.config_key,
                bump,
                vault_bump,
                in_flash: false,
            },
        ) && post.config == pre.config,
{
}

/// `deposit_nft` by a signing user, with the escrow and its authority at
/// their canonical addresses, the escrow holding no data and the program
/// not paused, succeeds whatever whitelist root is set: one token moves from
/// the user's token account to the escrow's, signed by the user, and the
/// escrow records the owner, the mint, the vault, its bump and `Deposited`.
pub proof fn lemma_deposit_succeeds(pre: DepositNft, bump: u8, authority_bump: u8)
    requires
        pre.user_is_signer,
        find_program_address(escrow_seeds(pre.user@, pre.nft_mint@), program_id_spec()) == Some(
            (pre.escrow_key@, bump),
        ),
        find_program_address(escrow_authority_seeds(pre.escrow_key@), program_id_spec()) == Some(
            (pre.escrow_authority@, authority_bump),
        ),
        pre.escrow is None,
        !pre.config.paused,
    ensures
        deposit_nft_result(pre) matches Ok((post, transfer)) && {
            &&& post.escrow == Some(
                Escrow {
                    owner: pre.user,
                    nft_mint: pre.nft_mint,
                    vault_state: pre.vault_state_key,
                    bump,
                    status: EscrowStatus::Deposited,
                },
            )
            &&& post.config == pre.config
            &&& transfer.from == pre.user_nft_ata@
            &&& transfer.to == pre.escrow_nft_ata@
            &&& transfer.authority == pre.user@
            &&& transfer.amount == 1
            &&& transfer.signer_seeds.len() == 0
        },
{
}

/// `withdraw_nft` by the signing owner of a deposited escrow, with the
/// escrow authority at its canonical address, succeeds: one token moves
/// back from the escrow's token account to the owner's, signed with the
/// authority's seeds and canonical bump, and only the status changes, to
/// `Closed`.
pub proof fn lemma_withdraw_succeeds(pre: WithdrawNft, authority_bump: u8)
    requires
        pre.owner_is_signer,
        pre.escrow.owner@ == pre.owner@,
        find_program_address(escrow_authority_seeds(pre.escrow_key@), program_id_spec()) == Some(
            (pre.escrow_authority@, authority_bump),
        ),
        pre.escrow.status == EscrowStatus::Deposited,
    ensures
        withdraw_nft_result(pre) matches Ok((post, transfer)) && {
            &&& post.escrow == Escrow { status: EscrowStatus::Closed, ..pre.escrow }
            &&& transfer.from == pre.escrow_nft_ata@
            &&& transfer.to == pre.user_nft_ata@
            &&& transfer.authority == pre.escrow_authority@
            &&& transfer.amount == 1
            &&& transfer.signer_seeds == escrow_authority_seeds(pre.escrow_key@).push(seq![authority_bump])
        },
{
}

/// `flash_loan` on a vault whose authority sits at its canonical address,
/// while the program is not paused and no loan is in progress, starts for
/// every amount and whatever accounts are passed on to the borrower: the
/// amount moves from the vault's token account to the borrower's, signed
/// with the vault authority's seeds and stored bump, the vault is marked as
/// lending and nothing else changes.
pub proof fn lemma_flash_loan_starts(pre: FlashLoan, amount: u64, vault_bump: u8)
    requires
        find_program_address(vault_authority_seeds(pre.vault_state_key@), program_id_spec()) == Some(
            (pre.vault_authority@, vault_bump),
        ),
        !pre.config.paused,
        !pre.vault_state.in_flash,
    ensures
        flash_loan_result(pre, amount) matches Ok((post, transfer)) && {
            &&& post.vault_state == VaultState { in_flash: true, ..pre.vault_state }
            &&& post.remaining_accounts == pre.remaining_accounts
            &&& post.config == pre.config
            &&& post.vault_ata_amount == pre.vault_ata_amount
            &&& transfer.from == pre.vault_ata@
            &&& transfer.to == pre.borrower_ata@
            &&& transfer.authority == pre.vault_authority@
            &&& transfer.amount == amount
            &&& transfer.signer_seeds == vault_authority_seeds(pre.vault_state_key@).push(
                seq![pre.vault_state.vault_bump],
            )
        },
{
}

/// The account data holds the fields in declaration order: a config's
/// admin, fee (little-endian), root tag and root, bump and paused flag; a
/// vault's mint, authority, config, bumps and lending flag; an escrow's
/// owner, mint, vault, bump and status.
pub proof fn lemma_field_order(c: Config, v: VaultState, e: Escrow)
    ensures
        config_fields(c).subrange(0, 32) == c.admin@,
        config_fields(c)[32] as int == c.fee_bps % 256,
        config_fields(c)[33] as int == c.fee_bps / 256,
        c.merkle_root is None ==> config_fields(c).len() == 37 && config_fields(c)[34] == 0
            && config_fields(c)[35] == c.bump && config_fields(c)[36] == (if c.paused { 1u8 } else { 0u8 }),
        c.merkle_root matches Some(root) ==> config_fields(c).len() == 69 && config_fields(c)[34] == 1
            && config_fields(c).subrange(35, 67) == root@ && config_fields(c)[67] == c.bump
            && config_fields(c)[68] == (if c.paused { 1u8 } else { 0u8 }),
        vault_state_fields(v).len() == 99,
        vault_state_fields(v).subrange(0, 32) == v.mint@,
        vault_state_fields(v).subrange(32, 64) == v.authority@,
        vault_state_fields(v).subrange(64, 96) == v.config@,
        vault_state_fields(v)[96] == v.bump,
        vault_state_fields(v)[97] == v.vault_bump,
        vault_state_fields(v)[98] == (if v.in_flash { 1u8 } else { 0u8 }),
        escrow_fields(e).len() == 98,
        escrow_fields(e).subrange(0, 32) == e.owner@,
        escrow_fields(e).subrange(32, 64) == e.nft_mint@,
        escrow_fields(e).subrange(64, 96) == e.vault_state@,
        escrow_fields(e)[96] == e.bump,
        escrow_fields(e)[97] == (if e.status == EscrowStatus::Deposited { 0u8 } else { 1u8 }),
{
    assert(config_fields(c).subrange(0, 32) =~= c.admin@);
    if let Some(root) = c.merkle_root {
        assert(config_fields(c).subrange(35, 67) =~= root@);
    }
    assert(vault_state_fields(v).subrange(0, 32) =~= v.mint@);
    assert(vault_state_fields(v).subrange(32, 64) =~= v.authority@);
    assert(vault_state_fields(v).subrange(64, 96) =~= v.config@);
    assert(escrow_fields(e).subrange(0, 32) =~= e.owner@);
    assert(escrow_fields(e).subrange(32, 64) =~= e.nft_mint@);
    assert(escrow_fields(e).subrange(64, 96) =~= e.vault_state@);
}

} // verus!
