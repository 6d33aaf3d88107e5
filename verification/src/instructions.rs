//! The program's instructions.
//!
//! Each instruction first runs the account checks its accounts declare
//! (signers, derived addresses, stored keys, accounts to create), in the
//! order the checks are declared, and then its body. An instruction that
//! fails changes nothing: every handler leaves its accounts as they were
//! when it returns an error. An instruction that makes a token transfer or
//! calls another program returns the call for the caller to perform; the
//! transaction fails as a whole when that call fails.
use vstd::prelude::*;
use crate::accounts::{DepositNft, FlashLoan, InitVault, Initialize, SetFeeBps, SetMerkleRoot, SetPaused, WithdrawNft};
use crate::cpi::{AccountMeta, AccountRef, Instruction, TokenTransfer, TokenTransferView};
use crate::error::{ErrorCode, ProgramError};
use crate::fee::{calc_fee, fee_fits, fee_of};
use crate::pda::{
    config_seeds, escrow_authority_seeds, escrow_authority_signer_seeds, escrow_seeds,
    find_config_address, find_escrow_address, find_escrow_authority_address,
    find_program_address, find_vault_authority_address, find_vault_state_address, found_view,
    program_id_spec, vault_authority_seeds, vault_authority_signer_seeds, vault_state_seeds,
};
use crate::state::{Config, Escrow, EscrowStatus, Pubkey, VaultState};

verus! {

// ----- account checks -----

/// Whether an account sits at the canonical address of its seeds:
/// the canonical bump when `found` is that address, `ConstraintSeeds`
/// otherwise.
pub open spec fn seeds_check(found: Option<(Seq<u8>, u8)>, key: Seq<u8>) -> Result<u8, ProgramError> {
    match found {
        Some((address, bump)) => if address == key {
            Ok(bump)
        } else {
            Err(ProgramError::ConstraintSeeds)
        },
        None => Err(ProgramError::ConstraintSeeds),
    }
}

/// The seeds check of `key` against the program's derivation of `seeds`.
pub open spec fn derived(seeds: Seq<Seq<u8>>, key: Seq<u8>) -> Result<u8, ProgramError> {
    seeds_check(find_program_address(seeds, program_id_spec()), key)
}

fn check_seeds(found: Option<(Pubkey, u8)>, key: &Pubkey) -> (r: Result<u8, ProgramError>)
    ensures
        r == seeds_check(found_view(found), key@),
{
    match found {
        Some((address, bump)) => if address.key_eq(key) {
            Ok(bump)
        } else {
            Err(ProgramError::ConstraintSeeds)
        },
        None => Err(ProgramError::ConstraintSeeds),
    }
}

/// The checks of an admin-only instruction: `admin` signs, and is the
/// admin stored in `config`.
pub open spec fn admin_check(config: Config, admin: Pubkey, admin_is_signer: bool) -> Result<(), ProgramError> {
    if !admin_is_signer {
        Err(ProgramError::AccountNotSigner)
    } else if config.admin@ != admin@ {
        Err(ProgramError::ConstraintHasOne)
    } else {
        Ok(())
    }
}

fn check_admin(config: &Config, admin: &Pubkey, admin_is_signer: bool) -> (r: Result<(), ProgramError>)
    ensures
        r == admin_check(*config, *admin, admin_is_signer),
{
    if !admin_is_signer {
        return Err(ProgramError::AccountNotSigner);
    }
    if !config.admin.key_eq(admin) {
        return Err(ProgramError::ConstraintHasOne);
    }
    Ok(())
}

/// `r` is the outcome `expected` gives, and the accounts went from `before`
/// to what `expected` gives on success and stayed as they were on failure.
pub open spec fn applied<T>(r: Result<(), ProgramError>, before: T, after: T, expected: Result<T, ProgramError>) -> bool {
    match expected {
        Ok(post) => r is Ok && after == post,
        Err(e) => r == Err::<(), ProgramError>(e) && after == before,
    }
}

// ----- initialize -----

/// What `initialize` does: `admin` signs, the config account sits at the
/// canonical address of `["config", admin]` and holds no data yet; the new
/// config is unpaused, with `admin`, the fee, the root and the bump.
pub open spec fn initialize_result(pre: Initialize, fees_bps: u16, merkle_root: Option<[u8; 32]>) -> Result<Initialize, ProgramError> {
    if !pre.admin_is_signer {
        Err(ProgramError::AccountNotSigner)
    } else {
        match derived(config_seeds(pre.admin@), pre.config_key@) {
            Err(e) => Err(e),
            Ok(bump) => if pre.config is Some {
                Err(ProgramError::AccountAlreadyInUse)
            } else {
                Ok(Initialize {
                    config: Some(Config { admin: pre.admin, bump, paused: false, fee_bps: fees_bps, merkle_root }),
                    ..pre
                })
            },
        }
    }
}

/// Initialize the program configuration.
pub fn initialize(ctx: &mut Initialize, fees_bps: u16, merkle_root: Option<[u8; 32]>) -> (r: Result<(), ProgramError>)
    ensures
        applied(r, *old(ctx), *final(ctx), initialize_result(*old(ctx), fees_bps, merkle_root)),
{
    if !ctx.admin_is_signer {
        return Err(ProgramError::AccountNotSigner);
    }
    let bump = match check_seeds(find_config_address(&ctx.admin), &ctx.config_key) {
        Ok(bump) => bump,
        Err(e) => return Err(e),
    };
    if ctx.config.is_some() {
        return Err(ProgramError::AccountAlreadyInUse);
    }
    ctx.config = Some(Config { admin: ctx.admin, bump, paused: false, fee_bps: fees_bps, merkle_root });
    Ok(())
}

// ----- admin settings -----

/// What `set_fee_bps` does: after the admin checks, the fee becomes
/// `new_fee_bps`.
pub open spec fn set_fee_bps_result(pre: SetFeeBps, new_fee_bps: u16) -> Result<SetFeeBps, ProgramError> {
    match admin_check(pre.config, pre.admin, pre.admin_is_signer) {
        Err(e) => Err(e),
        Ok(_) => Ok(SetFeeBps { config: Config { fee_bps: new_fee_bps, ..pre.config }, ..pre }),
    }
}

/// Set the fee basis points (only admin).
pub fn set_fee_bps(ctx: &mut SetFeeBps, new_fee_bps: u16) -> (r: Result<(), ProgramError>)
    ensures
        applied(r, *old(ctx), *final(ctx), set_fee_bps_result(*old(ctx), new_fee_bps)),
{
    match check_admin(&ctx.config, &ctx.admin, ctx.admin_is_signer) {
        Ok(_) => {},
        Err(e) => return Err(e),
    }
    ctx.config.fee_bps = new_fee_bps;
    Ok(())
}

/// What `set_merkle_root` does: after the admin checks, the root becomes
/// `merkle_root`.
pub open spec fn set_merkle_root_result(pre: SetMerkleRoot, merkle_root: Option<[u8; 32]>) -> Result<SetMerkleRoot, ProgramError> {
    match admin_check(pre.config, pre.admin, pre.admin_is_signer) {
        Err(e) => Err(e),
        Ok(_) => Ok(SetMerkleRoot { config: Config { merkle_root, ..pre.config }, ..pre }),
    }
}

/// Set the merkle root for whitelist (only admin).
pub fn set_merkle_root(ctx: &mut SetMerkleRoot, merkle_root: Option<[u8; 32]>) -> (r: Result<(), ProgramError>)
    ensures
        applied(r, *old(ctx), *final(ctx), set_merkle_root_result(*old(ctx), merkle_root)),
{
    match check_admin(&ctx.config, &ctx.admin, ctx.admin_is_signer) {
        Ok(_) => {},
        Err(e) => return Err(e),
    }
    ctx.config.merkle_root = merkle_root;
    Ok(())
}

/// What `set_paused` does: after the admin checks, the paused flag becomes
/// `paused`.
pub open spec fn set_paused_result(pre: SetPaused, paused: bool) -> Result<SetPaused, ProgramError> {
    match admin_check(pre.config, pre.admin, pre.admin_is_signer) {
        Err(e) => Err(e),
        Ok(_) => Ok(SetPaused { config: Config { paused, ..pre.config }, ..pre }),
    }
}

/// Set paused state (only admin).
pub fn set_paused(ctx: &mut SetPaused, paused: bool) -> (r: Result<(), ProgramError>)
    ensures
        applied(r, *old(ctx), *final(ctx), set_paused_result(*old(ctx), paused)),
{
    match check_admin(&ctx.config, &ctx.admin, ctx.admin_is_signer) {
        Ok(_) => {},
        Err(e) => return Err(e),
    }
    ctx.config.paused = paused;
    Ok(())
}

// ----- init_vault -----

/// What `init_vault` does: `admin` signs; the vault account sits at the
/// canonical address of `["vault_state", mint]` and holds no data yet; the
/// authority sits at the canonical address of `["vault_authority", vault]`;
/// `admin` is the config's admin. The new vault records the mint, the
/// authority, the config, both bumps, and no loan in progress.
pub open spec fn init_vault_result(pre: InitVault) -> Result<InitVault, ProgramError> {
    if !pre.admin_is_signer {
        Err(ProgramError::AccountNotSigner)
    } else {
        match derived(vault_state_seeds(pre.liquidity_mint@), pre.vault_state_key@) {
            Err(e) => Err(e),
            Ok(bump) => if pre.vault_state is Some {
                Err(ProgramError::AccountAlreadyInUse)
            } else {
                match derived(vault_authority_seeds(pre.vault_state_key@), pre.vault_authority@) {
                    Err(e) => Err(e),
                    Ok(vault_bump) => if pre.config.admin@ != pre.admin@ {
                        Err(ProgramError::ConstraintHasOne)
                    } else {
                        Ok(InitVault {
                            vault_state: Some(VaultState {
                                mint: pre.liquidity_mint,
                                authority: pre.vault_authority,
                                config: pre.config_key,
                                bump,
                                vault_bump,
                                in_flash: false,
                            }),
                            ..pre
                        })
                    },
                }
            },
        }
    }
}

/// Initialize a vault for a specific token mint.
pub fn init_vault(ctx: &mut InitVault) -> (r: Result<(), ProgramError>)
    ensures
        applied(r, *old(ctx), *final(ctx), init_vault_result(*old(ctx))),
{
    if !ctx.admin_is_signer {
        return Err(ProgramError::AccountNotSigner);
    }
    let bump = match check_seeds(find_vault_state_address(&ctx.liquidity_mint), &ctx.vault_state_key) {
        Ok(bump) => bump,
        Err(e) => return Err(e),
    };
    if ctx.vault_state.is_some() {
        return Err(ProgramError::AccountAlreadyInUse);
    }
    let vault_bump = match check_seeds(find_vault_authority_address(&ctx.vault_state_key), &ctx.vault_authority) {
        Ok(bump) => bump,
        Err(e) => return Err(e),
    };
    if !ctx.config.admin.key_eq(&ctx.admin) {
        return Err(ProgramError::ConstraintHasOne);
    }
    ctx.vault_state = Some(VaultState {
        mint: ctx.liquidity_mint,
        authority: ctx.vault_authority,
        config: ctx.config_key,
        bump,
        vault_bump,
        in_flash: false,
    });
    Ok(())
}

/// `r` is the outcome `expected` gives, with the call `r` returns viewed as
/// the one `expected` gives; the accounts went from `before` to what
/// `expected` gives on success and stayed as they were on failure.
pub open spec fn applied_with<T, A: View>(
    r: Result<A, ProgramError>,
    before: T,
    after: T,
    expected: Result<(T, A::V), ProgramError>,
) -> bool {
    match expected {
        Ok((post, call)) => r matches Ok(a) && a@ == call && after == post,
        Err(e) => r matches Err(x) && x == e && after == before,
    }
}

// ----- deposit_nft -----

/// The transfer of one token from `from` to `to`, authorized by `authority`.
pub open spec fn nft_transfer(from: Pubkey, to: Pubkey, authority: Pubkey, signer_seeds: Seq<Seq<u8>>) -> TokenTransferView {
    TokenTransferView { from: from@, to: to@, authority: authority@, amount: 1, signer_seeds }
}

/// What `deposit_nft` does: `user` signs; the escrow account sits at the
/// canonical address of `["escrow", user, mint]` and holds no data yet; the
/// escrow authority sits at the canonical address of `["escrow", escrow]`;
/// the program is not paused. The NFT moves from the user's token account
/// to the escrow's, signed by the user, and the new escrow records the
/// owner, the mint, the vault, the bump and `Deposited`.
pub open spec fn deposit_nft_result(pre: DepositNft) -> Result<(DepositNft, TokenTransferView), ProgramError> {
    if !pre.user_is_signer {
        Err(ProgramError::AccountNotSigner)
    } else {
        match derived(escrow_seeds(pre.user@, pre.nft_mint@), pre.escrow_key@) {
            Err(e) => Err(e),
            Ok(bump) => if pre.escrow is Some {
                Err(ProgramError::AccountAlreadyInUse)
            } else {
                match derived(escrow_authority_seeds(pre.escrow_key@), pre.escrow_authority@) {
                    Err(e) => Err(e),
                    Ok(_) => if pre.config.paused {
                        Err(ProgramError::Custom(ErrorCode::Paused))
                    } else {
                        Ok((
                            DepositNft {
                                escrow: Some(Escrow {
                                    owner: pre.user,
                                    nft_mint: pre.nft_mint,
                                    bump,
                                    status: EscrowStatus::Deposited,
                                    vault_state: pre.vault_state_key,
                                }),
                                ..pre
                            },
                            nft_transfer(pre.user_nft_ata, pre.escrow_nft_ata, pre.user, Seq::empty()),
                        ))
                    },
                }
            },
        }
    }
}

/// Deposit an NFT into escrow. Returns the transfer that moves the NFT
/// into the escrow's token account.
pub fn deposit_nft(ctx: &mut DepositNft) -> (r: Result<TokenTransfer, ProgramError>)
    ensures
        applied_with(r, *old(ctx), *final(ctx), deposit_nft_result(*old(ctx))),
{
    if !ctx.user_is_signer {
        return Err(ProgramError::AccountNotSigner);
    }
    let bump = match check_seeds(find_escrow_address(&ctx.user, &ctx.nft_mint), &ctx.escrow_key) {
        Ok(bump) => bump,
        Err(e) => return Err(e),
    };
    if ctx.escrow.is_some() {
        return Err(ProgramError::AccountAlreadyInUse);
    }
    match check_seeds(find_escrow_authority_address(&ctx.escrow_key), &ctx.escrow_authority) {
        Ok(_) => {},
        Err(e) => return Err(e),
    }
    if ctx.config.paused {
        return Err(ProgramError::Custom(ErrorCode::Paused));
    }
    let transfer = TokenTransfer {
        from: ctx.user_nft_ata,
        to: ctx.escrow_nft_ata,
        authority: ctx.user,
        amount: 1,
        signer_seeds: Vec::new(),
    };
    assert(transfer.signer_seeds.deep_view() =~= Seq::<Seq<u8>>::empty());
    ctx.escrow = Some(Escrow {
        owner: ctx.user,
        nft_mint: ctx.nft_mint,
        bump,
        status: EscrowStatus::Deposited,
        vault_state: ctx.vault_state_key,
    });
    Ok(transfer)
}

// ----- withdraw_nft -----

/// What `withdraw_nft` does: `owner` signs and is the escrow's owner; the
/// escrow authority sits at the canonical address of `["escrow", escrow]`;
/// the NFT is still deposited. The NFT moves from the escrow's token
/// account back to the owner's, signed with the escrow authority's seeds
/// and its canonical bump, and the escrow becomes `Closed`.
pub open spec fn withdraw_nft_result(pre: WithdrawNft) -> Result<(WithdrawNft, TokenTransferView), ProgramError> {
    if !pre.owner_is_signer {
        Err(ProgramError::AccountNotSigner)
    } else if pre.escrow.owner@ != pre.owner@ {
        Err(ProgramError::ConstraintHasOne)
    } else {
        match derived(escrow_authority_seeds(pre.escrow_key@), pre.escrow_authority@) {
            Err(e) => Err(e),
            Ok(authority_bump) => if pre.escrow.status != EscrowStatus::Deposited {
                Err(ProgramError::Custom(ErrorCode::EscrowLocked))
            } else {
                Ok((
                    WithdrawNft { escrow: Escrow { status: EscrowStatus::Closed, ..pre.escrow }, ..pre },
                    nft_transfer(
                        pre.escrow_nft_ata,
                        pre.user_nft_ata,
                        pre.escrow_authority,
                        escrow_authority_seeds(pre.escrow_key@).push(seq![authority_bump]),
                    ),
                ))
            },
        }
    }
}

/// Withdraw NFT from escrow back to owner. Returns the transfer that moves
/// the NFT back.
pub fn withdraw_nft(ctx: &mut WithdrawNft) -> (r: Result<TokenTransfer, ProgramError>)
    ensures
        applied_with(r, *old(ctx), *final(ctx), withdraw_nft_result(*old(ctx))),
{
    if !ctx.owner_is_signer {
        return Err(ProgramError::AccountNotSigner);
    }
    if !ctx.escrow.owner.key_eq(&ctx.owner) {
        return Err(ProgramError::ConstraintHasOne);
    }
    let authority_bump = match check_seeds(find_escrow_authority_address(&ctx.escrow_key), &ctx.escrow_authority) {
        Ok(bump) => bump,
        Err(e) => return Err(e),
    };
    if ctx.escrow.status != EscrowStatus::Deposited {
        return Err(ProgramError::Custom(ErrorCode::EscrowLocked));
    }
    let transfer = TokenTransfer {
        from: ctx.escrow_nft_ata,
        to: ctx.user_nft_ata,
        authority: ctx.escrow_authority,
        amount: 1,
        signer_seeds: escrow_authority_signer_seeds(&ctx.escrow_key, authority_bump),
    };
    ctx.escrow.status = EscrowStatus::Closed;
    Ok(transfer)
}

// ----- flash_loan -----

/// A flash loan between its start and its repayment check.
#[derive(Debug, PartialEq, Eq)]
pub struct LoanInFlight {
    /// Tokens lent.
    pub amount: u64,
    /// Balance of the vault's token account before the loan.
    pub initial_balance: u64,
    /// The borrower's instruction data.
    pub borrower_ix_data: Vec<u8>,
    /// The program the borrower's instruction must go to.
    pub expected_borrower_program: Pubkey,
}

/// What `flash_loan` does up to the transfer of the loan: the vault
/// authority sits at the canonical address of `["vault_authority", vault]`;
/// the program is not paused; no loan from the vault is in progress. The
/// vault is marked as lending, and `amount` moves from the vault's token
/// account to the borrower's, signed with the vault authority's seeds and
/// the bump stored in the vault.
pub open spec fn flash_loan_result(pre: FlashLoan, amount: u64) -> Result<(FlashLoan, TokenTransferView), ProgramError> {
    match derived(vault_authority_seeds(pre.vault_state_key@), pre.vault_authority@) {
        Err(e) => Err(e),
        Ok(_) => if pre.config.paused {
            Err(ProgramError::Custom(ErrorCode::Paused))
        } else if pre.vault_state.in_flash {
            Err(ProgramError::Custom(ErrorCode::Reentrancy))
        } else {
            Ok((
                FlashLoan { vault_state: VaultState { in_flash: true, ..pre.vault_state }, ..pre },
                TokenTransferView {
                    from: pre.vault_ata@,
                    to: pre.borrower_ata@,
                    authority: pre.vault_authority@,
                    amount,
                    signer_seeds: vault_authority_seeds(pre.vault_state_key@).push(seq![pre.vault_state.vault_bump]),
                },
            ))
        },
    }
}

/// The loan a started `flash_loan` carries on to its later steps.
pub open spec fn loan_started(
    loan: LoanInFlight,
    pre: FlashLoan,
    amount: u64,
    borrower_ix_data: Seq<u8>,
    expected_borrower_program: Pubkey,
) -> bool {
    &&& loan.amount == amount
    &&& loan.initial_balance == pre.vault_ata_amount
    &&& loan.borrower_ix_data@ == borrower_ix_data
    &&& loan.expected_borrower_program == expected_borrower_program
}

/// Execute a flash loan: the first step. Returns the transfer of the loan
/// to the borrower, and the loan to carry on to `flash_loan_callback` once
/// the transfer is made.
pub fn flash_loan(
    ctx: &mut FlashLoan,
    amount: u64,
    borrower_ix_data: Vec<u8>,
    expected_borrower_program: Pubkey,
) -> (r: Result<(TokenTransfer, LoanInFlight), ProgramError>)
    ensures
        match flash_loan_result(*old(ctx), amount) {
            Ok((post, call)) => r matches Ok((transfer, loan)) && transfer@ == call && *final(ctx) == post
                && loan_started(loan, *old(ctx), amount, borrower_ix_data@, expected_borrower_program),
            Err(e) => r matches Err(x) && x == e && *final(ctx) == *old(ctx),
        },
{
    match check_seeds(find_vault_authority_address(&ctx.vault_state_key), &ctx.vault_authority) {
        Ok(_) => {},
        Err(e) => return Err(e),
    }
    if ctx.config.paused {
        return Err(ProgramError::Custom(ErrorCode::Paused));
    }
    if ctx.vault_state.in_flash {
        return Err(ProgramError::Custom(ErrorCode::Reentrancy));
    }
    ctx.vault_state.in_flash = true;
    let initial_balance = ctx.vault_ata_amount;
    let transfer = TokenTransfer {
        from: ctx.vault_ata,
        to: ctx.borrower_ata,
        authority: ctx.vault_authority,
        amount,
        signer_seeds: vault_authority_signer_seeds(&ctx.vault_state_key, ctx.vault_state.vault_bump),
    };
    let loan = LoanInFlight { amount, initial_balance, borrower_ix_data, expected_borrower_program };
    Ok((transfer, loan))
}

/// The accounts passed on to the borrower, each with its own signer and
/// writable flags.
pub open spec fn metas_of(accounts: Seq<AccountRef>) -> Seq<AccountMeta> {
    accounts.map_values(|a: AccountRef| AccountMeta { pubkey: a.key, is_signer: a.is_signer, is_writable: a.is_writable })
}

/// The flags of an account passed on to the borrower.
fn account_meta_of(account: &AccountRef) -> (meta: AccountMeta)
    ensures
        meta == (AccountMeta { pubkey: account.key, is_signer: account.is_signer, is_writable: account.is_writable }),
{
    match (account.is_writable, account.is_signer) {
        (true, true) => AccountMeta::new(account.key, true),
        (true, false) => AccountMeta::new(account.key, false),
        (false, true) => AccountMeta::new_readonly(account.key, true),
        (false, false) => AccountMeta::new_readonly(account.key, false),
    }
}

/// Execute a flash loan: the second step, once the loan is transferred.
/// Fails with `WrongProgram` unless the borrower's program is the expected
/// one; otherwise returns the borrower's instruction to invoke, with the
/// remaining accounts and the borrower's data.
pub fn flash_loan_callback(ctx: &FlashLoan, loan: &LoanInFlight) -> (r: Result<Instruction, ProgramError>)
    ensures
        match r {
            Ok(ix) => ctx.borrower_program@ == loan.expected_borrower_program@
                && ix.program_id == ctx.borrower_program
                && ix.accounts@ == metas_of(ctx.remaining_accounts@)
                && ix.data@ == loan.borrower_ix_data@,
            Err(e) => ctx.borrower_program@ != loan.expected_borrower_program@
                && e == ProgramError::Custom(ErrorCode::WrongProgram),
        },
{
    if !ctx.borrower_program.key_eq(&loan.expected_borrower_program) {
        return Err(ProgramError::Custom(ErrorCode::WrongProgram));
    }
    let mut metas: Vec<AccountMeta> = Vec::new();
    let n = ctx.remaining_accounts.len();
    let mut i: usize = 0;
    while i < n
        invariant
            i <= n,
            n == ctx.remaining_accounts@.len(),
            metas@ == metas_of(ctx.remaining_accounts@.subrange(0, i as int)),
        decreases n - i,
    {
        let meta = account_meta_of(&ctx.remaining_accounts[i]);
        metas.push(meta);
        i = i + 1;
        assert(metas@ =~= metas_of(ctx.remaining_accounts@.subrange(0, i as int)));
    }
    assert(ctx.remaining_accounts@.subrange(0, n as int) =~= ctx.remaining_accounts@);
    let mut data: Vec<u8> = Vec::new();
    let m = loan.borrower_ix_data.len();
    let mut j: usize = 0;
    while j < m
        invariant
            j <= m,
            m == loan.borrower_ix_data@.len(),
            data@ == loan.borrower_ix_data@.subrange(0, j as int),
        decreases m - j,
    {
        data.push(loan.borrower_ix_data[j]);
        j = j + 1;
        assert(data@ =~= loan.borrower_ix_data@.subrange(0, j as int));
    }
    assert(loan.borrower_ix_data@.subrange(0, m as int) =~= loan.borrower_ix_data@);
    Ok(Instruction { program_id: ctx.borrower_program, accounts: metas, data })
}

/// What the last step of `flash_loan` does, once the borrower's instruction
/// has run and the vault's token account holds `final_balance`: the fee on
/// the loan is computed; the vault must hold at least its balance before
/// the loan plus the fee. The vault is then no longer lending, and the fee
/// is returned.
pub open spec fn flash_loan_repay_result(pre: FlashLoan, loan: LoanInFlight, final_balance: u64) -> Result<(FlashLoan, u64), ProgramError> {
    if !fee_fits(loan.amount, pre.config.fee_bps) {
        Err(ProgramError::Custom(ErrorCode::MathOverflow))
    } else if loan.initial_balance + fee_of(loan.amount, pre.config.fee_bps) > u64::MAX {
        Err(ProgramError::Custom(ErrorCode::MathOverflow))
    } else if final_balance < loan.initial_balance + fee_of(loan.amount, pre.config.fee_bps) {
        Err(ProgramError::Custom(ErrorCode::LoanNotRepaid))
    } else {
        Ok((
            FlashLoan { vault_state: VaultState { in_flash: false, ..pre.vault_state }, ..pre },
            fee_of(loan.amount, pre.config.fee_bps) as u64,
        ))
    }
}

/// Execute a flash loan: the last step, once the borrower's instruction has
/// run. `final_balance` is the balance of the vault's token account after
/// it. Checks repayment with the fee, and returns the fee collected.
pub fn flash_loan_repay(ctx: &mut FlashLoan, loan: &LoanInFlight, final_balance: u64) -> (r: Result<u64, ProgramError>)
    ensures
        match flash_loan_repay_result(*old(ctx), *loan, final_balance) {
            Ok((post, fee)) => r == Ok::<u64, ProgramError>(fee) && *final(ctx) == post,
            Err(e) => r == Err::<u64, ProgramError>(e) && *final(ctx) == *old(ctx),
        },
{
    let fee = match calc_fee(loan.amount, ctx.config.fee_bps) {
        Ok(fee) => fee,
        Err(e) => return Err(ProgramError::Custom(e)),
    };
    let required_balance = match loan.initial_balance.checked_add(fee) {
        Some(required) => required,
        None => return Err(ProgramError::Custom(ErrorCode::MathOverflow)),
    };
    if final_balance < required_balance {
        return Err(ProgramError::Custom(ErrorCode::LoanNotRepaid));
    }
    ctx.vault_state.in_flash = false;
    Ok(fee)
}

} // verus!
