//! The accounts each instruction is given, as plain values.
//!
//! An account the instruction creates is an `Option`: `None` while no data
//! is stored at its address.
use vstd::prelude::*;
use crate::cpi::AccountRef;
use crate::state::{Config, Escrow, Pubkey, VaultState};

verus! {

/// Accounts of `initialize`.
#[derive(Clone, Copy, Debug, PartialEq, Eq)]
pub struct Initialize {
    /// The config account to create, at the address derived from `admin`.
    pub config: Option<Config>,
    pub config_key: Pubkey,
    pub admin: Pubkey,
    pub admin_is_signer: bool,
}

/// Accounts of `set_fee_bps`.
#[derive(Clone, Copy, Debug, PartialEq, Eq)]
pub struct SetFeeBps {
    pub config: Config,
    pub admin: Pubkey,
    pub admin_is_signer: bool,
}

/// Accounts of `set_merkle_root`.
#[derive(Clone, Copy, Debug, PartialEq, Eq)]
pub struct SetMerkleRoot {
    pub config: Config,
    pub admin: Pubkey,
    pub admin_is_signer: bool,
}

/// Accounts of `set_paused`.
#[derive(Clone, Copy, Debug, PartialEq, Eq)]
pub struct SetPaused {
    pub config: Config,
    pub admin: Pubkey,
    pub admin_is_signer: bool,
}

/// Accounts of `init_vault`.
#[derive(Clone, Copy, Debug, PartialEq, Eq)]
pub struct InitVault {
    /// The vault account to create, at the address derived from the mint.
    pub vault_state: Option<VaultState>,
    pub vault_state_key: Pubkey,
    /// The address derived from the vault account that will own its tokens.
    pub vault_authority: Pubkey,
    pub config: Config,
    pub config_key: Pubkey,
    pub liquidity_mint: Pubkey,
    pub admin: Pubkey,
    pub admin_is_signer: bool,
}

/// Accounts of `deposit_nft`.
#[derive(Clone, Copy, Debug, PartialEq, Eq)]
pub struct DepositNft {
    /// The escrow account to create, at the address derived from the user
    /// and the mint.
    pub escrow: Option<Escrow>,
    pub escrow_key: Pubkey,
    /// The token account of `escrow_authority` that receives the NFT.
    pub escrow_nft_ata: Pubkey,
    /// The address derived from the escrow account that will hold the NFT.
    pub escrow_authority: Pubkey,
    pub config: Config,
    /// The vault the deposit is recorded against.
    pub vault_state_key: Pubkey,
    /// The user's token account the NFT comes from.
    pub user_nft_ata: Pubkey,
    pub nft_mint: Pubkey,
    pub user: Pubkey,
    pub user_is_signer: bool,
}

/// Accounts of `withdraw_nft`.
#[derive(Clone, Copy, Debug, PartialEq, Eq)]
pub struct WithdrawNft {
    pub escrow: Escrow,
    pub escrow_key: Pubkey,
    /// The token account that holds the escrowed NFT.
    pub escrow_nft_ata: Pubkey,
    pub escrow_authority: Pubkey,
    /// The owner's token account the NFT returns to.
    pub user_nft_ata: Pubkey,
    pub owner: Pubkey,
    pub owner_is_signer: bool,
}

/// Accounts of `flash_loan`.
#[derive(Debug, PartialEq, Eq)]
pub struct FlashLoan {
    pub config: Config,
    pub vault_state: VaultState,
    pub vault_state_key: Pubkey,
    /// The vault's token account the loan is paid from.
    pub vault_ata: Pubkey,
    /// Balance of `vault_ata` when the instruction starts.
    pub vault_ata_amount: u64,
    pub vault_authority: Pubkey,
    /// The borrower's token account the loan is paid to.
    pub borrower_ata: Pubkey,
    /// The program the borrower's instruction is sent to.
    pub borrower_program: Pubkey,
    /// The further accounts passed on to the borrower's instruction.
    pub remaining_accounts: Vec<AccountRef>,
}

} // verus!
