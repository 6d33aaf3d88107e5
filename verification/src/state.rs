//! Account data owned by the program.
use vstd::prelude::*;

verus! {

/// A 32-byte account address.
#[derive(Clone, Copy, Debug, PartialEq, Eq)]
pub struct Pubkey {
    pub bytes: [u8; 32],
}

impl View for Pubkey {
    type V = Seq<u8>;

    open spec fn view(&self) -> Seq<u8> {
        self.bytes@
    }
}

impl Pubkey {
    /// Wraps 32 raw bytes.
    pub fn new_from_array(bytes: [u8; 32]) -> (key: Pubkey)
        ensures
            key.bytes == bytes,
            key@ == bytes@,
    {
        Pubkey { bytes }
    }

    /// The raw bytes of the address.
    pub fn to_bytes(&self) -> (bytes: [u8; 32])
        ensures
            bytes == self.bytes,
    {
        self.bytes
    }

    /// The address as a byte vector, as used in PDA seeds.
    pub fn to_vec(&self) -> (v: Vec<u8>)
        ensures
            v@ == self@,
    {
        let mut v: Vec<u8> = Vec::new();
        let mut i: usize = 0;
        while i < 32
            invariant
                i <= 32,
                v@ == self@.subrange(0, i as int),
                self@.len() == 32,
            decreases 32 - i,
        {
            v.push(self.bytes[i]);
            i = i + 1;
            assert(v@ =~= self@.subrange(0, i as int));
        }
        assert(self@.subrange(0, 32) =~= self@);
        v
    }

    /// Byte-wise equality of two addresses.
    pub fn key_eq(&self, other: &Pubkey) -> (eq: bool)
        ensures
            eq == (self@ == other@),
    {
        let mut i: usize = 0;
        while i < 32
            invariant
                i <= 32,
                self@.len() == 32,
                other@.len() == 32,
                forall|j: int| 0 <= j < i ==> self@[j] == other@[j],
            decreases 32 - i,
        {
            if self.bytes[i] != other.bytes[i] {
                assert(self@[i as int] != other@[i as int]);
                return false;
            }
            i = i + 1;
        }
        assert(self@ =~= other@);
        true
    }
}

/// Program-wide settings, one account per admin.
#[derive(Clone, Copy, Debug, PartialEq, Eq)]
pub struct Config {
    /// The only key allowed to change the settings or open vaults.
    pub admin: Pubkey,
    /// Flash-loan fee in basis points (1 = 0.01%).
    pub fee_bps: u16,
    /// Optional whitelist root; set but not yet enforced on deposits.
    pub merkle_root: Option<[u8; 32]>,
    /// Canonical bump of the config address.
    pub bump: u8,
    /// While set, deposits and flash loans are refused.
    pub paused: bool,
}

impl Config {
    /// Serialized size of the fields: 32 + 2 + (1 + 32) + 1 + 1.
    pub const SIZE: usize = 32 + 2 + 33 + 1 + 1;
}

/// A lending vault for one token mint.
#[derive(Clone, Copy, Debug, PartialEq, Eq)]
pub struct VaultState {
    pub mint: Pubkey,
    /// The program-derived address that owns the vault's token account.
    pub authority: Pubkey,
    /// The config account the vault was opened under.
    pub config: Pubkey,
    /// Canonical bump of the vault-state address.
    pub bump: u8,
    /// Canonical bump of the vault authority.
    pub vault_bump: u8,
    /// Set while a flash loan from this vault is in progress.
    pub in_flash: bool,
}

impl VaultState {
    /// Serialized size of the fields: 32 * 3 + 1 + 1 + 1.
    pub const SIZE: usize = 32 + 32 + 32 + 1 + 1 + 1;
}

/// Whether an escrowed NFT is still held by the program.
#[derive(Clone, Copy, Debug, PartialEq, Eq, Structural)]
pub enum EscrowStatus {
    Deposited,
    Closed,
}

/// An NFT deposited by its owner.
#[derive(Clone, Copy, Debug, PartialEq, Eq)]
pub struct Escrow {
    pub owner: Pubkey,
    pub nft_mint: Pubkey,
    pub vault_state: Pubkey,
    /// Canonical bump of the escrow address.
    pub bump: u8,
    pub status: EscrowStatus,
}

impl Escrow {
    /// Serialized size of the fields: 32 * 3 + 1 + 1.
    pub const SIZE: usize = 32 + 32 + 32 + 1 + 1;
}

} // verus!
