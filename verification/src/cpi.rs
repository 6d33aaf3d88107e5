//! The cross-program calls an instruction asks for.
use vstd::prelude::*;
use crate::state::Pubkey;

verus! {

/// An SPL token transfer the program asks the token program to perform.
#[derive(Debug, PartialEq, Eq)]
pub struct TokenTransfer {
    pub from: Pubkey,
    pub to: Pubkey,
    /// The owner of `from` that authorizes the transfer.
    pub authority: Pubkey,
    pub amount: u64,
    /// Seeds the program signs with for a program-derived `authority`;
    /// empty when `authority` signs the transaction itself.
    pub signer_seeds: Vec<Vec<u8>>,
}

/// The view of a `TokenTransfer`.
pub struct TokenTransferView {
    pub from: Seq<u8>,
    pub to: Seq<u8>,
    pub authority: Seq<u8>,
    pub amount: u64,
    pub signer_seeds: Seq<Seq<u8>>,
}

impl View for TokenTransfer {
    type V = TokenTransferView;

    open spec fn view(&self) -> TokenTransferView {
        TokenTransferView {
            from: self.from@,
            to: self.to@,
            authority: self.authority@,
            amount: self.amount,
            signer_seeds: self.signer_seeds.deep_view(),
        }
    }
}

/// An account passed along to the borrower's program.
#[derive(Clone, Copy, Debug, PartialEq, Eq)]
pub struct AccountRef {
    pub key: Pubkey,
    pub is_signer: bool,
    pub is_writable: bool,
}

/// An account of an instruction, with how the instruction may use it.
#[derive(Clone, Copy, Debug, PartialEq, Eq)]
pub struct AccountMeta {
    pub pubkey: Pubkey,
    pub is_signer: bool,
    pub is_writable: bool,
}

impl AccountMeta {
    /// A writable account.
    pub fn new(pubkey: Pubkey, is_signer: bool) -> (meta: AccountMeta)
        ensures
            meta == (AccountMeta { pubkey, is_signer, is_writable: true }),
    {
        AccountMeta { pubkey, is_signer, is_writable: true }
    }

    /// A read-only account.
    pub fn new_readonly(pubkey: Pubkey, is_signer: bool) -> (meta: AccountMeta)
        ensures
            meta == (AccountMeta { pubkey, is_signer, is_writable: false }),
    {
        AccountMeta { pubkey, is_signer, is_writable: false }
    }
}

/// An instruction of another program that the program invokes.
#[derive(Debug, PartialEq, Eq)]
pub struct Instruction {
    pub program_id: Pubkey,
    pub accounts: Vec<AccountMeta>,
    pub data: Vec<u8>,
}

} // verus!
