//! The events a flash loan emits, for indexers.
use vstd::prelude::*;
use crate::accounts::FlashLoan;
use crate::instructions::LoanInFlight;
use crate::state::Pubkey;

verus! {

/// A flash loan started.
#[derive(Clone, Copy, Debug, PartialEq, Eq)]
pub struct BorrowEvent {
    /// The borrower's token account the loan was paid to.
    pub borrower: Pubkey,
    pub mint: Pubkey,
    pub amount: u64,
    /// Unix time of the loan.
    pub timestamp: i64,
}

/// A flash loan was repaid.
#[derive(Clone, Copy, Debug, PartialEq, Eq)]
pub struct RepayEvent {
    pub borrower: Pubkey,
    pub mint: Pubkey,
    pub amount: u64,
    pub timestamp: i64,
}

/// The fee of a flash loan was collected.
#[derive(Clone, Copy, Debug, PartialEq, Eq)]
pub struct FeeCollectedEvent {
    pub amount: u64,
    /// The vault's token account, which keeps the fee.
    pub recipient: Pubkey,
}

/// The event of a flash loan that started at `timestamp`.
pub fn borrow_event(ctx: &FlashLoan, loan: &LoanInFlight, timestamp: i64) -> (event: BorrowEvent)
    ensures
        event == (BorrowEvent {
            borrower: ctx.borrower_ata,
            mint: ctx.vault_state.mint,
            amount: loan.amount,
            timestamp,
        }),
{
    BorrowEvent { borrower: ctx.borrower_ata, mint: ctx.vault_state.mint, amount: loan.amount, timestamp }
}

/// The events of a flash loan repaid at `timestamp` with `fee`.
pub fn repay_events(ctx: &FlashLoan, loan: &LoanInFlight, fee: u64, timestamp: i64) -> (events: (
    RepayEvent,
    FeeCollectedEvent,
))
    ensures
        events.0 == (RepayEvent {
            borrower: ctx.borrower_ata,
            mint: ctx.vault_state.mint,
            amount: loan.amount,
            timestamp,
        }),
        events.1 == (FeeCollectedEvent { amount: fee, recipient: ctx.vault_ata }),
{
    (
        RepayEvent { borrower: ctx.borrower_ata, mint: ctx.vault_state.mint, amount: loan.amount, timestamp },
        FeeCollectedEvent { amount: fee, recipient: ctx.vault_ata },
    )
}

} // verus!
