//! Errors the program answers with.
use vstd::prelude::*;

verus! {

/// The program's own error codes.
#[derive(Clone, Copy, Debug, PartialEq, Eq, Structural)]
pub enum ErrorCode {
    Paused,
    NotWhitelisted,
    EscrowLocked,
    Reentrancy,
    WrongProgram,
    LoanNotRepaid,
    MathOverflow,
}

/// Offset of the program's own error numbers.
pub const ERROR_CODE_OFFSET: u32 = 6000;

impl ErrorCode {
    /// Position of the variant in its declaration.
    pub open spec fn index(self) -> u32 {
        match self {
            ErrorCode::Paused => 0,
            ErrorCode::NotWhitelisted => 1,
            ErrorCode::EscrowLocked => 2,
            ErrorCode::Reentrancy => 3,
            ErrorCode::WrongProgram => 4,
            ErrorCode::LoanNotRepaid => 5,
            ErrorCode::MathOverflow => 6,
        }
    }

    /// The error number reported for this code.
    pub fn code(&self) -> (n: u32)
        ensures
            n == ERROR_CODE_OFFSET + self.index(),
    {
        match self {
            ErrorCode::Paused => 6000,
            ErrorCode::NotWhitelisted => 6001,
            ErrorCode::EscrowLocked => 6002,
            ErrorCode::Reentrancy => 6003,
            ErrorCode::WrongProgram => 6004,
            ErrorCode::LoanNotRepaid => 6005,
            ErrorCode::MathOverflow => 6006,
        }
    }

    /// The human-readable message of this code.
    pub fn message(&self) -> (m: &'static str)
        ensures
            m@ == self.message_spec(),
    {
        match self {
            ErrorCode::Paused => "Program is paused",
            ErrorCode::NotWhitelisted => "NFT is not whitelisted",
            ErrorCode::EscrowLocked => "Escrow is locked",
            ErrorCode::Reentrancy => "Reentrancy detected",
            ErrorCode::WrongProgram => "Wrong program called",
            ErrorCode::LoanNotRepaid => "Loan not repaid",
            ErrorCode::MathOverflow => "Math overflow",
        }
    }

    pub open spec fn message_spec(self) -> Seq<char> {
        match self {
            ErrorCode::Paused => "Program is paused"@,
            ErrorCode::NotWhitelisted => "NFT is not whitelisted"@,
            ErrorCode::EscrowLocked => "Escrow is locked"@,
            ErrorCode::Reentrancy => "Reentrancy detected"@,
            ErrorCode::WrongProgram => "Wrong program called"@,
            ErrorCode::LoanNotRepaid => "Loan not repaid"@,
            ErrorCode::MathOverflow => "Math overflow"@,
        }
    }
}

/// Why an instruction was refused: one of the program's own codes, or an
/// account check that failed before the instruction body ran.
#[derive(Clone, Copy, Debug, PartialEq, Eq, Structural)]
pub enum ProgramError {
    /// The instruction body returned one of the program's codes.
    Custom(ErrorCode),
    /// An account that must sign the transaction did not.
    AccountNotSigner,
    /// A stored key does not match the account passed for it.
    ConstraintHasOne,
    /// An account is not the address derived from its seeds.
    ConstraintSeeds,
    /// An account to be created already holds data.
    AccountAlreadyInUse,
}

} // verus!
