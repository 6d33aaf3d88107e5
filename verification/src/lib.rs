//! Verified core of an NFT flash-loan and escrow program.
//!
//! The accounts the program owns are modelled as plain values, and each
//! instruction is a function from the accounts it reads to the accounts it
//! writes and the cross-program calls it asks for.
pub mod accounts;
pub mod cpi;
pub mod error;
pub mod events;
pub mod fee;
pub mod instructions;
pub mod laws;
pub mod layout;
pub mod pda;
pub mod state;
