# anchor-nftflashloan

Verified logic of an NFT escrow and flash-loan program for Solana.

- `src/` is the library, verified with Verus:
  - `state.rs`: the account data (`Config`, `VaultState`, `Escrow`);
  - `layout.rs`: the byte layout of those accounts (discriminator and fields) with
    read/write functions and round-trip proofs;
  - `pda.rs`: the seeds of each program-derived address and the canonical bump search;
  - `accounts.rs`: the accounts each instruction is given, as plain values;
  - `instructions.rs`: the instructions, each with an exact contract, and the token
    transfers and calls they ask for;
  - `fee.rs`: the flash-loan fee;
  - `events.rs`: the events a flash loan emits;
  - `laws.rs`: properties spanning instructions (admin-only settings, accounts created
    once, pause, deposit and withdrawal signed for the escrow authority, no nested loans, repayment).
- `tests/` runs the library on concrete accounts.
- `app/` is the Anchor program: it validates and loads the accounts, calls the
  library, performs the token transfers and the borrower's call, and stores the result.
