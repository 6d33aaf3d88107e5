use anchor_lang::solana_program::hash::hash;
use anchor_nftflashloan::layout::AccountDataError;
use anchor_nftflashloan::state::{Config, Escrow, EscrowStatus, Pubkey, VaultState};

fn key(n: u8) -> Pubkey {
    Pubkey::new_from_array([n; 32])
}

fn discriminator(name: &str) -> Vec<u8> {
    hash(format!("account:{}", name).as_bytes()).to_bytes()[..8].to_vec()
}

#[test]
fn discriminators_are_the_namespaced_hashes() {
    assert_eq!(Config::discriminator(), discriminator("Config"));
    assert_eq!(VaultState::discriminator(), discriminator("VaultState"));
    assert_eq!(Escrow::discriminator(), discriminator("Escrow"));
    assert_ne!(Config::discriminator(), Escrow::discriminator());
}

#[test]
fn config_layout() {
    let c = Config { admin: key(1), fee_bps: 0x1234, merkle_root: None, bump: 254, paused: true };
    let data = c.try_serialize();
    let mut expected = discriminator("Config");
    expected.extend_from_slice(&[1; 32]);
    expected.extend_from_slice(&[0x34, 0x12, 0, 254, 1]);
    assert_eq!(data, expected);
    assert_eq!(Config::try_deserialize(&data), Ok(c));

    let c = Config { admin: key(1), fee_bps: 7, merkle_root: Some([5; 32]), bump: 3, paused: false };
    let mut data = c.try_serialize();
    assert_eq!(data.len(), 8 + Config::SIZE);
    assert_eq!(data[42], 1);
    data.extend_from_slice(&[9; 10]);
    assert_eq!(Config::try_deserialize(&data), Ok(c));
}

#[test]
fn vault_and_escrow_layouts() {
    let v = VaultState { mint: key(1), authority: key(2), config: key(3), bump: 4, vault_bump: 5, in_flash: true };
    let data = v.try_serialize();
    assert_eq!(data.len(), 8 + VaultState::SIZE);
    assert_eq!(&data[8..40], &[1; 32]);
    assert_eq!(&data[104..], &[4, 5, 1]);
    assert_eq!(VaultState::try_deserialize(&data), Ok(v));

    let e = Escrow { owner: key(1), nft_mint: key(2), vault_state: key(3), bump: 6, status: EscrowStatus::Closed };
    let data = e.try_serialize();
    assert_eq!(data.len(), 8 + Escrow::SIZE);
    assert_eq!(&data[104..], &[6, 1]);
    assert_eq!(Escrow::try_deserialize(&data), Ok(e));
}

#[test]
fn bad_account_data_is_refused() {
    assert_eq!(Config::try_deserialize(&[1, 2, 3]), Err(AccountDataError::DiscriminatorNotFound));

    let escrow = Escrow { owner: key(1), nft_mint: key(2), vault_state: key(3), bump: 6, status: EscrowStatus::Deposited };
    let data = escrow.try_serialize();
    assert_eq!(Config::try_deserialize(&data), Err(AccountDataError::DiscriminatorMismatch));
    assert_eq!(VaultState::try_deserialize(&data), Err(AccountDataError::DiscriminatorMismatch));

    let mut bad_status = data.clone();
    bad_status[105] = 2;
    assert_eq!(Escrow::try_deserialize(&bad_status), Err(AccountDataError::DidNotDeserialize));
    assert_eq!(Escrow::try_deserialize(&data[..105]), Err(AccountDataError::DidNotDeserialize));

    let c = Config { admin: key(1), fee_bps: 7, merkle_root: None, bump: 3, paused: false };
    let mut data = c.try_serialize();
    data[42] = 2;
    assert_eq!(Config::try_deserialize(&data), Err(AccountDataError::DidNotDeserialize));
    data[42] = 1;
    assert_eq!(Config::try_deserialize(&data), Err(AccountDataError::DidNotDeserialize));
    let mut data = c.try_serialize();
    data[44] = 7;
    assert_eq!(Config::try_deserialize(&data), Err(AccountDataError::DidNotDeserialize));

    let v = VaultState { mint: key(1), authority: key(2), config: key(3), bump: 4, vault_bump: 5, in_flash: false };
    let mut data = v.try_serialize();
    data[106] = 3;
    assert_eq!(VaultState::try_deserialize(&data), Err(AccountDataError::DidNotDeserialize));
}
