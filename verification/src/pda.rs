//! Program-derived addresses: the seeds of each account the program owns,
//! and the search for their canonical bump.
use vstd::prelude::*;
use crate::state::Pubkey;

verus! {

/// Most seeds a derivation may take, the bump included.
pub const MAX_SEEDS: usize = 16;

/// Longest a single seed may be.
pub const MAX_SEED_LEN: usize = 32;

/// What `Pubkey::create_program_address` returns for `seeds` (the bump
/// already appended) and `program_id`, when the seeds are within the
/// limits: the derived address, or `None` when the hash of the seeds lies
/// on the ed25519 curve (`InvalidSeeds`).
pub uninterp spec fn program_address(seeds: Seq<Seq<u8>>, program_id: Seq<u8>) -> Option<Seq<u8>>;

/// There are fewer than `MAX_SEEDS` seeds (room is left for the bump) and
/// none is longer than `MAX_SEED_LEN`.
pub open spec fn seeds_within_limits(seeds: Seq<Seq<u8>>) -> bool {
    &&& seeds.len() < MAX_SEEDS
    &&& forall|i: int| 0 <= i < seeds.len() ==> #[trigger] seeds[i].len() <= MAX_SEED_LEN
}

/// The first bump, counting down from `bump` to 1, whose seeds derive an
/// address, together with that address.
pub open spec fn bump_search(seeds: Seq<Seq<u8>>, program_id: Seq<u8>, bump: nat) -> Option<(Seq<u8>, u8)>
    decreases bump,
{
    if bump == 0 {
        None
    } else {
        match program_address(seeds.push(seq![bump as u8]), program_id) {
            Some(address) => Some((address, bump as u8)),
            None => bump_search(seeds, program_id, (bump - 1) as nat),
        }
    }
}

/// The canonical address and bump of `seeds`: the highest bump from 255
/// down to 1 that derives an address; `None` if the seeds break the limits
/// or no bump works.
pub open spec fn find_program_address(seeds: Seq<Seq<u8>>, program_id: Seq<u8>) -> Option<(Seq<u8>, u8)> {
    if seeds_within_limits(seeds) {
        bump_search(seeds, program_id, 255)
    } else {
        None
    }
}

/// The view of an address-and-bump result.
pub open spec fn found_view(r: Option<(Pubkey, u8)>) -> Option<(Seq<u8>, u8)> {
    match r {
        Some((key, bump)) => Some((key@, bump)),
        None => None,
    }
}

/// Calls `Pubkey::try_find_program_address` of the Solana SDK. Its source
/// tries the bumps 255, 254, ..., 1 in turn, appending the bump to the
/// seeds and calling `create_program_address`, and returns the first
/// address found; it gives up with `None` at once when the seeds with the
/// bump exceed `MAX_SEEDS` seeds or a seed exceeds `MAX_SEED_LEN` bytes.
/// The contract says exactly that, over the name `program_address` for
/// what `create_program_address` derives.
#[verifier::external_body]
fn try_find_program_address(seeds: &Vec<Vec<u8>>, program_id: &Pubkey) -> (r: Option<(Pubkey, u8)>)
    ensures
        found_view(r) == find_program_address(seeds.deep_view(), program_id@),
        r matches Some((key, bump)) ==> program_address(
            seeds.deep_view().push(seq![bump]),
            program_id@,
        ) == Some(key@),
{
    let seed_refs: Vec<&[u8]> = seeds.iter().map(|s| s.as_slice()).collect();
    let program = anchor_lang::prelude::Pubkey::new_from_array(program_id.bytes);
    match anchor_lang::prelude::Pubkey::try_find_program_address(&seed_refs, &program) {
        Some((key, bump)) => Some((Pubkey { bytes: key.to_bytes() }, bump)),
        None => None,
    }
}

/// The program's own address.
pub open spec fn program_id_spec() -> Seq<u8> {
    seq![
        239u8, 50, 166, 187, 241, 103, 142, 229, 192, 62, 119, 79, 84, 142, 33, 183,
        187, 164, 16, 109, 212, 157, 114, 26, 208, 11, 37, 235, 133, 172, 75, 243,
    ]
}

/// The program's own address, `H6jEh2UbEn4y4LzjYi8ZB4WP7nPUMFVmcpZJ8rbwQepa`.
pub fn id() -> (key: Pubkey)
    ensures
        key@ == program_id_spec(),
{
    let key = Pubkey {
        bytes: [
            239u8, 50, 166, 187, 241, 103, 142, 229, 192, 62, 119, 79, 84, 142, 33, 183,
            187, 164, 16, 109, 212, 157, 114, 26, 208, 11, 37, 235, 133, 172, 75, 243,
        ],
    };
    assert(key@ =~= program_id_spec());
    key
}

/// The seed `b"config"`.
pub open spec fn config_seed() -> Seq<u8> {
    seq![99u8, 111, 110, 102, 105, 103]
}

/// The seed `b"vault_state"`.
pub open spec fn vault_state_seed() -> Seq<u8> {
    seq![118u8, 97, 117, 108, 116, 95, 115, 116, 97, 116, 101]
}

/// The seed `b"vault_authority"`.
pub open spec fn vault_authority_seed() -> Seq<u8> {
    seq![118u8, 97, 117, 108, 116, 95, 97, 117, 116, 104, 111, 114, 105, 116, 121]
}

/// The seed `b"escrow"`.
pub open spec fn escrow_seed() -> Seq<u8> {
    seq![101u8, 115, 99, 114, 111, 119]
}

/// Seeds of the config account of `admin`.
pub open spec fn config_seeds(admin: Seq<u8>) -> Seq<Seq<u8>> {
    seq![config_seed(), admin]
}

/// Seeds of the vault-state account of `mint`.
pub open spec fn vault_state_seeds(mint: Seq<u8>) -> Seq<Seq<u8>> {
    seq![vault_state_seed(), mint]
}

/// Seeds of the authority that owns the tokens of the vault `vault_state`.
pub open spec fn vault_authority_seeds(vault_state: Seq<u8>) -> Seq<Seq<u8>> {
    seq![vault_authority_seed(), vault_state]
}

/// Seeds of the escrow account of `user` for `nft_mint`.
pub open spec fn escrow_seeds(user: Seq<u8>, nft_mint: Seq<u8>) -> Seq<Seq<u8>> {
    seq![escrow_seed(), user, nft_mint]
}

/// Seeds of the authority that holds the NFT of the escrow `escrow`.
pub open spec fn escrow_authority_seeds(escrow: Seq<u8>) -> Seq<Seq<u8>> {
    seq![escrow_seed(), escrow]
}

/// A byte vector's deep view is its view.
proof fn lemma_bytes_deep_view(v: Vec<u8>)
    ensures
        v.deep_view() == v@,
{
    assert(v.deep_view() =~= v@);
}

fn config_seed_bytes() -> (v: Vec<u8>)
    ensures
        v@ == config_seed(),
{
    let v: Vec<u8> = vec![99u8, 111, 110, 102, 105, 103];
    assert(v@ =~= config_seed());
    v
}

fn vault_state_seed_bytes() -> (v: Vec<u8>)
    ensures
        v@ == vault_state_seed(),
{
    let v: Vec<u8> = vec![118u8, 97, 117, 108, 116, 95, 115, 116, 97, 116, 101];
    assert(v@ =~= vault_state_seed());
    v
}

fn vault_authority_seed_bytes() -> (v: Vec<u8>)
    ensures
        v@ == vault_authority_seed(),
{
    let v: Vec<u8> = vec![118u8, 97, 117, 108, 116, 95, 97, 117, 116, 104, 111, 114, 105, 116, 121];
    assert(v@ =~= vault_authority_seed());
    v
}

fn escrow_seed_bytes() -> (v: Vec<u8>)
    ensures
        v@ == escrow_seed(),
{
    let v: Vec<u8> = vec![101u8, 115, 99, 114, 111, 119];
    assert(v@ =~= escrow_seed());
    v
}

/// Appends one seed, keeping the deep view in step.
fn push_seed(seeds: &mut Vec<Vec<u8>>, seed: Vec<u8>)
    ensures
        final(seeds).deep_view() == old(seeds).deep_view().push(seed@),
{
    let ghost before = seeds.deep_view();
    proof {
        lemma_bytes_deep_view(seed);
    }
    seeds.push(seed);
    assert(seeds.deep_view() =~= before.push(seed@));
}

/// The seeds `[label, key]`.
fn labelled_seeds(label: Vec<u8>, key: &Pubkey) -> (seeds: Vec<Vec<u8>>)
    ensures
        seeds.deep_view() == seq![label@, key@],
{
    let mut seeds: Vec<Vec<u8>> = Vec::new();
    assert(seeds.deep_view() =~= Seq::<Seq<u8>>::empty());
    push_seed(&mut seeds, label);
    push_seed(&mut seeds, key.to_vec());
    assert(seeds.deep_view() =~= seq![label@, key@]);
    seeds
}

/// The canonical config address of `admin` and its bump.
pub fn find_config_address(admin: &Pubkey) -> (r: Option<(Pubkey, u8)>)
    ensures
        found_view(r) == find_program_address(config_seeds(admin@), program_id_spec()),
{
    let seeds = labelled_seeds(config_seed_bytes(), admin);
    try_find_program_address(&seeds, &id())
}

/// The canonical vault-state address of `mint` and its bump.
pub fn find_vault_state_address(mint: &Pubkey) -> (r: Option<(Pubkey, u8)>)
    ensures
        found_view(r) == find_program_address(vault_state_seeds(mint@), program_id_spec()),
{
    let seeds = labelled_seeds(vault_state_seed_bytes(), mint);
    try_find_program_address(&seeds, &id())
}

/// The canonical vault authority of the vault `vault_state` and its bump.
pub fn find_vault_authority_address(vault_state: &Pubkey) -> (r: Option<(Pubkey, u8)>)
    ensures
        found_view(r) == find_program_address(vault_authority_seeds(vault_state@), program_id_spec()),
{
    let seeds = labelled_seeds(vault_authority_seed_bytes(), vault_state);
    try_find_program_address(&seeds, &id())
}

/// The canonical escrow address of `user` for `nft_mint` and its bump.
pub fn find_escrow_address(user: &Pubkey, nft_mint: &Pubkey) -> (r: Option<(Pubkey, u8)>)
    ensures
        found_view(r) == find_program_address(escrow_seeds(user@, nft_mint@), program_id_spec()),
{
    let mut seeds = labelled_seeds(escrow_seed_bytes(), user);
    push_seed(&mut seeds, nft_mint.to_vec());
    assert(seeds.deep_view() =~= escrow_seeds(user@, nft_mint@));
    try_find_program_address(&seeds, &id())
}

/// The canonical authority of the escrow `escrow` and its bump.
pub fn find_escrow_authority_address(escrow: &Pubkey) -> (r: Option<(Pubkey, u8)>)
    ensures
        found_view(r) == find_program_address(escrow_authority_seeds(escrow@), program_id_spec()),
{
    let seeds = labelled_seeds(escrow_seed_bytes(), escrow);
    try_find_program_address(&seeds, &id())
}

/// The seeds the vault authority signs with: its seeds and `bump`.
pub fn vault_authority_signer_seeds(vault_state: &Pubkey, bump: u8) -> (seeds: Vec<Vec<u8>>)
    ensures
        seeds.deep_view() == vault_authority_seeds(vault_state@).push(seq![bump]),
{
    let mut seeds = labelled_seeds(vault_authority_seed_bytes(), vault_state);
    let bump_seed: Vec<u8> = vec![bump];
    assert(bump_seed@ =~= seq![bump]);
    push_seed(&mut seeds, bump_seed);
    seeds
}

/// The seeds the escrow authority signs with: its seeds and `bump`.
pub fn escrow_authority_signer_seeds(escrow: &Pubkey, bump: u8) -> (seeds: Vec<Vec<u8>>)
    ensures
        seeds.deep_view() == escrow_authority_seeds(escrow@).push(seq![bump]),
{
    let mut seeds = labelled_seeds(escrow_seed_bytes(), escrow);
    let bump_seed: Vec<u8> = vec![bump];
    assert(bump_seed@ =~= seq![bump]);
    push_seed(&mut seeds, bump_seed);
    seeds
}

} // verus!
