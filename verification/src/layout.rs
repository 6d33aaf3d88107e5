//! The byte layout of the program's accounts: an 8-byte discriminator
//! naming the account type, then the fields in declaration order (32-byte
//! keys, little-endian integers, one byte for a `bool` or an enum variant,
//! and a 0/1 tag before the value of an `Option`).
use vstd::prelude::*;
use crate::state::{Config, Escrow, EscrowStatus, Pubkey, VaultState};

verus! {

/// Why account data could not be read.
#[derive(Clone, Copy, Debug, PartialEq, Eq, Structural)]
pub enum AccountDataError {
    /// The data is shorter than a discriminator.
    DiscriminatorNotFound,
    /// The data starts with the discriminator of another account type.
    DiscriminatorMismatch,
    /// The fields after the discriminator are not a valid encoding.
    DidNotDeserialize,
}

/// The SHA-256 digest of `data`, as `solana_program::hash::hash` computes it.
pub uninterp spec fn sha256(data: Seq<u8>) -> Seq<u8>;

/// Calls `solana_program::hash::hash` of the Solana SDK, the SHA-256 digest
/// of `data`; the contract names the digest.
#[verifier::external_body]
fn sha256_digest(data: &[u8]) -> (digest: [u8; 32])
    ensures
        digest@ == sha256(data@),
{
    anchor_lang::solana_program::hash::hash(data).to_bytes()
}

/// The bytes `account:` that prefix an account type's name.
pub open spec fn account_namespace() -> Seq<u8> {
    seq![97u8, 99, 99, 111, 117, 110, 116, 58]
}

/// The first 8 bytes of the digest of `account:<name>`.
pub open spec fn account_discriminator(name: Seq<u8>) -> Seq<u8> {
    Seq::new(8, |i: int| sha256(account_namespace() + name)[i])
}

/// The name `Config`.
pub open spec fn config_name() -> Seq<u8> {
    seq![67u8, 111, 110, 102, 105, 103]
}

/// The name `VaultState`.
pub open spec fn vault_state_name() -> Seq<u8> {
    seq![86u8, 97, 117, 108, 116, 83, 116, 97, 116, 101]
}

/// The name `Escrow`.
pub open spec fn escrow_name() -> Seq<u8> {
    seq![69u8, 115, 99, 114, 111, 119]
}

fn discriminator_of(name: Vec<u8>) -> (d: Vec<u8>)
    ensures
        d@ == account_discriminator(name@),
{
    let mut preimage: Vec<u8> = vec![97u8, 99, 99, 111, 117, 110, 116, 58];
    assert(preimage@ =~= account_namespace());
    let mut i: usize = 0;
    while i < name.len()
        invariant
            i <= name@.len(),
            preimage@ == account_namespace() + name@.subrange(0, i as int),
        decreases name@.len() - i,
    {
        preimage.push(name[i]);
        i = i + 1;
        assert(preimage@ =~= account_namespace() + name@.subrange(0, i as int));
    }
    assert(name@.subrange(0, name@.len() as int) =~= name@);
    let digest = sha256_digest(preimage.as_slice());
    let mut d: Vec<u8> = Vec::new();
    let mut j: usize = 0;
    while j < 8
        invariant
            j <= 8,
            digest@ == sha256(account_namespace() + name@),
            d@ == account_discriminator(name@).subrange(0, j as int),
        decreases 8 - j,
    {
        d.push(digest[j]);
        j = j + 1;
        assert(d@ =~= account_discriminator(name@).subrange(0, j as int));
    }
    assert(account_discriminator(name@).subrange(0, 8) =~= account_discriminator(name@));
    d
}

/// One byte for a `bool`.
pub open spec fn bool_byte(b: bool) -> u8 {
    if b {
        1
    } else {
        0
    }
}

/// A `u16`, little-endian.
pub open spec fn u16_le(x: u16) -> Seq<u8> {
    seq![(x % 256) as u8, (x / 256) as u8]
}

/// An optional 32-byte root: a 0 tag, or a 1 tag and the bytes.
pub open spec fn root_bytes(root: Option<[u8; 32]>) -> Seq<u8> {
    match root {
        None => seq![0u8],
        Some(bytes) => seq![1u8] + bytes@,
    }
}

/// One byte for an escrow status: its variant index.
pub open spec fn status_byte(status: EscrowStatus) -> u8 {
    match status {
        EscrowStatus::Deposited => 0,
        EscrowStatus::Closed => 1,
    }
}

/// The fields of a config.
pub open spec fn config_fields(c: Config) -> Seq<u8> {
    c.admin@ + u16_le(c.fee_bps) + root_bytes(c.merkle_root) + seq![c.bump, bool_byte(c.paused)]
}

/// The fields of a vault.
pub open spec fn vault_state_fields(v: VaultState) -> Seq<u8> {
    v.mint@ + v.authority@ + v.config@ + seq![v.bump, v.vault_bump, bool_byte(v.in_flash)]
}

/// The fields of an escrow.
pub open spec fn escrow_fields(e: Escrow) -> Seq<u8> {
    e.owner@ + e.nft_mint@ + e.vault_state@ + seq![e.bump, status_byte(e.status)]
}

/// `d` starts with the fields of some config: the root tag is 0 or 1, and
/// the paused byte after it is 0 or 1.
pub open spec fn config_fields_valid(d: Seq<u8>) -> bool {
    ||| (d.len() >= 37 && d[34] == 0 && d[36] <= 1)
    ||| (d.len() >= 69 && d[34] == 1 && d[68] <= 1)
}

/// `d` starts with the fields of some vault: the lending byte is 0 or 1.
pub open spec fn vault_state_fields_valid(d: Seq<u8>) -> bool {
    d.len() >= 99 && d[98] <= 1
}

/// `d` starts with the fields of some escrow: the status byte is 0 or 1.
pub open spec fn escrow_fields_valid(d: Seq<u8>) -> bool {
    d.len() >= 98 && d[97] <= 1
}

/// What reading account data gives: the discriminator must be there and
/// be `disc`; then the fields must be valid, and the value read is one
/// whose fields the data starts with.
pub open spec fn account_read<T>(
    r: Result<T, AccountDataError>,
    data: Seq<u8>,
    disc: Seq<u8>,
    fields: spec_fn(T) -> Seq<u8>,
    valid: bool,
) -> bool {
    if data.len() < 8 {
        r == Err::<T, AccountDataError>(AccountDataError::DiscriminatorNotFound)
    } else if data.subrange(0, 8) != disc {
        r == Err::<T, AccountDataError>(AccountDataError::DiscriminatorMismatch)
    } else if !valid {
        r == Err::<T, AccountDataError>(AccountDataError::DidNotDeserialize)
    } else {
        r matches Ok(v) && fields(v).is_prefix_of(data.subrange(8, data.len() as int))
    }
}

// ----- reading and writing bytes -----

fn push_key(out: &mut Vec<u8>, key: &Pubkey)
    ensures
        final(out)@ == old(out)@ + key@,
{
    let ghost start = out@;
    let mut i: usize = 0;
    while i < 32
        invariant
            i <= 32,
            key@.len() == 32,
            out@ == start + key@.subrange(0, i as int),
        decreases 32 - i,
    {
        out.push(key.bytes[i]);
        i = i + 1;
        assert(out@ =~= start + key@.subrange(0, i as int));
    }
    assert(key@.subrange(0, 32) =~= key@);
}

fn read_key(d: &[u8], off: usize) -> (key: Pubkey)
    requires
        off + 32 <= d@.len(),
    ensures
        key@ == d@.subrange(off as int, off + 32),
{
    let mut bytes = [0u8; 32];
    let mut i: usize = 0;
    while i < 32
        invariant
            i <= 32,
            off + 32 <= d@.len(),
            d@.len() == d.len(),
            bytes@.len() == 32,
            forall|j: int| 0 <= j < i ==> bytes@[j] == d@[off + j],
        decreases 32 - i,
    {
        bytes[i] = d[off + i];
        i = i + 1;
    }
    let key = Pubkey { bytes };
    assert(key@ =~= d@.subrange(off as int, off + 32));
    key
}

/// `data` starts with `disc`, or why not.
fn check_discriminator(data: &[u8], disc: &Vec<u8>) -> (r: Result<(), AccountDataError>)
    requires
        disc@.len() == 8,
    ensures
        data@.len() < 8 ==> r == Err::<(), AccountDataError>(AccountDataError::DiscriminatorNotFound),
        data@.len() >= 8 && data@.subrange(0, 8) != disc@ ==> r == Err::<(), AccountDataError>(
            AccountDataError::DiscriminatorMismatch,
        ),
        data@.len() >= 8 && data@.subrange(0, 8) == disc@ ==> r is Ok,
{
    if data.len() < 8 {
        return Err(AccountDataError::DiscriminatorNotFound);
    }
    let mut i: usize = 0;
    while i < 8
        invariant
            i <= 8,
            data@.len() >= 8,
            disc@.len() == 8,
            forall|j: int| 0 <= j < i ==> data@[j] == disc@[j],
        decreases 8 - i,
    {
        if data[i] != disc[i] {
            assert(data@.subrange(0, 8)[i as int] != disc@[i as int]);
            return Err(AccountDataError::DiscriminatorMismatch);
        }
        i = i + 1;
    }
    assert(data@.subrange(0, 8) =~= disc@);
    Ok(())
}

/// A `u16` read back from its little-endian bytes.
proof fn lemma_u16_le(lo: u8, hi: u8)
    ensures
        u16_le((lo + hi * 256) as u16) == seq![lo, hi],
        lo + hi * 256 <= u16::MAX,
{
    let x = (lo + hi * 256) as u16;
    assert(x % 256 == lo && x / 256 == hi) by (nonlinear_arith)
        requires
            x == lo + hi * 256,
            lo < 256,
            hi < 256,
    ;
    assert(u16_le(x) =~= seq![lo, hi]);
}

/// Equal little-endian bytes come from equal `u16`s.
proof fn lemma_u16_le_injective(x: u16, y: u16)
    requires
        u16_le(x) == u16_le(y),
    ensures
        x == y,
{
    assert(u16_le(x)[0] == u16_le(y)[0] && u16_le(x)[1] == u16_le(y)[1]);
}

/// Equal views come from equal keys.
proof fn lemma_key_view_injective(a: Pubkey, b: Pubkey)
    requires
        a@ == b@,
    ensures
        a == b,
{
    assert forall|i: int| 0 <= i < 32 implies a.bytes[i] == b.bytes[i] by {
        assert(a@[i] == b@[i]);
    }
    assert(a.bytes =~= b.bytes);
}

/// Equal views come from equal byte arrays.
proof fn lemma_array_view_injective(a: [u8; 32], b: [u8; 32])
    requires
        a@ == b@,
    ensures
        a == b,
{
    assert forall|i: int| 0 <= i < 32 implies a[i] == b[i] by {
        assert(a@[i] == b@[i]);
    }
    assert(a =~= b);
}

fn push_array(out: &mut Vec<u8>, bytes: &[u8; 32])
    ensures
        final(out)@ == old(out)@ + bytes@,
{
    push_key(out, &Pubkey { bytes: *bytes });
}

impl Config {
    /// The discriminator of config accounts.
    pub fn discriminator() -> (d: Vec<u8>)
        ensures
            d@ == account_discriminator(config_name()),
            d@.len() == 8,
    {
        let name: Vec<u8> = vec![67u8, 111, 110, 102, 105, 103];
        assert(name@ =~= config_name());
        discriminator_of(name)
    }

    /// The account data of this config.
    pub fn try_serialize(&self) -> (data: Vec<u8>)
        ensures
            data@ == account_discriminator(config_name()) + config_fields(*self),
    {
        let mut data = Config::discriminator();
        let ghost disc = data@;
        push_key(&mut data, &self.admin);
        data.push((self.fee_bps % 256) as u8);
        data.push((self.fee_bps / 256) as u8);
        assert(data@ =~= disc + self.admin@ + u16_le(self.fee_bps));
        match self.merkle_root {
            None => data.push(0u8),
            Some(root) => {
                data.push(1u8);
                push_array(&mut data, &root);
            },
        }
        assert(data@ =~= disc + self.admin@ + u16_le(self.fee_bps) + root_bytes(self.merkle_root));
        data.push(self.bump);
        data.push(if self.paused { 1u8 } else { 0u8 });
        assert(data@ =~= disc + config_fields(*self));
        data
    }

    /// Reads a config from account data.
    pub fn try_deserialize(data: &[u8]) -> (r: Result<Config, AccountDataError>)
        ensures
            account_read(
                r,
                data@,
                account_discriminator(config_name()),
                |c: Config| config_fields(c),
                config_fields_valid(data@.subrange(8, data@.len() as int)),
            ),
    {
        let disc = Config::discriminator();
        match check_discriminator(data, &disc) {
            Ok(_) => {},
            Err(e) => return Err(e),
        }
        let ghost d = data@.subrange(8, data@.len() as int);
        let n = data.len();
        if n < 8 + 37 {
            return Err(AccountDataError::DidNotDeserialize);
        }
        let admin = read_key(data, 8);
        let lo = data[40];
        let hi = data[41];
        proof {
            lemma_u16_le(lo, hi);
        }
        let fee_bps: u16 = lo as u16 + (hi as u16) * 256;
        let tag = data[42];
        if tag == 0 {
            let bump = data[43];
            let paused_byte = data[44];
            if paused_byte > 1 {
                return Err(AccountDataError::DidNotDeserialize);
            }
            let c = Config { admin, fee_bps, merkle_root: None, bump, paused: paused_byte == 1 };
            assert(config_fields(c) =~= d.subrange(0, 37));
            Ok(c)
        } else if tag == 1 {
            if n < 8 + 69 {
                return Err(AccountDataError::DidNotDeserialize);
            }
            let root = read_key(data, 43).bytes;
            let bump = data[75];
            let paused_byte = data[76];
            if paused_byte > 1 {
                return Err(AccountDataError::DidNotDeserialize);
            }
            let c = Config { admin, fee_bps, merkle_root: Some(root), bump, paused: paused_byte == 1 };
            assert(config_fields(c) =~= d.subrange(0, 69));
            Ok(c)
        } else {
            Err(AccountDataError::DidNotDeserialize)
        }
    }
}

/// Reading back the data written for a config gives the same config; the
/// data fits in the account's space of `8 + Config::SIZE` bytes.
pub proof fn lemma_config_roundtrip(c: Config, rest: Seq<u8>, r: Result<Config, AccountDataError>)
    requires
        account_read(
            r,
            account_discriminator(config_name()) + config_fields(c) + rest,
            account_discriminator(config_name()),
            |c: Config| config_fields(c),
            config_fields_valid((account_discriminator(config_name()) + config_fields(c) + rest).subrange(
                8,
                (account_discriminator(config_name()) + config_fields(c) + rest).len() as int,
            )),
        ),
    ensures
        r == Ok::<Config, AccountDataError>(c),
        8 + config_fields(c).len() <= 8 + Config::SIZE,
{
    let disc = account_discriminator(config_name());
    let data = disc + config_fields(c) + rest;
    let d = data.subrange(8, data.len() as int);
    assert(data.subrange(0, 8) =~= disc);
    assert(d =~= config_fields(c) + rest);
    let f = config_fields(c);
    assert(f[34] == root_bytes(c.merkle_root)[0]);
    if c.merkle_root is None {
        assert(f.len() == 37);
        assert(f[36] == bool_byte(c.paused));
    } else {
        assert(f.len() == 69);
        assert(f[68] == bool_byte(c.paused));
    }
    assert(config_fields_valid(d));
    let c2 = r->Ok_0;
    let f2 = config_fields(c2);
    assert(f2.is_prefix_of(d));
    assert(d.subrange(0, f2.len() as int) == f2);
    assert(f2.len() >= 37);
    assert forall|i: int| 0 <= i < f2.len() implies f2[i] == d[i] by {
        assert(d.subrange(0, f2.len() as int)[i] == d[i]);
    }
    assert(c2.admin@ =~= d.subrange(0, 32));
    assert(c.admin@ =~= d.subrange(0, 32));
    lemma_key_view_injective(c2.admin, c.admin);
    assert(f2[32] == u16_le(c2.fee_bps)[0] && f2[33] == u16_le(c2.fee_bps)[1]);
    assert(u16_le(c2.fee_bps) =~= d.subrange(32, 34));
    assert(u16_le(c.fee_bps) =~= d.subrange(32, 34));
    lemma_u16_le_injective(c2.fee_bps, c.fee_bps);
    assert(f2[34] == root_bytes(c2.merkle_root)[0]);
    match (c.merkle_root, c2.merkle_root) {
        (Some(a), Some(b)) => {
            assert(a@ =~= d.subrange(35, 67));
            assert(f2.len() == 69);
            assert forall|i: int| 0 <= i < 32 implies b@[i] == d[35 + i] by {
                assert(f2[35 + i] == b@[i]);
            }
            assert(b@ =~= d.subrange(35, 67));
            lemma_array_view_injective(a, b);
            assert(f2[67] == c2.bump && f[67] == c.bump);
            assert(f2[68] == bool_byte(c2.paused) && f[68] == bool_byte(c.paused));
        },
        (None, None) => {
            assert(f2[35] == c2.bump && f[35] == c.bump);
            assert(f2[36] == bool_byte(c2.paused) && f[36] == bool_byte(c.paused));
        },
        _ => {},
    }
}

impl VaultState {
    /// The discriminator of vault accounts.
    pub fn discriminator() -> (d: Vec<u8>)
        ensures
            d@ == account_discriminator(vault_state_name()),
            d@.len() == 8,
    {
        let name: Vec<u8> = vec![86u8, 97, 117, 108, 116, 83, 116, 97, 116, 101];
        assert(name@ =~= vault_state_name());
        discriminator_of(name)
    }

    /// The account data of this vault.
    pub fn try_serialize(&self) -> (data: Vec<u8>)
        ensures
            data@ == account_discriminator(vault_state_name()) + vault_state_fields(*self),
    {
        let mut data = VaultState::discriminator();
        let ghost disc = data@;
        push_key(&mut data, &self.mint);
        push_key(&mut data, &self.authority);
        push_key(&mut data, &self.config);
        data.push(self.bump);
        data.push(self.vault_bump);
        data.push(if self.in_flash { 1u8 } else { 0u8 });
        assert(data@ =~= disc + vault_state_fields(*self));
        data
    }

    /// Reads a vault from account data.
    pub fn try_deserialize(data: &[u8]) -> (r: Result<VaultState, AccountDataError>)
        ensures
            account_read(
                r,
                data@,
                account_discriminator(vault_state_name()),
                |v: VaultState| vault_state_fields(v),
                vault_state_fields_valid(data@.subrange(8, data@.len() as int)),
            ),
    {
        let disc = VaultState::discriminator();
        match check_discriminator(data, &disc) {
            Ok(_) => {},
            Err(e) => return Err(e),
        }
        let ghost d = data@.subrange(8, data@.len() as int);
        if data.len() < 8 + 99 {
            return Err(AccountDataError::DidNotDeserialize);
        }
        let flag = data[106];
        if flag > 1 {
            return Err(AccountDataError::DidNotDeserialize);
        }
        let v = VaultState {
            mint: read_key(data, 8),
            authority: read_key(data, 40),
            config: read_key(data, 72),
            bump: data[104],
            vault_bump: data[105],
            in_flash: flag == 1,
        };
        assert(vault_state_fields(v) =~= d.subrange(0, 99));
        Ok(v)
    }
}

/// Reading back the data written for a vault gives the same vault; the
/// data fits in the account's space of `8 + VaultState::SIZE` bytes.
pub proof fn lemma_vault_state_roundtrip(v: VaultState, rest: Seq<u8>, r: Result<VaultState, AccountDataError>)
    requires
        account_read(
            r,
            account_discriminator(vault_state_name()) + vault_state_fields(v) + rest,
            account_discriminator(vault_state_name()),
            |v: VaultState| vault_state_fields(v),
            vault_state_fields_valid((account_discriminator(vault_state_name()) + vault_state_fields(v) + rest).subrange(
                8,
                (account_discriminator(vault_state_name()) + vault_state_fields(v) + rest).len() as int,
            )),
        ),
    ensures
        r == Ok::<VaultState, AccountDataError>(v),
        8 + vault_state_fields(v).len() <= 8 + VaultState::SIZE,
{
    let disc = account_discriminator(vault_state_name());
    let data = disc + vault_state_fields(v) + rest;
    let d = data.subrange(8, data.len() as int);
    assert(data.subrange(0, 8) =~= disc);
    assert(d =~= vault_state_fields(v) + rest);
    let f = vault_state_fields(v);
    assert(f[98] == bool_byte(v.in_flash));
    assert(vault_state_fields_valid(d));
    let v2 = r->Ok_0;
    let f2 = vault_state_fields(v2);
    assert(d.subrange(0, f2.len() as int) == f2);
    assert forall|i: int| 0 <= i < 99 implies f2[i] == f[i] by {
        assert(d.subrange(0, f2.len() as int)[i] == d[i]);
    }
    assert(v2.mint@ =~= v.mint@) by {
        assert forall|i: int| 0 <= i < 32 implies v2.mint@[i] == v.mint@[i] by {
            assert(f2[i] == f[i]);
        }
    }
    assert(v2.authority@ =~= v.authority@) by {
        assert forall|i: int| 0 <= i < 32 implies v2.authority@[i] == v.authority@[i] by {
            assert(f2[32 + i] == f[32 + i]);
        }
    }
    assert(v2.config@ =~= v.config@) by {
        assert forall|i: int| 0 <= i < 32 implies v2.config@[i] == v.config@[i] by {
            assert(f2[64 + i] == f[64 + i]);
        }
    }
    lemma_key_view_injective(v2.mint, v.mint);
    lemma_key_view_injective(v2.authority, v.authority);
    lemma_key_view_injective(v2.config, v.config);
    assert(f2[96] == f[96] && f2[97] == f[97] && f2[98] == f[98]);
}

impl Escrow {
    /// The discriminator of escrow accounts.
    pub fn discriminator() -> (d: Vec<u8>)
        ensures
            d@ == account_discriminator(escrow_name()),
            d@.len() == 8,
    {
        let name: Vec<u8> = vec![69u8, 115, 99, 114, 111, 119];
        assert(name@ =~= escrow_name());
        discriminator_of(name)
    }

    /// The account data of this escrow.
    pub fn try_serialize(&self) -> (data: Vec<u8>)
        ensures
            data@ == account_discriminator(escrow_name()) + escrow_fields(*self),
    {
        let mut data = Escrow::discriminator();
        let ghost disc = data@;
        push_key(&mut data, &self.owner);
        push_key(&mut data, &self.nft_mint);
        push_key(&mut data, &self.vault_state);
        data.push(self.bump);
        data.push(
            match self.status {
                EscrowStatus::Deposited => 0u8,
                EscrowStatus::Closed => 1u8,
            },
        );
        assert(data@ =~= disc + escrow_fields(*self));
        data
    }

    /// Reads an escrow from account data.
    pub fn try_deserialize(data: &[u8]) -> (r: Result<Escrow, AccountDataError>)
        ensures
            account_read(
                r,
                data@,
                account_discriminator(escrow_name()),
                |e: Escrow| escrow_fields(e),
                escrow_fields_valid(data@.subrange(8, data@.len() as int)),
            ),
    {
        let disc = Escrow::discriminator();
        match check_discriminator(data, &disc) {
            Ok(_) => {},
            Err(e) => return Err(e),
        }
        let ghost d = data@.subrange(8, data@.len() as int);
        if data.len() < 8 + 98 {
            return Err(AccountDataError::DidNotDeserialize);
        }
        let variant = data[105];
        let status = if variant == 0 {
            EscrowStatus::Deposited
        } else if variant == 1 {
            EscrowStatus::Closed
        } else {
            return Err(AccountDataError::DidNotDeserialize);
        };
        let e = Escrow {
            owner: read_key(data, 8),
            nft_mint: read_key(data, 40),
            vault_state: read_key(data, 72),
            bump: data[104],
            status,
        };
        assert(escrow_fields(e) =~= d.subrange(0, 98));
        Ok(e)
    }
}

/// Reading back the data written for an escrow gives the same escrow; the
/// data fits in the account's space of `8 + Escrow::SIZE` bytes.
pub proof fn lemma_escrow_roundtrip(e: Escrow, rest: Seq<u8>, r: Result<Escrow, AccountDataError>)
    requires
        account_read(
            r,
            account_discriminator(escrow_name()) + escrow_fields(e) + rest,
            account_discriminator(escrow_name()),
            |e: Escrow| escrow_fields(e),
            escrow_fields_valid((account_discriminator(escrow_name()) + escrow_fields(e) + rest).subrange(
                8,
                (account_discriminator(escrow_name()) + escrow_fields(e) + rest).len() as int,
            )),
        ),
    ensures
        r == Ok::<Escrow, AccountDataError>(e),
        8 + escrow_fields(e).len() <= 8 + Escrow::SIZE,
{
    let disc = account_discriminator(escrow_name());
    let data = disc + escrow_fields(e) + rest;
    let d = data.subrange(8, data.len() as int);
    assert(data.subrange(0, 8) =~= disc);
    assert(d =~= escrow_fields(e) + rest);
    let f = escrow_fields(e);
    assert(f[97] == status_byte(e.status));
    assert(escrow_fields_valid(d));
    let e2 = r->Ok_0;
    let f2 = escrow_fields(e2);
    assert(d.subrange(0, f2.len() as int) == f2);
    assert forall|i: int| 0 <= i < 98 implies f2[i] == f[i] by {
        assert(d.subrange(0, f2.len() as int)[i] == d[i]);
    }
    assert(e2.owner@ =~= e.owner@) by {
        assert forall|i: int| 0 <= i < 32 implies e2.owner@[i] == e.owner@[i] by {
            assert(f2[i] == f[i]);
        }
    }
    assert(e2.nft_mint@ =~= e.nft_mint@) by {
        assert forall|i: int| 0 <= i < 32 implies e2.nft_mint@[i] == e.nft_mint@[i] by {
            assert(f2[32 + i] == f[32 + i]);
        }
    }
    assert(e2.vault_state@ =~= e.vault_state@) by {
        assert forall|i: int| 0 <= i < 32 implies e2.vault_state@[i] == e.vault_state@[i] by {
            assert(f2[64 + i] == f[64 + i]);
        }
    }
    lemma_key_view_injective(e2.owner, e.owner);
    lemma_key_view_injective(e2.nft_mint, e.nft_mint);
    lemma_key_view_injective(e2.vault_state, e.vault_state);
    assert(f2[96] == f[96] && f2[97] == f[97]);
}

} // verus!
