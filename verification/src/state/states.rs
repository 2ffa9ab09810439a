use crate::state::errors::InstructionError;
use crate::state::layout::{
    le_bytes, le_value, lemma_le_roundtrip, lemma_le_value_bound, lemma_pow256_values, read_le,
    signed_of, unsigned_of, write_le,
};
use vstd::prelude::*;
use vstd::string::*;

verus! {

/// An account address, as its 32 bytes.
pub type Pubkey = [u8; 32];

/// The vault that the program keeps for one user.
#[derive(Clone, Copy, Debug, PartialEq, Eq)]
pub struct Vault {
    pub owner: Pubkey,
    pub total_deposits: u64,
    pub total_available: u64,
    pub seed: u64,
    pub bump: u8,
}

impl Vault {
    /// Bytes of account space a vault takes: discriminator and fields.
    pub const SPACE: usize = 8 + 32 + 8 + 8 + 8 + 1;
}

/// A user record.
#[derive(Clone, Copy, Debug, PartialEq, Eq)]
pub struct User {
    pub owner: Pubkey,
    pub total_deposited: u64,
    pub bump: u8,
}

/// The price feed account: a price of `price_mantissa * 10^price_exponent`.
#[derive(Clone, Copy, Debug, PartialEq, Eq)]
pub struct Oracle {
    pub authority: Pubkey,
    pub price_mantissa: i64,
    pub price_exponent: i32,
    pub confidence: u64,
    pub last_update_slot: u64,
    pub last_update_epoch: u64,
    pub is_valid: bool,
    pub bump: u8,
}

/// An oracle's fields as mathematical values.
pub struct OracleView {
    pub authority: Seq<u8>,
    pub price_mantissa: int,
    pub price_exponent: int,
    pub confidence: nat,
    pub last_update_slot: nat,
    pub last_update_epoch: nat,
    pub is_valid: bool,
    pub bump: nat,
}

impl View for Oracle {
    type V = OracleView;

    open spec fn view(&self) -> OracleView {
        OracleView {
            authority: self.authority@,
            price_mantissa: self.price_mantissa as int,
            price_exponent: self.price_exponent as int,
            confidence: self.confidence as nat,
            last_update_slot: self.last_update_slot as nat,
            last_update_epoch: self.last_update_epoch as nat,
            is_valid: self.is_valid,
            bump: self.bump as nat,
        }
    }
}

/// The SHA-256 digest of `data`.
pub uninterp spec fn sha256(data: Seq<u8>) -> Seq<u8>;

/// Calls `anchor_lang::solana_program::hash::hash`, the SHA-256 digest of
/// its argument. Claimed: the 32 bytes returned are `sha256` of the input.
#[verifier::external_body]
fn sha256_digest(data: &[u8]) -> (digest: [u8; 32])
    ensures
        digest@ == sha256(data@),
{
    anchor_lang::solana_program::hash::hash(data).to_bytes()
}

/// The text whose digest names the oracle's account type.
pub open spec fn oracle_discriminator_preimage() -> Seq<u8> {
    "account:Oracle".spec_bytes()
}

/// The first eight bytes of the digest of `account:Oracle`, which every
/// oracle account's data starts with.
pub open spec fn oracle_discriminator() -> Seq<u8> {
    Seq::new(8, |i: int| sha256(oracle_discriminator_preimage())[i])
}

/// The length of an oracle's account data: discriminator and fields.
pub open spec fn oracle_account_len() -> nat {
    8 + 70
}

/// The oracle that account data holds, or why it holds none.
pub open spec fn decode_oracle(data: Seq<u8>) -> Result<OracleView, InstructionError> {
    if data.len() < 8 {
        Err(InstructionError::AccountDiscriminatorNotFound)
    } else if data.subrange(0, 8) != oracle_discriminator() {
        Err(InstructionError::AccountDiscriminatorMismatch)
    } else if data.len() < oracle_account_len() || data[76] > 1 {
        Err(InstructionError::AccountDidNotDeserialize)
    } else {
        Ok(
            OracleView {
                authority: data.subrange(8, 40),
                price_mantissa: signed_of(le_value(data.subrange(40, 48)), 8),
                price_exponent: signed_of(le_value(data.subrange(48, 52)), 4),
                confidence: le_value(data.subrange(52, 60)),
                last_update_slot: le_value(data.subrange(60, 68)),
                last_update_epoch: le_value(data.subrange(68, 76)),
                is_valid: data[76] == 1,
                bump: data[77] as nat,
            },
        )
    }
}

/// The account data of an oracle.
pub open spec fn encode_oracle(o: OracleView) -> Seq<u8> {
    oracle_discriminator() + o.authority + le_bytes(unsigned_of(o.price_mantissa, 8), 8)
        + le_bytes(unsigned_of(o.price_exponent, 4), 4) + le_bytes(o.confidence, 8) + le_bytes(
        o.last_update_slot,
        8,
    ) + le_bytes(o.last_update_epoch, 8) + seq![if o.is_valid { 1u8 } else { 0u8 }] + seq![
        o.bump as u8,
    ]
}

/// Whether `data` starts with the oracle's discriminator.
fn has_oracle_discriminator(data: &[u8]) -> (found: bool)
    requires
        data@.len() >= 8,
    ensures
        found == (data@.subrange(0, 8) == oracle_discriminator()),
{
    let digest = sha256_digest("account:Oracle".as_bytes());
    let mut i: usize = 0;
    while i < 8
        invariant
            i <= 8,
            data@.len() >= 8,
            digest@ == sha256(oracle_discriminator_preimage()),
            forall|j: int| 0 <= j < i ==> data@[j] == digest@[j],
        decreases 8 - i,
    {
        if data[i] != digest[i] {
            assert(data@.subrange(0, 8)[i as int] != oracle_discriminator()[i as int]);
            return false;
        }
        i = i + 1;
    }
    assert(data@.subrange(0, 8) =~= oracle_discriminator());
    true
}

/// The signed integer of eight bytes whose pattern is `bits`.
fn i64_from_bits(bits: u64) -> (value: i64)
    ensures
        value as int == signed_of(bits as nat, 8),
{
    proof {
        lemma_pow256_values();
    }
    if bits >= 0x8000_0000_0000_0000 {
        ((bits - 0x8000_0000_0000_0000) as i64) - i64::MAX - 1
    } else {
        bits as i64
    }
}

/// The signed integer of four bytes whose pattern is `bits`.
fn i32_from_bits(bits: u64) -> (value: i32)
    requires
        bits < 0x1_0000_0000,
    ensures
        value as int == signed_of(bits as nat, 4),
{
    proof {
        lemma_pow256_values();
    }
    if bits >= 0x8000_0000 {
        ((bits - 0x8000_0000) as i32) - i32::MAX - 1
    } else {
        bits as i32
    }
}

/// The eight-byte pattern of a signed integer.
fn i64_bits(value: i64) -> (bits: u64)
    ensures
        bits as nat == unsigned_of(value as int, 8),
{
    proof {
        lemma_pow256_values();
    }
    if value < 0 {
        ((value + i64::MAX + 1) as u64) + 0x8000_0000_0000_0000
    } else {
        value as u64
    }
}

/// The four-byte pattern of a signed integer.
fn i32_bits(value: i32) -> (bits: u64)
    ensures
        bits as nat == unsigned_of(value as int, 4),
        bits < 0x1_0000_0000,
{
    proof {
        lemma_pow256_values();
    }
    if value < 0 {
        ((value + i32::MAX + 1) as u64) + 0x8000_0000
    } else {
        value as u64
    }
}

impl Oracle {
    /// Bytes the oracle's fields take, after the discriminator.
    pub const INIT_SPACE: usize = 32 + 8 + 4 + 8 + 8 + 8 + 1 + 1;

    /// Reads an oracle from its account data: the discriminator, then the
    /// fields in order, integers little-endian, the flag as one byte that
    /// must be 0 or 1. Bytes after the fields are ignored.
    pub fn try_deserialize(data: &[u8]) -> (result: Result<Oracle, InstructionError>)
        ensures
            match decode_oracle(data@) {
                Ok(v) => result matches Ok(o) && o@ == v,
                Err(e) => result == Err::<Oracle, InstructionError>(e),
            },
    {
        if data.len() < 8 {
            return Err(InstructionError::AccountDiscriminatorNotFound);
        }
        if !has_oracle_discriminator(data) {
            return Err(InstructionError::AccountDiscriminatorMismatch);
        }
        if data.len() < 78 || data[76] > 1 {
            return Err(InstructionError::AccountDidNotDeserialize);
        }
        let mut authority = [0u8; 32];
        let mut i: usize = 0;
        while i < 32
            invariant
                i <= 32,
                data@.len() >= 78,
                forall|j: int| 0 <= j < i ==> authority@[j] == data@[8 + j],
            decreases 32 - i,
        {
            authority[i] = data[8 + i];
            i = i + 1;
        }
        assert(authority@ =~= data@.subrange(8, 40));
        let mantissa_bits = read_le(data, 40, 8);
        let exponent_bits = read_le(data, 48, 4);
        proof {
            lemma_le_value_bound(data@.subrange(48, 52));
            lemma_pow256_values();
        }
        let confidence = read_le(data, 52, 8);
        let last_update_slot = read_le(data, 60, 8);
        let last_update_epoch = read_le(data, 68, 8);
        Ok(
            Oracle {
                authority,
                price_mantissa: i64_from_bits(mantissa_bits),
                price_exponent: i32_from_bits(exponent_bits),
                confidence,
                last_update_slot,
                last_update_epoch,
                is_valid: data[76] == 1,
                bump: data[77],
            },
        )
    }

    /// Writes the oracle's account data: the discriminator, then the
    /// fields in the layout that `try_deserialize` reads.
    pub fn serialize(&self) -> (data: Vec<u8>)
        ensures
            data@ == encode_oracle(self@),
    {
        let digest = sha256_digest("account:Oracle".as_bytes());
        let mut out: Vec<u8> = Vec::new();
        let mut i: usize = 0;
        while i < 8
            invariant
                i <= 8,
                digest@ == sha256(oracle_discriminator_preimage()),
                out@ == oracle_discriminator().subrange(0, i as int),
            decreases 8 - i,
        {
            out.push(digest[i]);
            assert(out@ =~= oracle_discriminator().subrange(0, i + 1));
            i = i + 1;
        }
        let mut i: usize = 0;
        while i < 32
            invariant
                i <= 32,
                out@ == oracle_discriminator() + self.authority@.subrange(0, i as int),
            decreases 32 - i,
        {
            out.push(self.authority[i]);
            assert(out@ =~= oracle_discriminator() + self.authority@.subrange(0, i + 1));
            i = i + 1;
        }
        assert(self.authority@.subrange(0, 32) =~= self.authority@);
        write_le(&mut out, i64_bits(self.price_mantissa), 8);
        write_le(&mut out, i32_bits(self.price_exponent), 4);
        write_le(&mut out, self.confidence, 8);
        write_le(&mut out, self.last_update_slot, 8);
        write_le(&mut out, self.last_update_epoch, 8);
        out.push(if self.is_valid { 1u8 } else { 0u8 });
        out.push(self.bump);
        assert(out@ =~= encode_oracle(self@));
        out
    }
}

/// Reading back the account data that an oracle is written as gives the
/// same oracle.
pub proof fn law_oracle_roundtrip(o: Oracle)
    ensures
        decode_oracle(encode_oracle(o@)) == Ok::<OracleView, InstructionError>(o@),
{
    let v = o@;
    let d = encode_oracle(v);
    lemma_pow256_values();
    let mantissa = unsigned_of(v.price_mantissa, 8);
    let exponent = unsigned_of(v.price_exponent, 4);
    assert(d.len() == 78);
    assert(d.subrange(0, 8) =~= oracle_discriminator());
    assert(d.subrange(8, 40) =~= v.authority);
    assert(d.subrange(40, 48) =~= le_bytes(mantissa, 8));
    assert(d.subrange(48, 52) =~= le_bytes(exponent, 4));
    assert(d.subrange(52, 60) =~= le_bytes(v.confidence, 8));
    assert(d.subrange(60, 68) =~= le_bytes(v.last_update_slot, 8));
    assert(d.subrange(68, 76) =~= le_bytes(v.last_update_epoch, 8));
    lemma_le_roundtrip(mantissa, 8);
    lemma_le_roundtrip(exponent, 4);
    lemma_le_roundtrip(v.confidence, 8);
    lemma_le_roundtrip(v.last_update_slot, 8);
    lemma_le_roundtrip(v.last_update_epoch, 8);
    assert(d[76] == (if v.is_valid { 1u8 } else { 0u8 }));
    assert(d[77] == v.bump as u8);
}

/// Oracle account data decodes exactly when it holds the oracle's
/// discriminator, is long enough for every field, and its validity flag
/// is 0 or 1; bytes after the fields do not matter.
pub proof fn law_oracle_decoding(o: Oracle, data: Seq<u8>, extra: Seq<u8>)
    ensures
        decode_oracle(encode_oracle(o@) + extra) == Ok::<OracleView, InstructionError>(o@),
        data.len() < 8 ==> decode_oracle(data) == Err::<OracleView, InstructionError>(
            InstructionError::AccountDiscriminatorNotFound,
        ),
        (data.len() >= 8 && data.subrange(0, 8) != oracle_discriminator()) ==> decode_oracle(data)
            == Err::<OracleView, InstructionError>(InstructionError::AccountDiscriminatorMismatch),
        (data.len() >= 8 && data.subrange(0, 8) == oracle_discriminator() && (data.len() < 78
            || data[76] > 1)) ==> decode_oracle(data) == Err::<OracleView, InstructionError>(
            InstructionError::AccountDidNotDeserialize,
        ),
        decode_oracle(data) is Ok ==> data.len() >= 78 && data.subrange(0, 8)
            == oracle_discriminator(),
{
    let full = encode_oracle(o@) + extra;
    law_oracle_roundtrip(o);
    let enc = encode_oracle(o@);
    assert(enc.len() == 78);
    assert(full.subrange(0, 8) =~= enc.subrange(0, 8));
    assert(full.subrange(8, 40) =~= enc.subrange(8, 40));
    assert(full.subrange(40, 48) =~= enc.subrange(40, 48));
    assert(full.subrange(48, 52) =~= enc.subrange(48, 52));
    assert(full.subrange(52, 60) =~= enc.subrange(52, 60));
    assert(full.subrange(60, 68) =~= enc.subrange(60, 68));
    assert(full.subrange(68, 76) =~= enc.subrange(68, 76));
    assert(full[76] == enc[76]);
    assert(full[77] == enc[77]);
}

} // verus!
