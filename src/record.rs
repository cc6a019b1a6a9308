//! The persisted form of the metadata record: an 8-byte record-type tag,
//! then `vault_bump`, then `state_bump`.
use vstd::prelude::*;

use crate::vault::{VaultError, VaultState};

verus! {

/// The SHA-256 digest of `data`.
pub uninterp spec fn sha256_of(data: Seq<u8>) -> Seq<u8>;

/// Relies on solana_program::hash::hash: the SHA-256 digest of the bytes.
#[verifier::external_body]
fn sha256(data: &Vec<u8>) -> (r: [u8; 32])
    ensures
        r@ == sha256_of(data@),
{
    anchor_lang::solana_program::hash::hash(data.as_slice()).to_bytes()
}

/// The text the record-type tag is hashed from: `"account:VaultState"`.
pub open spec fn record_type_name() -> Seq<u8> {
    seq![97u8, 99, 99, 111, 117, 110, 116, 58, 86, 97, 117, 108, 116, 83, 116, 97, 116, 101]
}

/// The record-type tag: the first 8 bytes of the digest of the type's name.
pub open spec fn record_tag() -> Seq<u8> {
    sha256_of(record_type_name()).subrange(0, 8)
}

/// The bytes of a record.
pub open spec fn encoded(s: VaultState) -> Seq<u8> {
    record_tag() + seq![s.vault_bump, s.state_bump]
}

/// What reading `data` as a record gives: the two bytes after a matching tag.
pub open spec fn decoded(data: Seq<u8>) -> Result<VaultState, VaultError> {
    if data.len() >= 10 && data.subrange(0, 8) == record_tag() {
        Ok(VaultState { vault_bump: data[8], state_bump: data[9] })
    } else {
        Err(VaultError::InvalidRecord)
    }
}

/// The 8-byte record-type tag.
pub fn record_discriminator() -> (r: Vec<u8>)
    ensures
        r@ == record_tag(),
        r@.len() == 8,
{
    let name: Vec<u8> = vec![97u8, 99, 99, 111, 117, 110, 116, 58, 86, 97, 117, 108, 116, 83, 116, 97, 116, 101];
    assert(name@ =~= record_type_name());
    let digest = sha256(&name);
    let mut r: Vec<u8> = Vec::new();
    let mut i: usize = 0;
    while i < 8
        invariant
            i <= 8,
            digest@.len() == 32,
            r@ == digest@.subrange(0, i as int),
        decreases 8 - i,
    {
        r.push(digest[i]);
        i = i + 1;
        assert(r@ =~= digest@.subrange(0, i as int));
    }
    r
}

impl VaultState {
    /// The record's bytes: the tag, `vault_bump`, `state_bump`.
    pub fn encode(&self) -> (r: Vec<u8>)
        ensures
            r@ == encoded(*self),
    {
        let mut r = record_discriminator();
        r.push(self.vault_bump);
        r.push(self.state_bump);
        assert(r@ =~= encoded(*self));
        r
    }

    /// Reads a record: `InvalidRecord` where the data is shorter than ten
    /// bytes or does not start with the record-type tag. Bytes after the
    /// tenth are not read.
    pub fn decode(data: &Vec<u8>) -> (r: Result<VaultState, VaultError>)
        ensures
            r == decoded(data@),
    {
        if data.len() < 10 {
            return Err(VaultError::InvalidRecord);
        }
        let tag = record_discriminator();
        let mut i: usize = 0;
        while i < 8
            invariant
                i <= 8,
                data@.len() >= 10,
                tag@.len() == 8,
                tag@ == record_tag(),
                forall|j: int| 0 <= j < i ==> data@[j] == tag@[j],
            decreases 8 - i,
        {
            if data[i] != tag[i] {
                assert(data@.subrange(0, 8)[i as int] != record_tag()[i as int]);
                assert(data@.subrange(0, 8) != record_tag());
                return Err(VaultError::InvalidRecord);
            }
            i = i + 1;
        }
        assert(data@.subrange(0, 8) =~= tag@);
        Ok(VaultState { vault_bump: data[8], state_bump: data[9] })
    }
}

/// Reading a written record gives back the record (the tag being the 8
/// bytes that `record_discriminator` returns).
pub proof fn lemma_record_round_trip(s: VaultState)
    requires
        record_tag().len() == 8,
    ensures
        decoded(encoded(s)) == Ok::<VaultState, VaultError>(s),
{
    assert(encoded(s).subrange(0, 8) =~= record_tag());
}

} // verus!
