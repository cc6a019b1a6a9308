use vstd::prelude::*;

use crate::address::{id, program_id, Address};
use anchor_lang::prelude::Pubkey;

verus! {

/// What the ledger derives from a list of seeds under a program: `None` where
/// the hash of the seeds lands on the curve, so that no address comes out.
pub uninterp spec fn program_address(seeds: Seq<Seq<u8>>, program: Seq<u8>) -> Option<Seq<u8>>;

/// The seeds as byte sequences.
pub open spec fn seeds_view(seeds: Seq<Vec<u8>>) -> Seq<Seq<u8>> {
    seeds.map_values(|s: Vec<u8>| s@)
}

/// At most `max` seeds, none longer than 32 bytes.
pub open spec fn seeds_fit(seeds: Seq<Seq<u8>>, max: int) -> bool {
    &&& seeds.len() <= max
    &&& forall|i: int| 0 <= i < seeds.len() ==> #[trigger] seeds[i].len() <= 32
}

pub open spec fn opt_view(a: Option<Address>) -> Option<Seq<u8>> {
    match a {
        Some(x) => Some(x@),
        None => None,
    }
}

/// Relies on Pubkey::create_program_address: on at most 16 seeds of at most
/// 32 bytes each it fails only where the hash lands on the curve, and its
/// result depends on the seeds and the program alone.
#[verifier::external_body]
fn create_program_address(seeds: &Vec<Vec<u8>>, program: &Address) -> (r: Option<Address>)
    requires
        seeds_fit(seeds_view(seeds@), 16),
    ensures
        opt_view(r) == program_address(seeds_view(seeds@), program@),
{
    let parts: Vec<&[u8]> = seeds.iter().map(|s| s.as_slice()).collect();
    match Pubkey::create_program_address(&parts, &Pubkey::new_from_array(program.bytes)) {
        Ok(k) => Some(Address { bytes: k.to_bytes() }),
        Err(_) => None,
    }
}

/// Relies on Pubkey::try_find_program_address: it tries the bumps from 255
/// down to 1, each appended as a one-byte seed, and returns the first that
/// derives an address, or `None` where none does.
#[verifier::external_body]
fn try_find_program_address(seeds: &Vec<Vec<u8>>, program: &Address) -> (r: Option<(Address, u8)>)
    requires
        seeds_fit(seeds_view(seeds@), 15),
    ensures
        match r {
            Some((a, b)) => {
                &&& 1 <= b
                &&& program_address(seeds_view(seeds@).push(seq![b]), program@) == Some(a@)
                &&& forall|c: u8|
                    b < c ==> #[trigger] program_address(seeds_view(seeds@).push(seq![c]), program@)
                        is None
            },
            None => forall|c: u8|
                1 <= c ==> #[trigger] program_address(seeds_view(seeds@).push(seq![c]), program@)
                    is None,
        },
{
    let parts: Vec<&[u8]> = seeds.iter().map(|s| s.as_slice()).collect();
    match Pubkey::try_find_program_address(&parts, &Pubkey::new_from_array(program.bytes)) {
        Some((k, b)) => Some((Address { bytes: k.to_bytes() }, b)),
        None => None,
    }
}

/// The two domain-separation tags of derivation.
#[derive(Clone, Copy, Debug, PartialEq, Eq, Structural)]
pub enum SeedTag {
    State,
    Vault,
}

impl SeedTag {
    /// The tag's bytes: `"state"` or `"vault"`.
    pub open spec fn spec_bytes(self) -> Seq<u8> {
        match self {
            SeedTag::State => seq![115u8, 116, 97, 116, 101],
            SeedTag::Vault => seq![118u8, 97, 117, 108, 116],
        }
    }

    pub fn bytes(&self) -> (r: Vec<u8>)
        ensures
            r@ == self.spec_bytes(),
    {
        let r = match self {
            SeedTag::State => vec![115u8, 116, 97, 116, 101],
            SeedTag::Vault => vec![118u8, 97, 117, 108, 116],
        };
        assert(r@ =~= self.spec_bytes());
        r
    }
}

/// The seeds before the bump: the tag, then the identity.
pub open spec fn base_seeds(tag: SeedTag, identity: Seq<u8>) -> Seq<Seq<u8>> {
    seq![tag.spec_bytes(), identity]
}

/// The full seed material: the tag, the identity, the bump as one byte.
pub open spec fn bumped_seeds(tag: SeedTag, identity: Seq<u8>, bump: u8) -> Seq<Seq<u8>> {
    seq![tag.spec_bytes(), identity, seq![bump]]
}

/// The address that (tag, identity, bump) derive under this program.
pub open spec fn derived_address(tag: SeedTag, identity: Seq<u8>, bump: u8) -> Option<Seq<u8>> {
    program_address(bumped_seeds(tag, identity, bump), program_id())
}

/// `bump` is the largest bump from 1 up that derives an address.
pub open spec fn is_canonical_bump(tag: SeedTag, identity: Seq<u8>, bump: u8) -> bool {
    &&& 1 <= bump
    &&& derived_address(tag, identity, bump) is Some
    &&& forall|c: u8| bump < c ==> #[trigger] derived_address(tag, identity, c) is None
}

/// The bump that the search finds for (tag, identity), if any.
pub open spec fn canonical_bump(tag: SeedTag, identity: Seq<u8>) -> Option<u8> {
    if exists|b: u8| is_canonical_bump(tag, identity, b) {
        Some(choose|b: u8| is_canonical_bump(tag, identity, b))
    } else {
        None
    }
}

/// The address and bump that the search finds for (tag, identity).
pub open spec fn canonical_address(tag: SeedTag, identity: Seq<u8>) -> Option<(Seq<u8>, u8)> {
    match canonical_bump(tag, identity) {
        Some(b) => Some((derived_address(tag, identity, b).unwrap(), b)),
        None => None,
    }
}

/// At most one bump is canonical for (tag, identity).
pub proof fn lemma_canonical_bump_unique(tag: SeedTag, identity: Seq<u8>, b1: u8, b2: u8)
    requires
        is_canonical_bump(tag, identity, b1),
        is_canonical_bump(tag, identity, b2),
    ensures
        b1 == b2,
{
    if b1 < b2 {
        assert(derived_address(tag, identity, b2) is None);
    } else if b2 < b1 {
        assert(derived_address(tag, identity, b1) is None);
    }
}

fn seeds_of(tag: SeedTag, identity: &Address) -> (r: Vec<Vec<u8>>)
    ensures
        seeds_view(r@) == base_seeds(tag, identity@),
        seeds_fit(seeds_view(r@), 15),
{
    let mut r: Vec<Vec<u8>> = Vec::new();
    r.push(tag.bytes());
    r.push(identity.to_vec());
    assert(seeds_view(r@) =~= base_seeds(tag, identity@));
    r
}

/// The seed material (tag, identity, bump) as a list of seeds.
pub fn seeds_with_bump(tag: SeedTag, identity: &Address, bump: u8) -> (r: Vec<Vec<u8>>)
    ensures
        seeds_view(r@) == bumped_seeds(tag, identity@, bump),
        seeds_fit(seeds_view(r@), 16),
{
    let mut r = seeds_of(tag, identity);
    let ghost before = r@;
    r.push(vec![bump]);
    assert(r@ == before.push(r@[2]));
    assert(seeds_view(r@) =~= bumped_seeds(tag, identity@, bump)) by {
        assert(seeds_view(r@)[0] == base_seeds(tag, identity@)[0]);
        assert(seeds_view(r@)[1] == base_seeds(tag, identity@)[1]);
        assert(r@[2]@ =~= seq![bump]);
    }
    r
}

/// Re-derives the address of (tag, identity, bump) under this program.
pub fn derive_address(tag: SeedTag, identity: &Address, bump: u8) -> (r: Option<Address>)
    ensures
        opt_view(r) == derived_address(tag, identity@, bump),
{
    let seeds = seeds_with_bump(tag, identity, bump);
    create_program_address(&seeds, &id())
}

/// Whether `key` is the address that (tag, identity, bump) derive: the check
/// by which a derived address authorizes a transfer out of itself.
pub fn seeds_authorize(tag: SeedTag, identity: &Address, bump: u8, key: &Address) -> (r: bool)
    ensures
        r == (derived_address(tag, identity@, bump) == Some(key@)),
{
    match derive_address(tag, identity, bump) {
        Some(a) => a.same(key),
        None => false,
    }
}

/// Searches the bumps from 255 down for the first that derives an address
/// for (tag, identity).
pub fn find_address(tag: SeedTag, identity: &Address) -> (r: Option<(Address, u8)>)
    ensures
        match r {
            Some((a, b)) => canonical_address(tag, identity@) == Some((a@, b)),
            None => canonical_address(tag, identity@) is None,
        },
{
    let seeds = seeds_of(tag, identity);
    let pid = id();
    let r = try_find_program_address(&seeds, &pid);
    proof {
        assert forall|c: u8|
            #[trigger] derived_address(tag, identity@, c) == program_address(
                seeds_view(seeds@).push(seq![c]),
                pid@,
            ) by {
            assert(seeds_view(seeds@).push(seq![c]) =~= bumped_seeds(tag, identity@, c));
        }
    }
    match r {
        Some((a, b)) => {
            assert forall|c: u8| b < c implies #[trigger] derived_address(tag, identity@, c)
                is None by {
                assert(program_address(seeds_view(seeds@).push(seq![c]), pid@) is None);
            }
            assert(is_canonical_bump(tag, identity@, b));
            let ghost c = choose|c: u8| is_canonical_bump(tag, identity@, c);
            proof {
                lemma_canonical_bump_unique(tag, identity@, b, c);
            }
        },
        None => {
            assert forall|b: u8| !is_canonical_bump(tag, identity@, b) by {
                if 1 <= b {
                    assert(program_address(seeds_view(seeds@).push(seq![b]), pid@) is None);
                }
            }
        },
    }
    r
}

/// Derivation is a function of (tag, identity, bump): identities with the
/// same bytes derive the same address, and the bump search finds the same
/// address and bump for them.
pub proof fn lemma_derivation_deterministic(tag: SeedTag, id1: Address, id2: Address, bump: u8)
    requires
        id1@ == id2@,
    ensures
        derived_address(tag, id1@, bump) == derived_address(tag, id2@, bump),
        canonical_address(tag, id1@) == canonical_address(tag, id2@),
{
}

/// The seed material binds both the tag and the identity: two derivations
/// that differ in identity, or in tag, hash different seed lists.
pub proof fn lemma_seed_material_distinct(
    tag1: SeedTag,
    id1: Seq<u8>,
    bump1: u8,
    tag2: SeedTag,
    id2: Seq<u8>,
    bump2: u8,
)
    requires
        tag1 != tag2 || id1 != id2,
    ensures
        bumped_seeds(tag1, id1, bump1) != bumped_seeds(tag2, id2, bump2),
{
    if tag1 != tag2 {
        assert(bumped_seeds(tag1, id1, bump1)[0][0] != bumped_seeds(tag2, id2, bump2)[0][0]);
    } else {
        assert(bumped_seeds(tag1, id1, bump1)[1] != bumped_seeds(tag2, id2, bump2)[1]);
    }
}

} // verus!
