//! Where a bill is stored: an address derived from a fixed tag, the
//! creator's identity and the bill's name, so that a client who knows the
//! two can find the bill without an index.

use vstd::prelude::*;
use vstd::string::StringSliceAdditionalSpecFns;
use vstd::utf8::encode_utf8;
use crate::bill::Identity;

verus! {

/// The tag that separates bill addresses from every other derived address:
/// the bytes of `bill`.
pub const DOMAIN_TAG: [u8; 4] = [98, 105, 108, 108];

/// The identity of the program that owns the bills.
pub const PROGRAM_ID: [u8; 32] = [
    228, 244, 240, 160, 186, 191, 118, 0, 15, 69, 214, 108, 193, 105, 190, 39,
    34, 236, 142, 214, 144, 62, 10, 127, 32, 101, 226, 245, 118, 63, 163, 147,
];

/// Longest seed, in bytes, from which the host derives an address.
pub const MAX_SEED_LEN: usize = 32;

/// The address and bump seed that the host derives for `seeds` under
/// `program_id`, or `None` where it derives none.
pub uninterp spec fn program_address(seeds: Seq<Seq<u8>>, program_id: Seq<u8>) -> Option<(Seq<u8>, u8)>;

/// The seeds of a bill's address: the tag, the creator, the bytes of the name.
pub open spec fn bill_seeds(creator: Seq<u8>, name: Seq<char>) -> Seq<Seq<u8>> {
    seq![DOMAIN_TAG@, creator, encode_utf8(name)]
}

/// The address of the bill that `creator` calls `name`, with its bump seed.
pub open spec fn spec_derive_address(creator: Seq<u8>, name: Seq<char>) -> Option<(Seq<u8>, u8)> {
    program_address(bill_seeds(creator, name), PROGRAM_ID@)
}

/// Calls `Pubkey::try_find_program_address` on the three seeds and the
/// program. The outcome depends on these four byte strings alone; the
/// contract gives it the name `program_address`, and claims beside that
/// only that a seed of more than 32 bytes yields no address.
#[verifier::external_body]
fn find_program_address(tag: &[u8], creator: &[u8], name: &[u8], program_id: [u8; 32]) -> (found: Option<(Identity, u8)>)
    ensures
        match found {
            Some((address, bump)) => program_address(seq![tag@, creator@, name@], program_id@)
                == Some((address@, bump)),
            None => program_address(seq![tag@, creator@, name@], program_id@).is_none(),
        },
        tag@.len() > MAX_SEED_LEN || creator@.len() > MAX_SEED_LEN || name@.len() > MAX_SEED_LEN
            ==> found.is_none(),
{
    let program = anchor_lang::prelude::Pubkey::new_from_array(program_id);
    anchor_lang::prelude::Pubkey::try_find_program_address(&[tag, creator, name], &program)
        .map(|(key, bump)| (Identity { bytes: key.to_bytes() }, bump))
}

/// The storage address of the bill that `creator` calls `name`, and the bump
/// seed that led to it. `None` where no address can be derived, as for a
/// name too long to be a seed.
pub fn derive_address(creator: &Identity, name: &str) -> (derived: Option<(Identity, u8)>)
    ensures
        match derived {
            Some((address, bump)) => spec_derive_address(creator@, name@) == Some((address@, bump)),
            None => spec_derive_address(creator@, name@).is_none(),
        },
        encode_utf8(name@).len() > MAX_SEED_LEN ==> derived.is_none(),
{
    find_program_address(DOMAIN_TAG.as_slice(), creator.bytes.as_slice(), name.as_bytes(), PROGRAM_ID)
}

/// Deriving an address is repeatable: equal creators and equal names give
/// the same address and the same bump seed, or both give none.
pub proof fn derive_address_deterministic(
    creator_a: Identity,
    name_a: Seq<char>,
    creator_b: Identity,
    name_b: Seq<char>,
)
    requires
        creator_a@ == creator_b@,
        name_a == name_b,
    ensures
        spec_derive_address(creator_a@, name_a) == spec_derive_address(creator_b@, name_b),
{
}

} // verus!
