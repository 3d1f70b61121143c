//! Program-derived address computation.
//!
//! The ledger runtime derives key-less addresses from seed labels with a
//! hash-based scheme.  The derivation is a pure function of the seeds and
//! the deriving program's address; its pages-long definition is left to the
//! runtime's own library and only named here, so every verified caller
//! speaks of the same result.

use vstd::prelude::*;

use crate::address::Address;

verus! {

/// What `try_find_program_address` returns for the given seeds under the
/// given program: the derived address and its bump seed, or nothing when no
/// viable bump exists.
pub uninterp spec fn found_pda_of(seeds: Seq<Seq<u8>>, program: Seq<u8>) -> Option<(Seq<u8>, u8)>;

/// What `create_program_address` returns for the given seeds (bump seed
/// included) under the given program, or nothing when the seeds are invalid
/// or the hash lands on the curve.
pub uninterp spec fn pda_at(seeds: Seq<Seq<u8>>, program: Seq<u8>) -> Option<Seq<u8>>;

/// Relies on `solana_program::pubkey::Pubkey::try_find_program_address`:
/// the result is a function of the seeds and the program id alone; on
/// success, `create_program_address` of the seeds extended with the
/// returned bump yields the returned 32-byte address.
#[verifier::external_body]
pub(crate) fn try_find_pda(seeds: &Vec<Vec<u8>>, program: &Address) -> (r: Option<(Address, u8)>)
    requires
        program.wf(),
    ensures
        match r {
            Some(p) => {
                &&& p.0.wf()
                &&& found_pda_of(seeds.deep_view(), program@) == Some((p.0@, p.1))
                &&& pda_at(seeds.deep_view().push(seq![p.1]), program@) == Some(p.0@)
            },
            None => found_pda_of(seeds.deep_view(), program@) is None,
        },
{
    let seed_slices: Vec<&[u8]> = seeds.iter().map(|s| s.as_slice()).collect();
    let arr: [u8; 32] = program.as_bytes().as_slice().try_into().unwrap();
    let program_key = solana_program::pubkey::Pubkey::from(arr);
    solana_program::pubkey::Pubkey::try_find_program_address(&seed_slices, &program_key).map(
        |p: (solana_program::pubkey::Pubkey, u8)|
            (Address::from_bytes(p.0.to_bytes().to_vec()).unwrap(), p.1),
    )
}

/// Relies on `solana_program::pubkey::Pubkey::create_program_address`: the
/// result is a function of the seeds and the program id alone; an invalid
/// seed set yields an error, mapped to `None` here.
#[verifier::external_body]
pub(crate) fn create_pda(seeds: &Vec<Vec<u8>>, program: &Address) -> (r: Option<Address>)
    requires
        program.wf(),
    ensures
        match r {
            Some(a) => a.wf() && pda_at(seeds.deep_view(), program@) == Some(a@),
            None => pda_at(seeds.deep_view(), program@) is None,
        },
{
    let seed_slices: Vec<&[u8]> = seeds.iter().map(|s| s.as_slice()).collect();
    let arr: [u8; 32] = program.as_bytes().as_slice().try_into().unwrap();
    let program_key = solana_program::pubkey::Pubkey::from(arr);
    match solana_program::pubkey::Pubkey::create_program_address(&seed_slices, &program_key) {
        Ok(a) => Some(Address::from_bytes(a.to_bytes().to_vec()).unwrap()),
        Err(_) => None,
    }
}

/// The seed sequence that re-derives the manager authority from its label
/// and the persisted bump.
pub open spec fn auth_seeds(bump: u8) -> Seq<Seq<u8>> {
    seq![crate::thread_authority_seed(), seq![bump]]
}

/// Re-derives the manager authority address from the persisted bump, as
/// every privileged call must, never searching for a new bump.
pub fn derive_authority(bump: u8, program: &Address) -> (r: Option<Address>)
    requires
        program.wf(),
    ensures
        match r {
            Some(a) => a.wf() && pda_at(auth_seeds(bump), program@) == Some(a@),
            None => pda_at(auth_seeds(bump), program@) is None,
        },
{
    let mut seeds: Vec<Vec<u8>> = Vec::new();
    seeds.push(crate::thread_authority_seed_bytes());
    let mut bump_seed: Vec<u8> = Vec::new();
    bump_seed.push(bump);
    seeds.push(bump_seed);
    proof {
        assert(seeds.deep_view() =~~= auth_seeds(bump));
    }
    create_pda(&seeds, program)
}

} // verus!
