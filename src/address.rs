use vstd::prelude::*;

use crate::error::MemeError;

verus! {

/// The namespace (program) that every identifier of this library is derived under.
pub const MOTHERSHIP_PROGRAM_ID: [u8; 32] = [
    255, 86, 84, 139, 164, 175, 176, 113, 85, 242, 186, 142, 103, 245, 147, 184,
    97, 71, 161, 204, 245, 237, 199, 140, 183, 14, 98, 142, 76, 52, 206, 90,
];

/// Longest seed component that a derivation accepts.
pub const MAX_SEED_LEN: usize = 32;

/// What `Pubkey::try_find_program_address` returns for these seeds and program.
pub uninterp spec fn program_address(seeds: Seq<Seq<u8>>, program_id: Seq<u8>) -> Option<(Seq<u8>, u8)>;

/// The base-58 text of a 32-byte identifier, as `Pubkey`'s `Display` writes it.
pub uninterp spec fn base58_text(key: Seq<u8>) -> Seq<char>;

/// The byte strings held by a list of seeds.
pub open spec fn seed_view(seeds: &Vec<Vec<u8>>) -> Seq<Seq<u8>> {
    seeds@.map_values(|s: Vec<u8>| s@)
}

/// The seeds are few and short enough for a derivation to be attempted.
pub open spec fn seeds_fit(seeds: Seq<Seq<u8>>) -> bool {
    &&& seeds.len() < 16
    &&& forall|i: int| 0 <= i < seeds.len() ==> #[trigger] seeds[i].len() <= MAX_SEED_LEN
}

/// What `derive_address` returns for these seeds and program.
pub open spec fn derivation(seeds: Seq<Seq<u8>>, program_id: Seq<u8>) -> Result<(Seq<u8>, u8), MemeError> {
    match program_address(seeds, program_id) {
        Some(found) => Ok(found),
        None => Err(MemeError::DerivationExhausted),
    }
}

/// Relies on `solana_pubkey::Pubkey::try_find_program_address`: a function of the
/// seeds and the program alone, which tries bump bytes from 255 downwards and gives
/// `None` when no bump yields an off-curve identifier, or when `create_program_address`
/// refuses more than 16 seeds (the bump included) or a seed longer than 32 bytes.
#[verifier::external_body]
fn try_find_program_address(seeds: &Vec<Vec<u8>>, program_id: &[u8; 32]) -> (r: Option<([u8; 32], u8)>)
    ensures
        r matches Some((a, b)) ==> program_address(seed_view(seeds), program_id@) == Some((a@, b)),
        r is None ==> program_address(seed_view(seeds), program_id@) is None,
        r is Some ==> seeds_fit(seed_view(seeds)),
{
    let refs: Vec<&[u8]> = seeds.iter().map(|s| s.as_slice()).collect();
    let program = solana_sdk::pubkey::Pubkey::new_from_array(*program_id);
    solana_sdk::pubkey::Pubkey::try_find_program_address(&refs, &program).map(|(a, b)| (a.to_bytes(), b))
}

/// Relies on `Display for solana_pubkey::Pubkey`: the base-58 text of the 32 bytes.
#[verifier::external_body]
fn pubkey_text(key: &[u8; 32]) -> (r: String)
    ensures
        r@ == base58_text(key@),
{
    solana_sdk::pubkey::Pubkey::new_from_array(*key).to_string()
}

/// Derives the off-curve identifier and bump byte of `seeds` under `program_id`.
/// The same seeds and program always give the same result.
pub fn derive_address(seeds: &Vec<Vec<u8>>, program_id: &[u8; 32]) -> (r: Result<([u8; 32], u8), MemeError>)
    ensures
        match r {
            Ok((a, b)) => derivation(seed_view(seeds), program_id@) == Ok::<(Seq<u8>, u8), MemeError>((a@, b)),
            Err(e) => derivation(seed_view(seeds), program_id@) == Err::<(Seq<u8>, u8), MemeError>(e),
        },
        r is Ok ==> seeds_fit(seed_view(seeds)),
{
    match try_find_program_address(seeds, program_id) {
        Some(found) => Ok(found),
        None => Err(MemeError::DerivationExhausted),
    }
}

/// The base-58 text of an identifier.
pub fn address_to_string(key: &[u8; 32]) -> (r: String)
    ensures
        r@ == base58_text(key@),
{
    pubkey_text(key)
}

/// Derivation is a function of its inputs: two derivations from the same
/// seeds under the same program agree on the identifier and the bump.
pub proof fn lemma_derivation_deterministic(
    seeds: Seq<Seq<u8>>,
    program_id: Seq<u8>,
    first: Result<(Seq<u8>, u8), MemeError>,
    second: Result<(Seq<u8>, u8), MemeError>,
)
    requires
        first == derivation(seeds, program_id),
        second == derivation(seeds, program_id),
    ensures
        first == second,
{
}

} // verus!
