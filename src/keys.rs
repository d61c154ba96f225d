use vstd::prelude::*;

use crate::error::MemeError;

verus! {

/// The ed25519 public key of a 32-byte secret key.
pub uninterp spec fn ed25519_public(secret: Seq<u8>) -> Seq<u8>;

#[verifier::external_type_specification]
#[verifier::external_body]
pub struct ExRandomError(getrandom::Error);

/// Relies on `getrandom::fill`: fills the buffer from the operating system's
/// secure source, or reports that the source failed. Nothing is known of the bytes.
#[verifier::external_body]
fn fill_from_os() -> (r: Result<[u8; 32], getrandom::Error>) {
    let mut secret = [0u8; 32];
    match getrandom::fill(&mut secret) {
        Ok(()) => Ok(secret),
        Err(e) => Err(e),
    }
}

/// Relies on `solana_keypair::Keypair::new_from_array` and `Signer::pubkey`: the
/// public key is the ed25519 image of the secret, which depends on the secret alone.
#[verifier::external_body]
fn keypair_public(secret: &[u8; 32]) -> (r: [u8; 32])
    ensures
        r@ == ed25519_public(secret@),
{
    let keypair = solana_sdk::signer::keypair::Keypair::new_from_array(*secret);
    solana_sdk::signer::Signer::pubkey(&keypair).to_bytes()
}

/// Fresh secret key material from the secure random source; its failure is
/// reported, never replaced by weaker bytes.
pub fn random_secret() -> (r: Result<[u8; 32], MemeError>)
    ensures
        r is Err ==> r == Err::<[u8; 32], MemeError>(MemeError::EntropyUnavailable),
{
    match fill_from_os() {
        Ok(secret) => Ok(secret),
        Err(_) => Err(MemeError::EntropyUnavailable),
    }
}

/// The public key that belongs to `secret`.
pub fn public_key_of(secret: &[u8; 32]) -> (r: [u8; 32])
    ensures
        r@ == ed25519_public(secret@),
{
    keypair_public(secret)
}

/// A fresh (secret, public) pair: the public key is always the image of the secret.
pub fn generate_keypair() -> (r: Result<([u8; 32], [u8; 32]), MemeError>)
    ensures
        r matches Ok((secret, public)) ==> public@ == ed25519_public(secret@),
        r is Err ==> r == Err::<([u8; 32], [u8; 32]), MemeError>(MemeError::EntropyUnavailable),
{
    let secret = random_secret()?;
    let public = public_key_of(&secret);
    Ok((secret, public))
}

} // verus!
