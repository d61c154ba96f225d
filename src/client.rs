use vstd::prelude::*;
use vstd::bytes::{spec_u32_to_le_bytes, u32_to_le_bytes};
use vstd::string::{StringExecFns, StringSliceAdditionalSpecFns};
use vstd::utf8::encode_utf8;

use crate::address::{base58_text, derivation, derive_address, address_to_string, MOTHERSHIP_PROGRAM_ID};
use crate::error::MemeError;
use crate::keys::{ed25519_public, generate_keypair};
use crate::search::{
    address_bytes_text, has_suffix, vanity_search, vanity_search_result, NONCE_SPACE, SPMP_SUFFIX,
};
use crate::signing::{sign_swap_order, swap_signature};

verus! {

/// Seconds that must pass between two rotations of the rotator key.
pub const ROTATION_INTERVAL: i64 = 3600;

/// What `str::to_uppercase` returns.
pub uninterp spec fn upper_of(s: Seq<char>) -> Seq<char>;

/// Relies on `str::to_uppercase`: the result depends on the characters alone,
/// and an empty string stays empty.
#[verifier::external_body]
fn uppercase(s: &str) -> (r: String)
    ensures
        r@ == upper_of(s@),
        s@.len() == 0 ==> r@.len() == 0,
{
    s.to_uppercase()
}

/// The suffix of vanity identifiers and mint labels, as characters.
pub open spec fn spmp_suffix() -> Seq<char> {
    seq!['S', 'P', 'M', 'P']
}

/// The mint label of a symbol: the symbol in upper case, then the suffix.
pub open spec fn mint_label_of(symbol: Seq<char>) -> Seq<char> {
    upper_of(symbol) + spmp_suffix()
}

/// The bytes of "contract", the first seed of a deployer's base account.
pub open spec fn contract_seed() -> Seq<u8> {
    seq![99u8, 111u8, 110u8, 116u8, 114u8, 97u8, 99u8, 116u8]
}

/// The seeds of a deployer's base account.
pub open spec fn base_seeds(deployer: Seq<u8>) -> Seq<Seq<u8>> {
    seq![contract_seed(), deployer]
}

/// The two derivations of a handshake: the deployer's base account, then the
/// vanity search over all 256 nonces, as (base account, vanity identifier, bump).
pub open spec fn handshake_derivations(name: Seq<u8>, symbol: Seq<char>, deployer: Seq<u8>) -> Result<(Seq<u8>, Seq<u8>, u8), MemeError> {
    match derivation(base_seeds(deployer), MOTHERSHIP_PROGRAM_ID@) {
        Err(e) => Err(e),
        Ok((base, _)) => match vanity_search_result(
            name,
            encode_utf8(mint_label_of(symbol)),
            MOTHERSHIP_PROGRAM_ID@,
            encode_utf8(spmp_suffix()),
            256,
        ) {
            Err(e) => Err(e),
            Ok((id, bump, _)) => Ok((base, id, bump)),
        },
    }
}

/// The layout of a handshake event: the three identifiers, then the mint label
/// as a little-endian `u32` length and its UTF-8 bytes.
pub open spec fn event_bytes(mothership: Seq<u8>, program_id: Seq<u8>, deployer: Seq<u8>, mint_label: Seq<u8>) -> Seq<u8> {
    mothership + program_id + deployer + spec_u32_to_le_bytes(mint_label.len() as u32) + mint_label
}

/// The record of a session after a successful handshake.
pub struct MemeVault {
    /// The deployer's base account, derived from "contract" and the deployer key.
    pub mothership_pda: [u8; 32],
    /// The identifier that the vanity search found.
    pub vanity_program_id: [u8; 32],
    /// The bump byte of the vanity identifier.
    pub vanity_bump: u8,
    /// The secret of the current rotator key.
    pub rotator_sk: [u8; 32],
    /// The public key of `rotator_sk`.
    pub rotator_pk: [u8; 32],
    /// When the rotator key was last made, in seconds.
    pub last_rotation: i64,
    /// Set when the vault is made, never cleared.
    pub is_handshaken: bool,
    /// The mint label: the upper-case symbol followed by "SPMP".
    pub spmp_mint: String,
}

impl MemeVault {
    /// The rotator keys match, the handshake flag is set and the vanity
    /// identifier's text ends with "SPMP".
    pub open spec fn wf(&self) -> bool {
        &&& self.rotator_pk@ == ed25519_public(self.rotator_sk@)
        &&& self.is_handshaken
        &&& has_suffix(address_bytes_text(self.vanity_program_id@), encode_utf8(spmp_suffix()))
    }
}

/// `new` is `old` with a fresh matching rotator key made at `now`, all else kept.
pub open spec fn is_rotation_of(new: MemeVault, old: MemeVault, now: i64) -> bool {
    &&& new.mothership_pda == old.mothership_pda
    &&& new.vanity_program_id == old.vanity_program_id
    &&& new.vanity_bump == old.vanity_bump
    &&& new.is_handshaken == old.is_handshaken
    &&& new.spmp_mint == old.spmp_mint
    &&& new.last_rotation == now
    &&& new.rotator_pk@ == ed25519_public(new.rotator_sk@)
}

/// The event that a handshake publishes.
pub struct HandshakeEvent {
    pub mothership: [u8; 32],
    pub meme_program_id: [u8; 32],
    pub deployer: [u8; 32],
    pub spmp_mint: String,
}

/// Appends `src` to `out`.
fn append_bytes(out: &mut Vec<u8>, src: &[u8])
    ensures
        final(out)@ == old(out)@ + src@,
{
    let mut i: usize = 0;
    let ghost start = out@;
    let n: usize = src.len();
    while i < n
        invariant
            n == src@.len(),
            i <= n,
            out@ == start + src@.subrange(0, i as int),
        decreases n - i,
    {
        out.push(src[i]);
        assert(src@.subrange(0, i + 1) =~= src@.subrange(0, i as int).push(src@[i as int]));
        i = i + 1;
    }
    assert(src@.subrange(0, n as int) =~= src@);
}

impl HandshakeEvent {
    /// The event's fixed byte layout.
    pub fn to_bytes(&self) -> (r: Vec<u8>)
        requires
            encode_utf8(self.spmp_mint@).len() <= u32::MAX,
        ensures
            r@ == event_bytes(self.mothership@, self.meme_program_id@, self.deployer@, encode_utf8(self.spmp_mint@)),
    {
        let label = self.spmp_mint.as_str().as_bytes();
        let mut out: Vec<u8> = Vec::new();
        append_bytes(&mut out, &self.mothership);
        append_bytes(&mut out, &self.meme_program_id);
        append_bytes(&mut out, &self.deployer);
        let len = u32_to_le_bytes(label.len() as u32);
        append_bytes(&mut out, len.as_slice());
        append_bytes(&mut out, label);
        out
    }
}

/// What a successful handshake reports.
pub struct HandshakeOutcome {
    /// The text of the vanity identifier.
    pub vanity_program_id: String,
    /// The mint label.
    pub spmp_mint: String,
    /// The text of the deployer's base account.
    pub mothership_pda: String,
    /// The text of the first rotator public key.
    pub rotator_pk: String,
    /// The handshake event in its byte layout.
    pub event: Vec<u8>,
}

/// The mint label of `symbol`.
pub fn spmp_mint_for(symbol: &str) -> (r: String)
    ensures
        r@ == mint_label_of(symbol@),
{
    proof {
        reveal_strlit("SPMP");
    }
    let upper = uppercase(symbol);
    upper.concat(SPMP_SUFFIX)
}

/// One session: a deployer key and, after a handshake, its vault.
pub struct MemeTemplateClient {
    vault: Option<MemeVault>,
    deployer_secret: [u8; 32],
    deployer: [u8; 32],
}

impl MemeTemplateClient {
    /// The vault, if a handshake has succeeded.
    pub closed spec fn vault_state(&self) -> Option<MemeVault> {
        self.vault
    }

    /// The deployer's public key.
    pub closed spec fn deployer_key(&self) -> Seq<u8> {
        self.deployer@
    }

    /// The deployer's public key is the image of its secret.
    pub closed spec fn keys_match(&self) -> bool {
        self.deployer@ == ed25519_public(self.deployer_secret@)
    }

    /// The deployer key pair matches and any vault is well formed.
    pub open spec fn wf(&self) -> bool {
        &&& self.keys_match()
        &&& self.vault_state() matches Some(v) ==> v.wf()
    }

    /// A session with a fresh deployer key and no vault.
    pub fn new() -> (r: Result<Self, MemeError>)
        ensures
            r matches Ok(c) ==> c.wf() && c.vault_state() is None,
            r is Err ==> r == Err::<Self, MemeError>(MemeError::EntropyUnavailable),
    {
        let (deployer_secret, deployer) = generate_keypair()?;
        Ok(MemeTemplateClient { vault: None, deployer_secret, deployer })
    }

    /// Makes the mint label of `symbol`, derives the deployer's base account,
    /// searches the 256 nonces for an identifier whose text ends with "SPMP",
    /// draws a fresh rotator key and stores the new vault, made at `now`.
    /// A session makes its vault once: a handshake when it already has one gives
    /// `VaultAlreadyInitialized`. A failed derivation, an exhausted search or a
    /// failed random source leaves the session as it was.
    pub fn create_token_and_handshake(&mut self, name: &str, symbol: &str, now: i64) -> (r: Result<HandshakeOutcome, MemeError>)
        requires
            old(self).wf(),
        ensures
            final(self).wf(),
            final(self).deployer_key() == old(self).deployer_key(),
            r is Err ==> final(self).vault_state() == old(self).vault_state(),
            r is Ok ==> name.spec_bytes().len() <= 32 && encode_utf8(mint_label_of(symbol@)).len() <= 32,
            old(self).vault_state() is Some ==> r == Err::<HandshakeOutcome, MemeError>(MemeError::VaultAlreadyInitialized),
            old(self).vault_state() is None ==> match handshake_derivations(name.spec_bytes(), symbol@, old(self).deployer_key()) {
                Err(e) => r == Err::<HandshakeOutcome, MemeError>(e),
                Ok((base, id, bump)) => match r {
                    Err(e) => e == MemeError::EntropyUnavailable,
                    Ok(out) => match final(self).vault_state() {
                        None => false,
                        Some(v) => {
                            &&& v.mothership_pda@ == base
                            &&& v.vanity_program_id@ == id
                            &&& v.vanity_bump == bump
                            &&& v.rotator_pk@ == ed25519_public(v.rotator_sk@)
                            &&& v.last_rotation == now
                            &&& v.is_handshaken
                            &&& v.spmp_mint@ == mint_label_of(symbol@)
                            &&& out.vanity_program_id@ == base58_text(id)
                            &&& out.spmp_mint@ == mint_label_of(symbol@)
                            &&& out.mothership_pda@ == base58_text(base)
                            &&& out.rotator_pk@ == base58_text(v.rotator_pk@)
                            &&& out.event@ == event_bytes(
                                MOTHERSHIP_PROGRAM_ID@,
                                id,
                                old(self).deployer_key(),
                                encode_utf8(mint_label_of(symbol@)),
                            )
                        },
                    },
                },
            },
    {
        if self.vault.is_some() {
            return Err(MemeError::VaultAlreadyInitialized);
        }
        let deployer = self.deployer;
        let spmp_mint = spmp_mint_for(symbol);

        let mut seeds: Vec<Vec<u8>> = Vec::new();
        let mut contract: Vec<u8> = Vec::new();
        append_bytes(&mut contract, &[99u8, 111u8, 110u8, 116u8, 114u8, 97u8, 99u8, 116u8]);
        seeds.push(contract);
        seeds.push(vstd::slice::slice_to_vec(&deployer));
        assert(crate::address::seed_view(&seeds) =~= base_seeds(deployer@));
        let (mothership_pda, _base_bump) = match derive_address(&seeds, &MOTHERSHIP_PROGRAM_ID) {
            Ok(found) => found,
            Err(e) => {
                return Err(e);
            },
        };

        proof {
            reveal_strlit("SPMP");
            assert(SPMP_SUFFIX@ =~= spmp_suffix());
        }
        let mint_text = spmp_mint.as_str();
        assert(mint_text.spec_bytes() == encode_utf8(mint_label_of(symbol@)));
        let found = match vanity_search(name, mint_text, &MOTHERSHIP_PROGRAM_ID, SPMP_SUFFIX, NONCE_SPACE) {
            Ok(found) => found,
            Err(e) => {
                return Err(e);
            },
        };

        let (rotator_sk, rotator_pk) = match generate_keypair() {
            Ok(pair) => pair,
            Err(e) => {
                return Err(e);
            },
        };

        let event = HandshakeEvent {
            mothership: MOTHERSHIP_PROGRAM_ID,
            meme_program_id: found.program_id,
            deployer,
            spmp_mint: spmp_mint.clone(),
        };
        let event_bytes = event.to_bytes();

        let outcome = HandshakeOutcome {
            vanity_program_id: address_to_string(&found.program_id),
            spmp_mint: spmp_mint.clone(),
            mothership_pda: address_to_string(&mothership_pda),
            rotator_pk: address_to_string(&rotator_pk),
            event: event_bytes,
        };
        self.vault = Some(MemeVault {
            mothership_pda,
            vanity_program_id: found.program_id,
            vanity_bump: found.bump,
            rotator_sk,
            rotator_pk,
            last_rotation: now,
            is_handshaken: true,
            spmp_mint,
        });
        Ok(outcome)
    }

    /// The text of the vanity identifier, once a handshake has succeeded.
    pub fn get_vanity_id(&self) -> (r: Option<String>)
        ensures
            match self.vault_state() {
                None => r is None,
                Some(v) => r matches Some(s) && s@ == base58_text(v.vanity_program_id@),
            },
            self.wf() && r is Some ==> has_suffix(encode_utf8(r->Some_0@), encode_utf8(spmp_suffix())),
    {
        match &self.vault {
            Some(v) => Some(address_to_string(&v.vanity_program_id)),
            None => None,
        }
    }

    /// The mint label, once a handshake has succeeded.
    pub fn get_spmp_mint(&self) -> (r: Option<String>)
        ensures
            match self.vault_state() {
                None => r is None,
                Some(v) => r matches Some(s) && s@ == v.spmp_mint@,
            },
    {
        match &self.vault {
            Some(v) => Some(v.spmp_mint.clone()),
            None => None,
        }
    }

    /// The text of the current rotator public key, once a handshake has succeeded.
    pub fn get_rotator_pk(&self) -> (r: Option<String>)
        ensures
            match self.vault_state() {
                None => r is None,
                Some(v) => r matches Some(s) && s@ == base58_text(v.rotator_pk@),
            },
    {
        match &self.vault {
            Some(v) => Some(address_to_string(&v.rotator_pk)),
            None => None,
        }
    }

    /// Whether a handshake has succeeded.
    pub fn is_handshaken(&self) -> (r: bool)
        ensures
            r == (self.vault_state() matches Some(v) && v.is_handshaken),
    {
        match &self.vault {
            Some(v) => v.is_handshaken,
            None => false,
        }
    }

    /// Replaces the rotator key when at least an hour has passed since it was
    /// made: returns `Ok(true)` after replacing it, `Ok(false)` and changes
    /// nothing when less than an hour has passed.
    pub fn rotate_keys(&mut self, now: i64) -> (r: Result<bool, MemeError>)
        requires
            old(self).wf(),
        ensures
            final(self).wf(),
            final(self).deployer_key() == old(self).deployer_key(),
            match old(self).vault_state() {
                None => r == Err::<bool, MemeError>(MemeError::VaultNotInitialized) && final(self).vault_state() is None,
                Some(v) => if (now as int) - (v.last_rotation as int) < ROTATION_INTERVAL as int {
                    r == Ok::<bool, MemeError>(false) && final(self).vault_state() == Some(v)
                } else {
                    match r {
                        Err(e) => e == MemeError::EntropyUnavailable && final(self).vault_state() == Some(v),
                        Ok(rotated) => rotated && (final(self).vault_state() matches Some(w) && is_rotation_of(w, v, now)),
                    }
                },
            },
            old(self).vault_state() matches Some(v) ==> (final(self).vault_state() matches Some(w)
                && w.last_rotation >= v.last_rotation),
    {
        match &mut self.vault {
            None => Err(MemeError::VaultNotInitialized),
            Some(vault) => {
                if (now as i128) - (vault.last_rotation as i128) < ROTATION_INTERVAL as i128 {
                    return Ok(false);
                }
                let (sk, pk) = generate_keypair()?;
                vault.rotator_sk = sk;
                vault.rotator_pk = pk;
                vault.last_rotation = now;
                Ok(true)
            },
        }
    }

    /// Signs a swap order with the current rotator public key (see
    /// `sign_swap_order`); the 48-byte compressed point.
    pub fn sign_swap(&self, amount_in: u64, is_buy: bool, min_out: u64, nonce: u64) -> (r: Result<Vec<u8>, MemeError>)
        ensures
            match self.vault_state() {
                None => r == Err::<Vec<u8>, MemeError>(MemeError::VaultNotInitialized),
                Some(v) => r matches Ok(sig) && sig@ == swap_signature(v.rotator_pk@, amount_in, is_buy, min_out, nonce),
            },
            r matches Ok(sig) ==> sig@.len() == 48,
    {
        match &self.vault {
            None => Err(MemeError::VaultNotInitialized),
            Some(v) => Ok(sign_swap_order(&v.rotator_pk, amount_in, is_buy, min_out, nonce)),
        }
    }
}

/// The vanity identifier of a handshake does not depend on the deployer: when
/// the base-account derivations of two deployers both succeed, their handshakes
/// find the same identifier and bump, or fail alike.
pub proof fn lemma_handshake_vanity_independent_of_deployer(
    name: Seq<u8>,
    symbol: Seq<char>,
    deployer1: Seq<u8>,
    deployer2: Seq<u8>,
)
    requires
        derivation(base_seeds(deployer1), MOTHERSHIP_PROGRAM_ID@) is Ok,
        derivation(base_seeds(deployer2), MOTHERSHIP_PROGRAM_ID@) is Ok,
    ensures
        handshake_derivations(name, symbol, deployer1) is Ok <==> handshake_derivations(name, symbol, deployer2) is Ok,
        handshake_derivations(name, symbol, deployer1) matches Ok((b1, id1, bump1)) ==> (
            handshake_derivations(name, symbol, deployer2) matches Ok((b2, id2, bump2)) && id1 == id2 && bump1 == bump2),
        handshake_derivations(name, symbol, deployer1) matches Err(e1) ==>
            handshake_derivations(name, symbol, deployer2) == Err::<(Seq<u8>, Seq<u8>, u8), MemeError>(e1),
{
}

} // verus!
