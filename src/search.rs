use vstd::prelude::*;
use vstd::string::StringSliceAdditionalSpecFns;
use vstd::utf8::encode_utf8;

use crate::address::{seed_view, base58_text, derivation, derive_address, address_to_string};
use crate::error::MemeError;

verus! {

/// The suffix that a vanity identifier's text must end with.
pub const SPMP_SUFFIX: &'static str = "SPMP";

/// The nonce seed is one byte, so no search makes more than this many attempts.
pub const NONCE_SPACE: u32 = 256;

/// `suffix` ends `text`.
pub open spec fn has_suffix(text: Seq<u8>, suffix: Seq<u8>) -> bool {
    suffix.len() <= text.len() && text.subrange(text.len() - suffix.len(), text.len() as int) == suffix
}

/// The first seed component of every vanity derivation: the bytes of "meme".
pub open spec fn meme_seed() -> Seq<u8> {
    seq![109u8, 101u8, 109u8, 101u8]
}

/// The seeds of the vanity derivation at one nonce.
pub open spec fn vanity_seeds(name: Seq<u8>, mint_label: Seq<u8>, nonce: u8) -> Seq<Seq<u8>> {
    seq![meme_seed(), name, mint_label, seq![nonce]]
}

/// The text of a derived identifier, as bytes.
pub open spec fn address_bytes_text(key: Seq<u8>) -> Seq<u8> {
    encode_utf8(base58_text(key))
}

/// The search from nonce `nonce` on: the first nonce below both `limit` and 256
/// whose derivation ends with `suffix`, as (identifier, bump, attempts made).
/// A derivation that fails ends the search with that failure.
pub open spec fn search_from(
    name: Seq<u8>,
    mint_label: Seq<u8>,
    program_id: Seq<u8>,
    suffix: Seq<u8>,
    limit: nat,
    nonce: nat,
) -> Result<(Seq<u8>, u8, nat), MemeError>
    decreases 256 - nonce,
{
    if nonce >= limit || nonce >= 256 {
        Err(MemeError::VanitySearchExhausted)
    } else {
        match derivation(vanity_seeds(name, mint_label, nonce as u8), program_id) {
            Err(e) => Err(e),
            Ok((a, b)) => if has_suffix(address_bytes_text(a), suffix) {
                Ok((a, b, nonce + 1))
            } else {
                search_from(name, mint_label, program_id, suffix, limit, nonce + 1)
            },
        }
    }
}

/// What `vanity_search` returns.
pub open spec fn vanity_search_result(
    name: Seq<u8>,
    mint_label: Seq<u8>,
    program_id: Seq<u8>,
    suffix: Seq<u8>,
    max_attempts: nat,
) -> Result<(Seq<u8>, u8, nat), MemeError> {
    search_from(name, mint_label, program_id, suffix, max_attempts, 0)
}

/// A successful vanity search.
pub struct VanityMatch {
    /// The derived identifier whose text ends with the suffix.
    pub program_id: [u8; 32],
    /// The bump byte of its derivation.
    pub bump: u8,
    /// How many derivations the search made, the last one included.
    pub attempts: u32,
}

/// Whether `text` ends with `suffix`, byte by byte.
pub fn ends_with(text: &[u8], suffix: &[u8]) -> (r: bool)
    ensures
        r == has_suffix(text@, suffix@),
{
    if suffix.len() > text.len() {
        return false;
    }
    let n: usize = suffix.len();
    let len: usize = text.len();
    let offset: usize = len - n;
    let mut i: usize = 0;
    while i < n
        invariant
            n == suffix@.len(),
            len == text@.len(),
            offset + n == len,
            i <= n,
            forall|j: int| 0 <= j < i ==> text@[offset + j] == suffix@[j],
        decreases n - i,
    {
        if text[offset + i] != suffix[i] {
            assert(text@.subrange(offset as int, text@.len() as int)[i as int] != suffix@[i as int]);
            return false;
        }
        i = i + 1;
    }
    assert(text@.subrange(offset as int, text@.len() as int) =~= suffix@);
    true
}

/// The seed list of the vanity derivation at one nonce.
pub fn vanity_seed_list(name: &[u8], mint_label: &[u8], nonce: u8) -> (r: Vec<Vec<u8>>)
    ensures
        seed_view(&r) == vanity_seeds(name@, mint_label@, nonce),
{
    let mut meme: Vec<u8> = Vec::new();
    meme.push(109u8);
    meme.push(101u8);
    meme.push(109u8);
    meme.push(101u8);
    let mut last: Vec<u8> = Vec::new();
    last.push(nonce);
    let mut r: Vec<Vec<u8>> = Vec::new();
    r.push(meme);
    r.push(vstd::slice::slice_to_vec(name));
    r.push(vstd::slice::slice_to_vec(mint_label));
    r.push(last);
    assert(r@[0]@ =~= meme_seed());
    assert(r@[3]@ =~= seq![nonce]);
    assert(seed_view(&r) =~= vanity_seeds(name@, mint_label@, nonce));
    r
}

/// Scans nonces 0, 1, ... below both `max_attempts` and 256 for the first
/// derivation under `program_id` whose text ends with `suffix`. Exhausting the
/// nonces gives `VanitySearchExhausted`; an identifier that lacks the suffix is
/// never returned.
pub fn vanity_search(
    name: &str,
    mint_label: &str,
    program_id: &[u8; 32],
    suffix: &str,
    max_attempts: u32,
) -> (r: Result<VanityMatch, MemeError>)
    ensures
        match r {
            Ok(m) => vanity_search_result(name.spec_bytes(), mint_label.spec_bytes(), program_id@, suffix.spec_bytes(), max_attempts as nat)
                == Ok::<(Seq<u8>, u8, nat), MemeError>((m.program_id@, m.bump, m.attempts as nat)),
            Err(e) => vanity_search_result(name.spec_bytes(), mint_label.spec_bytes(), program_id@, suffix.spec_bytes(), max_attempts as nat)
                == Err::<(Seq<u8>, u8, nat), MemeError>(e),
        },
        r matches Ok(m) ==> has_suffix(address_bytes_text(m.program_id@), suffix.spec_bytes()),
        r is Ok ==> name.spec_bytes().len() <= 32 && mint_label.spec_bytes().len() <= 32,
{
    let name_bytes = name.as_bytes();
    let mint_bytes = mint_label.as_bytes();
    let suffix_bytes = suffix.as_bytes();
    let ghost n = name.spec_bytes();
    let ghost m = mint_label.spec_bytes();
    let ghost s = suffix.spec_bytes();
    let mut nonce: u32 = 0;
    while nonce < max_attempts && nonce < NONCE_SPACE
        invariant
            nonce <= 256,
            n == name.spec_bytes(),
            m == mint_label.spec_bytes(),
            s == suffix.spec_bytes(),
            name_bytes@ == n,
            mint_bytes@ == m,
            suffix_bytes@ == s,
            vanity_search_result(n, m, program_id@, s, max_attempts as nat)
                == search_from(n, m, program_id@, s, max_attempts as nat, nonce as nat),
        decreases 256 - nonce,
    {
        let seeds = vanity_seed_list(name_bytes, mint_bytes, nonce as u8);
        match derive_address(&seeds, program_id) {
            Err(e) => {
                return Err(e);
            },
            Ok((found, bump)) => {
                let text = address_to_string(&found);
                let text_bytes = text.as_str().as_bytes();
                if ends_with(text_bytes, suffix_bytes) {
                    assert(seed_view(&seeds)[1].len() <= 32);
                    assert(seed_view(&seeds)[2].len() <= 32);
                    return Ok(VanityMatch { program_id: found, bump, attempts: nonce + 1 });
                }
            },
        }
        nonce = nonce + 1;
    }
    Err(MemeError::VanitySearchExhausted)
}

/// Every identifier that the search from `nonce` on returns ends with the suffix.
proof fn lemma_search_from_has_suffix(
    name: Seq<u8>,
    mint_label: Seq<u8>,
    program_id: Seq<u8>,
    suffix: Seq<u8>,
    limit: nat,
    nonce: nat,
)
    ensures
        search_from(name, mint_label, program_id, suffix, limit, nonce) matches Ok((a, b, k))
            ==> has_suffix(address_bytes_text(a), suffix),
    decreases 256 - nonce,
{
    if nonce < limit && nonce < 256 {
        lemma_search_from_has_suffix(name, mint_label, program_id, suffix, limit, nonce + 1);
    }
}

/// A successful vanity search only ever yields an identifier whose text ends
/// with the suffix that was asked for.
pub proof fn lemma_vanity_match_has_suffix(
    name: Seq<u8>,
    mint_label: Seq<u8>,
    program_id: Seq<u8>,
    suffix: Seq<u8>,
    max_attempts: nat,
)
    ensures
        vanity_search_result(name, mint_label, program_id, suffix, max_attempts) matches Ok((a, b, k))
            ==> has_suffix(address_bytes_text(a), suffix),
{
    lemma_search_from_has_suffix(name, mint_label, program_id, suffix, max_attempts, 0);
}

/// The vanity search is reproducible: two searches with the same name, mint
/// label, program, suffix and budget give the same identifier, bump and attempt
/// count, or the same error.
pub proof fn lemma_vanity_search_reproducible(
    name: Seq<u8>,
    mint_label: Seq<u8>,
    program_id: Seq<u8>,
    suffix: Seq<u8>,
    max_attempts: nat,
    first: Result<(Seq<u8>, u8, nat), MemeError>,
    second: Result<(Seq<u8>, u8, nat), MemeError>,
)
    requires
        first == vanity_search_result(name, mint_label, program_id, suffix, max_attempts),
        second == vanity_search_result(name, mint_label, program_id, suffix, max_attempts),
    ensures
        first == second,
{
}

/// The derivation at nonce `n` succeeds.
pub open spec fn nonce_derives(name: Seq<u8>, mint_label: Seq<u8>, program_id: Seq<u8>, n: nat) -> bool {
    derivation(vanity_seeds(name, mint_label, n as u8), program_id) is Ok
}

/// The derivation at nonce `n` succeeds and its text ends with `suffix`.
pub open spec fn nonce_matches(name: Seq<u8>, mint_label: Seq<u8>, program_id: Seq<u8>, suffix: Seq<u8>, n: nat) -> bool {
    derivation(vanity_seeds(name, mint_label, n as u8), program_id) matches Ok((a, b))
        && has_suffix(address_bytes_text(a), suffix)
}

proof fn lemma_search_from_first(
    name: Seq<u8>,
    mint_label: Seq<u8>,
    program_id: Seq<u8>,
    suffix: Seq<u8>,
    limit: nat,
    nonce: nat,
)
    ensures
        search_from(name, mint_label, program_id, suffix, limit, nonce) matches Ok((a, b, k)) ==> {
            &&& nonce < k <= limit
            &&& k <= 256
            &&& derivation(vanity_seeds(name, mint_label, (k - 1) as nat as u8), program_id)
                == Ok::<(Seq<u8>, u8), MemeError>((a, b))
            &&& nonce_matches(name, mint_label, program_id, suffix, (k - 1) as nat)
            &&& forall|n: nat| nonce <= n < k - 1 ==> #[trigger] nonce_derives(name, mint_label, program_id, n)
                && !nonce_matches(name, mint_label, program_id, suffix, n)
        },
        search_from(name, mint_label, program_id, suffix, limit, nonce)
            == Err::<(Seq<u8>, u8, nat), MemeError>(MemeError::VanitySearchExhausted) ==>
            forall|n: nat| nonce <= n < limit && n < 256 ==> #[trigger] nonce_derives(name, mint_label, program_id, n)
                && !nonce_matches(name, mint_label, program_id, suffix, n),
    decreases 256 - nonce,
{
    if nonce < limit && nonce < 256 {
        lemma_search_from_first(name, mint_label, program_id, suffix, limit, nonce + 1);
        let step = derivation(vanity_seeds(name, mint_label, nonce as u8), program_id);
        if step is Ok && !nonce_matches(name, mint_label, program_id, suffix, nonce) {
            assert(nonce_derives(name, mint_label, program_id, nonce));
            assert(search_from(name, mint_label, program_id, suffix, limit, nonce) == search_from(
                name,
                mint_label,
                program_id,
                suffix,
                limit,
                nonce + 1,
            ));
        }
    }
}

/// The vanity search reports the first matching nonce: on success the
/// attempt count is one past the first nonce whose derivation ends with the
/// suffix, every earlier nonce derived without a match, and the identifier and
/// bump are that nonce's derivation. An exhausted search means every nonce
/// within the budget derived without a match.
pub proof fn lemma_vanity_search_first_match(
    name: Seq<u8>,
    mint_label: Seq<u8>,
    program_id: Seq<u8>,
    suffix: Seq<u8>,
    max_attempts: nat,
)
    ensures
        vanity_search_result(name, mint_label, program_id, suffix, max_attempts) matches Ok((a, b, k)) ==> {
            &&& 1 <= k <= max_attempts
            &&& k <= 256
            &&& derivation(vanity_seeds(name, mint_label, (k - 1) as nat as u8), program_id)
                == Ok::<(Seq<u8>, u8), MemeError>((a, b))
            &&& nonce_matches(name, mint_label, program_id, suffix, (k - 1) as nat)
            &&& forall|n: nat| n < k - 1 ==> #[trigger] nonce_derives(name, mint_label, program_id, n)
                && !nonce_matches(name, mint_label, program_id, suffix, n)
        },
        vanity_search_result(name, mint_label, program_id, suffix, max_attempts)
            == Err::<(Seq<u8>, u8, nat), MemeError>(MemeError::VanitySearchExhausted) ==>
            forall|n: nat| n < max_attempts && n < 256 ==> #[trigger] nonce_derives(name, mint_label, program_id, n)
                && !nonce_matches(name, mint_label, program_id, suffix, n),
{
    lemma_search_from_first(name, mint_label, program_id, suffix, max_attempts, 0);
}

} // verus!
