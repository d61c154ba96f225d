use meme_template::address::{address_to_string, derive_address, MOTHERSHIP_PROGRAM_ID};
use meme_template::client::{spmp_mint_for, HandshakeEvent, MemeTemplateClient};
use meme_template::error::MemeError;
use meme_template::keys::{generate_keypair, public_key_of};
use meme_template::search::{ends_with, vanity_search, vanity_seed_list, SPMP_SUFFIX};
use meme_template::signing::{encode_swap, sign_swap_order};

fn doge_seeds(nonce: u8) -> Vec<Vec<u8>> {
    vanity_seed_list(b"Doge", b"WOWSPMP", nonce)
}

#[test]
fn namespace_id_text() {
    assert_eq!(
        address_to_string(&MOTHERSHIP_PROGRAM_ID),
        "JBjKCmvSK3dMPfKk1WGD8nZfw8yAZHtuZ3GLo7NpCHX7"
    );
}

#[test]
fn seed_list_layout() {
    let seeds = vanity_seed_list(b"ab", b"CD", 7);
    assert_eq!(seeds, vec![b"meme".to_vec(), b"ab".to_vec(), b"CD".to_vec(), vec![7u8]]);
}

#[test]
fn derivation_exact_values() {
    let (id, bump) = derive_address(&doge_seeds(0), &MOTHERSHIP_PROGRAM_ID).unwrap();
    assert_eq!(
        id,
        [
            100, 23, 68, 142, 5, 12, 75, 228, 159, 162, 158, 244, 218, 234, 62, 33, 213, 101, 127, 37,
            132, 6, 79, 27, 173, 29, 93, 4, 179, 205, 102, 132
        ]
    );
    assert_eq!(bump, 254);
    assert_eq!(address_to_string(&id), "7jiMBSCHH1EV5DJE3yr1xbAi4fggw7fBzyLvnCo5jo23");
    let (id2, bump2) = derive_address(&doge_seeds(2), &MOTHERSHIP_PROGRAM_ID).unwrap();
    assert_eq!(address_to_string(&id2), "DBcBNEhHceVu14gUpdvwR1M63pkBpZ6JCqjVoCeXKnR6");
    assert_eq!(bump2, 255);
    let base = vec![b"contract".to_vec(), vec![0u8; 32]];
    let (b, bb) = derive_address(&base, &MOTHERSHIP_PROGRAM_ID).unwrap();
    assert_eq!(address_to_string(&b), "9nDwNdzwSCTwxGcTsGyXSgnUaAiA1FdywgBKxDeHdXtg");
    assert_eq!(bb, 254);
}

#[test]
fn derivation_is_deterministic() {
    let a = derive_address(&doge_seeds(5), &MOTHERSHIP_PROGRAM_ID).unwrap();
    let b = derive_address(&doge_seeds(5), &MOTHERSHIP_PROGRAM_ID).unwrap();
    assert_eq!(a, b);
}

#[test]
fn derivation_changes_with_one_seed_byte() {
    let a = derive_address(&vanity_seed_list(b"Doge", b"WOWSPMP", 0), &MOTHERSHIP_PROGRAM_ID).unwrap();
    let b = derive_address(&vanity_seed_list(b"Dogf", b"WOWSPMP", 0), &MOTHERSHIP_PROGRAM_ID).unwrap();
    assert_ne!(a.0, b.0);
}

#[test]
fn derivation_refuses_long_seed() {
    let seeds = vec![vec![1u8; 33]];
    assert_eq!(derive_address(&seeds, &MOTHERSHIP_PROGRAM_ID), Err(MemeError::DerivationExhausted));
}

#[test]
fn derivation_refuses_too_many_seeds() {
    let seeds = vec![vec![1u8]; 16];
    assert_eq!(derive_address(&seeds, &MOTHERSHIP_PROGRAM_ID), Err(MemeError::DerivationExhausted));
    let fifteen = vec![vec![1u8]; 15];
    assert!(derive_address(&fifteen, &MOTHERSHIP_PROGRAM_ID).is_ok());
}

#[test]
fn suffix_matching() {
    assert!(ends_with(b"abcSPMP", b"SPMP"));
    assert!(ends_with(b"SPMP", b"SPMP"));
    assert!(ends_with(b"abc", b""));
    assert!(!ends_with(b"PMP", b"SPMP"));
    assert!(!ends_with(b"abcSPMQ", b"SPMP"));
    assert!(!ends_with(b"", b"a"));
}

#[test]
fn search_empty_suffix_takes_first_nonce() {
    let m = vanity_search("Doge", "WOWSPMP", &MOTHERSHIP_PROGRAM_ID, "", 256).unwrap();
    assert_eq!(m.attempts, 1);
    assert_eq!(m.bump, 254);
    assert_eq!(address_to_string(&m.program_id), "7jiMBSCHH1EV5DJE3yr1xbAi4fggw7fBzyLvnCo5jo23");
}

#[test]
fn search_finds_later_nonce() {
    let m = vanity_search("Doge", "WOWSPMP", &MOTHERSHIP_PROGRAM_ID, "Av", 256).unwrap();
    assert_eq!(m.attempts, 2);
    assert_eq!(m.bump, 253);
    assert_eq!(address_to_string(&m.program_id), "Hfbs9yaT2DdjunuzcqbLpZzNNjNdJcNdUi5MMRqLasAv");
    let m3 = vanity_search("Doge", "WOWSPMP", &MOTHERSHIP_PROGRAM_ID, "nR6", 256).unwrap();
    assert_eq!(m3.attempts, 3);
    assert!(address_to_string(&m3.program_id).ends_with("nR6"));
}

#[test]
fn search_respects_budget() {
    assert!(matches!(
        vanity_search("Doge", "WOWSPMP", &MOTHERSHIP_PROGRAM_ID, "nR6", 2),
        Err(MemeError::VanitySearchExhausted)
    ));
    assert!(matches!(
        vanity_search("Doge", "WOWSPMP", &MOTHERSHIP_PROGRAM_ID, "", 0),
        Err(MemeError::VanitySearchExhausted)
    ));
}

#[test]
fn search_is_reproducible() {
    let a = vanity_search("Doge", "WOWSPMP", &MOTHERSHIP_PROGRAM_ID, "v", 256);
    let b = vanity_search("Doge", "WOWSPMP", &MOTHERSHIP_PROGRAM_ID, "v", 256);
    match (a, b) {
        (Ok(x), Ok(y)) => {
            assert_eq!(x.program_id, y.program_id);
            assert_eq!(x.bump, y.bump);
            assert_eq!(x.attempts, y.attempts);
            assert!(address_to_string(&x.program_id).ends_with("v"));
        }
        (Err(x), Err(y)) => assert_eq!(x, y),
        _ => panic!("two searches disagree"),
    }
}

#[test]
fn search_reports_exhaustion_for_unmatched_suffix() {
    // "0" is not in the base-58 alphabet, so no identifier text ends with it.
    assert!(matches!(
        vanity_search("Doge", "WOWSPMP", &MOTHERSHIP_PROGRAM_ID, "0", 256),
        Err(MemeError::VanitySearchExhausted)
    ));
}

#[test]
fn search_reports_failed_derivation() {
    let long_name = "a".repeat(33);
    assert!(matches!(
        vanity_search(&long_name, "WOWSPMP", &MOTHERSHIP_PROGRAM_ID, SPMP_SUFFIX, 256),
        Err(MemeError::DerivationExhausted)
    ));
}

#[test]
fn mint_label_from_symbol() {
    assert_eq!(spmp_mint_for("wow"), "WOWSPMP");
    assert_eq!(spmp_mint_for("Doge"), "DOGESPMP");
    assert_eq!(spmp_mint_for(""), "SPMP");
}

#[test]
fn public_key_of_zero_secret() {
    // The ed25519 public key of the all-zero seed (RFC 8032 key derivation).
    let pk = public_key_of(&[0u8; 32]);
    assert_eq!(address_to_string(&pk), "4zvwRjXUKGfvwnParsHAS3HuSVzV5cA4McphgmoCtajS");
    assert_ne!(pk, [0u8; 32]);
}

#[test]
fn generated_keypair_matches() {
    let (sk, pk) = generate_keypair().unwrap();
    assert_eq!(public_key_of(&sk), pk);
}

#[test]
fn swap_encoding_layout() {
    let rotator = [9u8; 32];
    let msg = encode_swap(&rotator, 0x0102030405060708, true, 5, 0xff);
    let mut expected = vec![8u8, 7, 6, 5, 4, 3, 2, 1, 1, 5, 0, 0, 0, 0, 0, 0, 0, 0xff, 0, 0, 0, 0, 0, 0, 0];
    expected.extend_from_slice(&rotator);
    assert_eq!(msg, expected);
    let sell = encode_swap(&rotator, 0x0102030405060708, false, 5, 0xff);
    assert_eq!(sell[8], 0);
    assert_eq!(sell.len(), 57);
}

#[test]
fn swap_signature_deterministic_and_sensitive() {
    let rotator = [3u8; 32];
    let a = sign_swap_order(&rotator, 1000, true, 900, 1);
    let b = sign_swap_order(&rotator, 1000, true, 900, 1);
    assert_eq!(a, b);
    assert_eq!(a.len(), 48);
    assert_ne!(a, sign_swap_order(&rotator, 1000, false, 900, 1));
    assert_ne!(a, sign_swap_order(&rotator, 1001, true, 900, 1));
    assert_ne!(a, sign_swap_order(&rotator, 1000, true, 901, 1));
    assert_ne!(a, sign_swap_order(&rotator, 1000, true, 900, 2));
    assert_ne!(a, sign_swap_order(&[4u8; 32], 1000, true, 900, 1));
}

#[test]
fn handshake_event_layout() {
    let event = HandshakeEvent {
        mothership: [1u8; 32],
        meme_program_id: [2u8; 32],
        deployer: [3u8; 32],
        spmp_mint: "WOWSPMP".to_string(),
    };
    let bytes = event.to_bytes();
    let mut expected = vec![1u8; 32];
    expected.extend_from_slice(&[2u8; 32]);
    expected.extend_from_slice(&[3u8; 32]);
    expected.extend_from_slice(&[7, 0, 0, 0]);
    expected.extend_from_slice(b"WOWSPMP");
    assert_eq!(bytes, expected);
}

#[test]
fn fresh_client_has_no_vault() {
    let client = MemeTemplateClient::new().unwrap();
    assert!(!client.is_handshaken());
    assert_eq!(client.get_vanity_id(), None);
    assert_eq!(client.get_spmp_mint(), None);
    assert_eq!(client.get_rotator_pk(), None);
}

#[test]
fn operations_need_a_vault() {
    let mut client = MemeTemplateClient::new().unwrap();
    assert_eq!(client.rotate_keys(1_000_000), Err(MemeError::VaultNotInitialized));
    assert_eq!(client.sign_swap(1, true, 1, 1), Err(MemeError::VaultNotInitialized));
}

#[test]
fn handshake_doge_wow() {
    let mut client = MemeTemplateClient::new().unwrap();
    assert_eq!(spmp_mint_for("wow"), "WOWSPMP");
    match client.create_token_and_handshake("Doge", "wow", 1_700_000_000) {
        Ok(out) => {
            assert!(client.is_handshaken());
            assert_eq!(out.spmp_mint, "WOWSPMP");
            assert!(out.vanity_program_id.ends_with("SPMP"));
            assert_eq!(client.get_vanity_id(), Some(out.vanity_program_id.clone()));
        }
        Err(e) => {
            assert_eq!(e, MemeError::VanitySearchExhausted);
            assert!(!client.is_handshaken());
            assert_eq!(client.get_vanity_id(), None);
        }
    }
}

fn handshaken_client(now: i64) -> MemeTemplateClient {
    let mut client = MemeTemplateClient::new().unwrap();
    client.create_token_and_handshake("Doge", "u624", now).unwrap();
    client
}

#[test]
fn search_finds_spmp_suffix() {
    let m = vanity_search("Doge", "U624SPMP", &MOTHERSHIP_PROGRAM_ID, SPMP_SUFFIX, 256).unwrap();
    assert_eq!(m.attempts, 109);
    assert_eq!(m.bump, 253);
    assert_eq!(address_to_string(&m.program_id), "2fiPqJXQW6GYtGVU3uZZTNVhCb96zegzjdGAwVgnSPMP");
}

#[test]
fn handshake_success_builds_vault() {
    let mut client = MemeTemplateClient::new().unwrap();
    let out = client.create_token_and_handshake("Doge", "u624", 1_000).unwrap();
    assert!(client.is_handshaken());
    assert_eq!(out.vanity_program_id, "2fiPqJXQW6GYtGVU3uZZTNVhCb96zegzjdGAwVgnSPMP");
    assert_eq!(out.spmp_mint, "U624SPMP");
    assert_eq!(client.get_vanity_id(), Some(out.vanity_program_id.clone()));
    assert_eq!(client.get_spmp_mint(), Some("U624SPMP".to_string()));
    assert_eq!(client.get_rotator_pk(), Some(out.rotator_pk.clone()));
    assert_ne!(out.mothership_pda, out.vanity_program_id);
    assert_eq!(out.event.len(), 32 * 3 + 4 + 8);
    assert_eq!(&out.event[0..32], &MOTHERSHIP_PROGRAM_ID[..]);
    let m = vanity_search("Doge", "U624SPMP", &MOTHERSHIP_PROGRAM_ID, SPMP_SUFFIX, 256).unwrap();
    assert_eq!(&out.event[32..64], &m.program_id[..]);
    assert_eq!(&out.event[96..100], &[8, 0, 0, 0]);
    assert_eq!(&out.event[100..], b"U624SPMP");
}

#[test]
fn handshake_failed_derivation_keeps_state() {
    let mut client = MemeTemplateClient::new().unwrap();
    let long_name = "n".repeat(40);
    assert!(matches!(
        client.create_token_and_handshake(&long_name, "u624", 1_000),
        Err(MemeError::DerivationExhausted)
    ));
    assert!(!client.is_handshaken());
}

#[test]
fn rotation_is_time_gated() {
    let t0: i64 = 1_000_000;
    let mut client = handshaken_client(t0);
    let pk0 = client.get_rotator_pk().unwrap();
    assert_eq!(client.rotate_keys(t0), Ok(false));
    assert_eq!(client.rotate_keys(t0 + 3599), Ok(false));
    assert_eq!(client.get_rotator_pk(), Some(pk0.clone()));
    assert_eq!(client.rotate_keys(t0 + 3600), Ok(true));
    let pk1 = client.get_rotator_pk().unwrap();
    assert_ne!(pk0, pk1);
    assert_eq!(client.rotate_keys(t0 + 3600 + 3599), Ok(false));
    assert_eq!(client.get_rotator_pk(), Some(pk1));
    assert_eq!(client.rotate_keys(t0 + 7200), Ok(true));
}

#[test]
fn rotation_twice_within_an_hour() {
    let t0: i64 = 50_000;
    let mut client = handshaken_client(t0);
    let now = t0 + 4000;
    assert_eq!(client.rotate_keys(now), Ok(true));
    assert_eq!(client.rotate_keys(now), Ok(false));
    assert_eq!(client.rotate_keys(now + 10), Ok(false));
}

#[test]
fn rotation_ignores_clock_going_back() {
    let mut client = handshaken_client(i64::MAX);
    assert_eq!(client.rotate_keys(i64::MIN), Ok(false));
    assert_eq!(client.rotate_keys(i64::MAX - 1), Ok(false));
}

#[test]
fn rotation_far_in_the_future() {
    let mut client = handshaken_client(i64::MIN);
    assert_eq!(client.rotate_keys(i64::MAX), Ok(true));
}

#[test]
fn signing_with_vault() {
    let t0: i64 = 10;
    let mut client = handshaken_client(t0);
    let a = client.sign_swap(500, true, 400, 7).unwrap();
    assert_eq!(a.len(), 48);
    assert_eq!(client.sign_swap(500, true, 400, 7).unwrap(), a);
    assert_ne!(client.sign_swap(500, false, 400, 7).unwrap(), a);
    assert_eq!(client.rotate_keys(t0 + 3600), Ok(true));
    assert_ne!(client.sign_swap(500, true, 400, 7).unwrap(), a);
}

#[test]
fn second_handshake_is_refused() {
    let t0: i64 = 7_000;
    let mut client = handshaken_client(t0);
    let id = client.get_vanity_id();
    let pk = client.get_rotator_pk();
    assert!(matches!(
        client.create_token_and_handshake("Doge", "u624", t0 - 5),
        Err(MemeError::VaultAlreadyInitialized)
    ));
    assert_eq!(client.get_vanity_id(), id);
    assert_eq!(client.get_rotator_pk(), pk);
    assert_eq!(client.rotate_keys(t0 + 3599), Ok(false));
}
