use blake2::Digest;
use vanity_grinder::hashing::{
    current_identifier, digest_dup, digest_new, digest_update, get_hash, prefix_digest_of,
};

type Blake2b256 = blake2::Blake2b<blake2::digest::consts::U32>;

/// The identifier computed directly with the outside crates: the 32-byte
/// digest of `payload`, framed with the two version bytes, check-encoded.
fn reference_identifier(payload: &[u8]) -> String {
    let mut h = Blake2b256::new();
    h.update(payload);
    let digest = h.finalize();
    let mut buf = vec![0x02u8, 0xaau8];
    buf.extend_from_slice(&digest);
    bs58::encode(&buf).with_check().into_string()
}

#[test]
fn identifier_matches_a_direct_computation() {
    let prefix = b"some protocol source ".to_vec();
    let nonce = "(* Vanity nonce: 0000000000000042 *)\n";

    let mut d = digest_new();
    digest_update(&mut d, &prefix);
    let hash = get_hash(nonce, d);

    let mut payload = prefix.clone();
    payload.extend_from_slice(nonce.as_bytes());
    assert_eq!(hash, reference_identifier(&payload));
}

#[test]
fn identifier_encoding_is_deterministic() {
    let mut d = digest_new();
    digest_update(&mut d, b"shared prefix bytes");
    let h1 = get_hash("(* Vanity nonce: 1111111111111111 *)\n", digest_dup(&d));
    let h2 = get_hash("(* Vanity nonce: 1111111111111111 *)\n", digest_dup(&d));
    assert_eq!(h1, h2);
    let h3 = get_hash("(* Vanity nonce: 1111111111111112 *)\n", digest_dup(&d));
    assert_ne!(h1, h3);
}

#[test]
fn duplicates_evolve_independently() {
    let mut d = digest_new();
    digest_update(&mut d, b"start");
    let copy = digest_dup(&d);
    digest_update(&mut d, b" and more");
    let h_copy = get_hash("(* Vanity nonce: 0000000000000000 *)\n", copy);
    let h_more = get_hash("(* Vanity nonce: 0000000000000000 *)\n", d);
    assert_ne!(h_copy, h_more);

    let mut fresh = digest_new();
    digest_update(&mut fresh, b"start");
    let h_fresh = get_hash("(* Vanity nonce: 0000000000000000 *)\n", fresh);
    assert_eq!(h_copy, h_fresh);
}

#[test]
fn current_identifier_skips_the_four_byte_header() {
    let mut blob = vec![9u8, 9, 9, 9];
    blob.extend_from_slice(b"the actual hashed payload");
    assert_eq!(current_identifier(&blob), reference_identifier(b"the actual hashed payload"));
    // The header bytes themselves do not matter.
    let mut blob2 = vec![0u8, 0, 0, 0];
    blob2.extend_from_slice(b"the actual hashed payload");
    assert_eq!(current_identifier(&blob2), current_identifier(&blob));
}

#[test]
fn prefix_digest_feeds_bytes_up_to_the_offset() {
    let mut blob = vec![0u8, 0, 0, 0];
    blob.extend_from_slice(b"prefix part");
    blob.extend_from_slice(b"ignored tail");
    let d = prefix_digest_of(&blob, 4 + "prefix part".len());
    let nonce = "(* Vanity nonce: 7777777777777777 *)\n";
    let hash = get_hash(nonce, d);

    let mut payload = b"prefix part".to_vec();
    payload.extend_from_slice(nonce.as_bytes());
    assert_eq!(hash, reference_identifier(&payload));
}
