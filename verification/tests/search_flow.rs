use vanity_grinder::hashing::{digest_dup, prefix_digest_of};
use vanity_grinder::marker::{find_nonce_marker, marker_not_found_message};
use vanity_grinder::nonce::mk_nonce;
use vanity_grinder::target::build_target_set;
use vanity_grinder::worker::{attempt, search_step, worker_start};

const MARKER: &str = "(* Vanity nonce:";

#[test]
fn forced_nonce_always_reports_its_own_match() {
    // A blob with the fixed 4-byte header, one nonce comment, and a tail.
    let mut blob = vec![0u8, 0, 0, 0];
    blob.extend_from_slice(b"(* Vanity nonce: 0000000000000000 *)\n");
    blob.extend_from_slice(b"rest");

    let start = find_nonce_marker(&blob).expect("the marker is present");
    assert_eq!(start, 4);

    let proto = prefix_digest_of(&blob, start);
    let digits = String::from("0000000000000000");

    // Compute the identifier this exact nonce produces, then search for it
    // as an exact, full-length prefix: the forced attempt must match.
    let (expected_hash, _, _) = attempt(
        &proto,
        &digits,
        &build_target_set(&String::from("x"), false).unwrap(),
    );
    let target = build_target_set(&expected_hash, false).unwrap();
    let (hash, nonce, matched) = attempt(&proto, &digits, &target);
    assert!(matched);
    assert_eq!(hash, expected_hash);
    assert_eq!(nonce, mk_nonce(&digits));
    assert_eq!(nonce.as_bytes(), &blob[4..4 + nonce.len()]);
}

#[test]
fn first_search_step_reports_one_attempt_when_everything_matches() {
    // The empty prefix accepts every identifier, so the very first drawn
    // nonce must be reported with a single attempt on that worker.
    let mut blob = vec![0u8, 0, 0, 0];
    blob.extend_from_slice(b"(* Vanity nonce: 0000000000000000 *)\n");
    let proto = prefix_digest_of(&blob, 4);
    let target = build_target_set(&String::from(""), false).unwrap();

    let mut state = worker_start(3);
    let event = search_step(&mut state, &target, &proto).expect("must match");
    assert_eq!(event.attempts, 1);
    assert_eq!(event.count, 1);
    assert_eq!(event.thread_id, 3);
    assert_eq!(state.count, 0);
    assert_eq!(state.vanity_count, 1);
    assert_eq!(event.nonce, mk_nonce(&event.nonce_digits));
    assert_eq!(event.nonce_digits.len(), 16);

    // A second match arrives with the counters moved on.
    let event = search_step(&mut state, &target, &proto).expect("must match");
    assert_eq!(event.attempts, 1);
    assert_eq!(event.count, 2);
    assert_eq!(state.vanity_count, 2);
}

#[test]
fn impossible_target_never_matches() {
    let mut blob = vec![0u8, 0, 0, 0];
    blob.extend_from_slice(b"payload");
    let proto = prefix_digest_of(&blob, 4);
    // Base58 text never contains '0', so this target cannot be hit.
    let target = build_target_set(&String::from("00000000"), false).unwrap();
    let mut state = worker_start(1);
    for expected in 1..=50u64 {
        assert!(search_step(&mut state, &target, &proto).is_none());
        assert_eq!(state.count, expected);
        assert_eq!(state.vanity_count, 0);
    }
}

#[test]
fn missing_marker_is_reported_and_stops_the_flow() {
    let blob = b"a blob with no comment of the expected shape".to_vec();
    assert!(find_nonce_marker(&blob).is_none());
    assert_eq!(
        marker_not_found_message(),
        "Vanity comment line start '(* Vanity nonce:' is not found "
    );
}

#[test]
fn marker_search_reads_raw_bytes_before_the_marker() {
    // Invalid text bytes ahead of the true marker must not shift the offset.
    let mut blob = vec![0u8, 0, 0, 0, 0xff, 0xfe, 0xc0, 0x80];
    let at = blob.len();
    blob.extend_from_slice(MARKER.as_bytes());
    blob.extend_from_slice(b" 1234567890123456 *)\n tail");
    assert_eq!(find_nonce_marker(&blob), Some(at));
}

#[test]
fn marker_search_takes_the_rightmost_occurrence() {
    let mut blob = Vec::new();
    blob.extend_from_slice(MARKER.as_bytes());
    blob.extend_from_slice(b" first *)\n filler ");
    let second = blob.len();
    blob.extend_from_slice(MARKER.as_bytes());
    blob.extend_from_slice(b" second *)\n");
    assert_eq!(find_nonce_marker(&blob), Some(second));
}

#[test]
fn attempt_duplicates_do_not_disturb_the_shared_accumulator() {
    let mut blob = vec![0u8, 0, 0, 0];
    blob.extend_from_slice(b"shared prefix");
    let proto = prefix_digest_of(&blob, blob.len());
    let target = build_target_set(&String::from("x"), false).unwrap();
    let digits = String::from("5555555555555555");
    let (h1, _, _) = attempt(&proto, &digits, &target);
    let (h2, _, _) = attempt(&proto, &digits, &target);
    assert_eq!(h1, h2);
    let (h3, _, _) = attempt(&digest_dup(&proto), &digits, &target);
    assert_eq!(h1, h3);
}
