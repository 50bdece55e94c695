use vanity_grinder::permute::capitalization_permutations;
use vanity_grinder::target::{build_target_set, TargetSet, VanityError};

#[test]
fn test_capitalization_permutations() {
    let mut actual = capitalization_permutations("abc");
    let mut expected = vec!["ABC", "aBC", "AbC", "abC", "ABc", "aBc", "Abc", "abc"];
    actual.sort();
    expected.sort();
    assert_eq!(actual, expected);

    let actual = capitalization_permutations("");
    let expected = vec![""];
    assert_eq!(actual, expected);

    let mut actual = capitalization_permutations("X*Y");
    let mut expected = vec!["X*Y", "x*Y", "X*y", "x*y"];
    actual.sort();
    expected.sort();
    assert_eq!(actual, expected);
}

#[test]
fn permutation_count_is_two_to_the_cased_chars() {
    // "aB3" has two cased characters and one digit: 2^2 = 4 entries.
    let perms = capitalization_permutations("aB3");
    assert_eq!(perms.len(), 4);

    // Five cased characters: 2^5 = 32 entries.
    let perms = capitalization_permutations("abcde");
    assert_eq!(perms.len(), 32);

    // No cased characters: a single entry.
    let perms = capitalization_permutations("123*");
    assert_eq!(perms.len(), 1);

    // The empty string gives exactly the empty string.
    let perms = capitalization_permutations("");
    assert_eq!(perms.len(), 1);
    assert_eq!(perms[0], "");
}

#[test]
fn permutations_are_pairwise_distinct() {
    let mut perms = capitalization_permutations("aB3cd");
    let before = perms.len();
    perms.sort();
    perms.dedup();
    assert_eq!(perms.len(), before);
}

#[test]
fn permutations_keep_the_length() {
    let perms = capitalization_permutations("PtMumbai");
    for p in &perms {
        assert_eq!(p.len(), "PtMumbai".len());
    }
}

#[test]
fn target_set_elements_keep_the_vanity_length() {
    let vanity = String::from("PtMumbai");
    let ts = build_target_set(&vanity, true).unwrap();
    assert!(!ts.items.is_empty());
    for item in &ts.items {
        assert_eq!(item.len(), vanity.len());
    }
    // The first two characters are a fixed literal; the remaining six are
    // all cased letters, so the set holds 2^6 entries.
    assert_eq!(ts.items.len(), 64);
    for item in &ts.items {
        assert!(item.starts_with("Pt"));
    }
}

#[test]
fn exact_mode_keeps_the_string_alone() {
    let vanity = String::from("PtWhatever");
    let ts = build_target_set(&vanity, false).unwrap();
    assert_eq!(ts.items, vec![String::from("PtWhatever")]);
}

#[test]
fn short_vanity_is_invalid_input_when_ignoring_case() {
    let vanity = String::from("P");
    assert!(matches!(build_target_set(&vanity, true), Err(VanityError::InvalidInput)));
    let vanity = String::from("");
    assert!(matches!(build_target_set(&vanity, true), Err(VanityError::InvalidInput)));
    // Exactly two characters leave nothing to permute but are accepted.
    let vanity = String::from("Pt");
    let ts = build_target_set(&vanity, true).unwrap();
    assert_eq!(ts.items, vec![String::from("Pt")]);
}

#[test]
fn duplicate_copies_every_element() {
    let ts = build_target_set(&String::from("PtAb"), true).unwrap();
    let copy = ts.duplicate();
    assert_eq!(ts.items, copy.items);
}

#[test]
fn check_wf_decides_well_formedness() {
    let ts = build_target_set(&String::from("PtAb"), true).unwrap();
    assert!(ts.check_wf());
    let empty = TargetSet { items: vec![] };
    assert!(!empty.check_wf());
    let uneven = TargetSet { items: vec![String::from("ab"), String::from("abc")] };
    assert!(!uneven.check_wf());
}
