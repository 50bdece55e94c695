use vanity_grinder::digits::{format_fixed_digits, u64_to_string};
use vanity_grinder::nonce::{mk_nonce, mk_nonce_digits, new_thread_rng};

#[test]
fn fixed_width_rendering_pads_with_zeros() {
    assert_eq!(format_fixed_digits(42, 16), "0000000000000042");
    assert_eq!(format_fixed_digits(0, 16), "0000000000000000");
    assert_eq!(format_fixed_digits(9_999_999_999_999_999, 16), "9999999999999999");
    assert_eq!(format_fixed_digits(1_234_567_890_123_456, 16), "1234567890123456");
    assert_eq!(format_fixed_digits(5, 1), "5");
    assert_eq!(format_fixed_digits(5, 0), "");
}

#[test]
fn plain_rendering_has_no_leading_zeros() {
    assert_eq!(u64_to_string(0), "0");
    assert_eq!(u64_to_string(7), "7");
    assert_eq!(u64_to_string(10), "10");
    assert_eq!(u64_to_string(1_234_567_890), "1234567890");
    assert_eq!(u64_to_string(u64::MAX), "18446744073709551615");
}

#[test]
fn nonce_text_embeds_the_digits() {
    let digits = String::from("0123456789012345");
    assert_eq!(mk_nonce(&digits), "(* Vanity nonce: 0123456789012345 *)\n");
}

#[test]
fn drawn_nonces_always_have_sixteen_digits() {
    let mut rng = new_thread_rng();
    for _ in 0..200 {
        let digits = mk_nonce_digits(&mut rng);
        assert_eq!(digits.len(), 16);
        assert!(digits.chars().all(|c| c.is_ascii_digit()));
        let value: u64 = digits.parse().unwrap();
        assert!(value < 10_000_000_000_000_000);
        let nonce = mk_nonce(&digits);
        assert_eq!(nonce.len(), "(* Vanity nonce: ".len() + 16 + " *)\n".len());
        assert!(nonce.starts_with("(* Vanity nonce: "));
        assert!(nonce.ends_with(" *)\n"));
    }
}
