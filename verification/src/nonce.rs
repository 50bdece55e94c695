//! Nonce generation: a uniformly random value below `10^16`, rendered as
//! exactly sixteen decimal digits and embedded into the fixed comment
//! template that is injected into the searched blob.

use crate::digits::{dec_digits, digits_val, format_fixed_digits, lemma_dec_digits_are_digits,
    lemma_dec_digits_len, lemma_dec_digits_value, pow10};
use vstd::prelude::*;
use vstd::string::StringExecFns;

verus! {

/// Width of the rendered nonce, in decimal digits.
pub const NUM_NONCE_DIGITS: usize = 16;

/// Exclusive upper bound of the nonce value: `10^16`.
pub const MAX_NONCE: u64 = 10_000_000_000_000_000;

/// The nonce comment template around a digit string.
pub open spec fn nonce_text_of(digits: Seq<char>) -> Seq<char> {
    "(* Vanity nonce: "@ + digits + " *)\n"@
}

/// Law: a valid nonce rendering holds exactly sixteen decimal digit
/// characters, left-padded with zeros, and denotes the drawn value itself,
/// which is below `10^16`.
pub proof fn lemma_nonce_digits_shape(n: nat)
    requires
        n < MAX_NONCE,
    ensures
        dec_digits(n, 16).len() == 16,
        forall|i: int|
            0 <= i < 16 ==> '0' <= #[trigger] dec_digits(n, 16)[i] && dec_digits(n, 16)[i] <= '9',
        digits_val(dec_digits(n, 16)) == n,
{
    lemma_dec_digits_len(n, 16);
    lemma_dec_digits_are_digits(n, 16);
    assert(pow10(16) == MAX_NONCE) by {
        reveal_with_fuel(pow10, 17);
    }
    lemma_dec_digits_value(n, 16);
}

#[verifier::external_type_specification]
#[verifier::external_body]
pub struct ExThreadRng(rand::rngs::ThreadRng);

/// Relies on rand's `thread_rng`: a handle to the calling thread's random
/// number generator.
#[verifier::external_body]
pub fn new_thread_rng() -> rand::rngs::ThreadRng {
    rand::thread_rng()
}

/// Relies on num_bigint's `RandBigInt::gen_biguint_range`: a value drawn
/// uniformly from `[0, bound)`, so in particular below the bound.
#[verifier::external_body]
pub fn random_below(rng: &mut rand::rngs::ThreadRng, bound: u64) -> (r: u64)
    requires
        bound > 0,
    ensures
        r < bound,
{
    let lo = num_bigint::BigUint::from(0u64);
    let hi = num_bigint::BigUint::from(bound);
    let n = num_bigint::RandBigInt::gen_biguint_range(rng, &lo, &hi);
    u64::try_from(n).unwrap()
}

/// A fresh random nonce value rendered over exactly sixteen digits.
pub fn mk_nonce_digits(rng: &mut rand::rngs::ThreadRng) -> (r: String)
    ensures
        r@.len() == 16,
        forall|i: int| 0 <= i < 16 ==> '0' <= #[trigger] r@[i] && r@[i] <= '9',
        digits_val(r@) < MAX_NONCE,
        exists|n: u64| n < MAX_NONCE && r@ == dec_digits(n as nat, 16),
{
    let value = random_below(rng, MAX_NONCE);
    let r = format_fixed_digits(value, NUM_NONCE_DIGITS);
    proof {
        lemma_nonce_digits_shape(value as nat);
    }
    r
}

/// The digit string embedded into the fixed nonce comment template.
pub fn mk_nonce(nonce_digits: &String) -> (r: String)
    ensures
        r@ == nonce_text_of(nonce_digits@),
{
    let mut s = String::from_str("(* Vanity nonce: ");
    s.append(nonce_digits.as_str());
    s.append(" *)\n");
    s
}

} // verus!
