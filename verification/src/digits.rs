//! Decimal rendering of unsigned values.
//!
//! Both the fixed-width, zero-padded form used for nonces and the ordinary
//! variable-width form used for display are defined here, together with the
//! value a digit string denotes, so that rendering can be proved faithful.

use vstd::prelude::*;
use vstd::string::StringExecFns;

verus! {

/// The decimal digit character for `d`.
pub open spec fn digit_char(d: nat) -> char
    recommends
        d < 10,
{
    ((48 + d) as u8) as char
}

/// The value `0` to `9` a digit character denotes.
pub open spec fn digit_val(c: char) -> nat
    recommends
        '0' <= c && c <= '9',
{
    (c as nat - 48) as nat
}

/// `n` rendered in decimal over exactly `width` digits, left-padded with
/// zeros; high digits beyond the width are discarded.
pub open spec fn dec_digits(n: nat, width: nat) -> Seq<char>
    decreases width,
{
    if width == 0 {
        Seq::empty()
    } else {
        dec_digits(n / 10, (width - 1) as nat).push(digit_char(n % 10))
    }
}

/// `n` rendered in decimal with no leading zeros (a single zero for `0`).
pub open spec fn dec_string(n: nat) -> Seq<char>
    decreases n,
{
    if n < 10 {
        seq![digit_char(n)]
    } else {
        dec_string(n / 10).push(digit_char(n % 10))
    }
}

/// The value a digit string denotes, most significant digit first.
pub open spec fn digits_val(s: Seq<char>) -> nat
    decreases s.len(),
{
    if s.len() == 0 {
        0
    } else {
        digits_val(s.drop_last()) * 10 + digit_val(s.last())
    }
}

/// Ten to the power `w`.
pub open spec fn pow10(w: nat) -> nat
    decreases w,
{
    if w == 0 {
        1
    } else {
        10 * pow10((w - 1) as nat)
    }
}

pub proof fn lemma_dec_digits_len(n: nat, width: nat)
    ensures
        dec_digits(n, width).len() == width,
    decreases width,
{
    if width > 0 {
        lemma_dec_digits_len(n / 10, (width - 1) as nat);
    }
}

pub proof fn lemma_dec_digits_are_digits(n: nat, width: nat)
    ensures
        forall|i: int|
            0 <= i < dec_digits(n, width).len() ==> '0' <= #[trigger] dec_digits(n, width)[i]
                && dec_digits(n, width)[i] <= '9',
    decreases width,
{
    if width > 0 {
        lemma_dec_digits_len(n / 10, (width - 1) as nat);
        lemma_dec_digits_are_digits(n / 10, (width - 1) as nat);
        assert('0' <= digit_char(n % 10) && digit_char(n % 10) <= '9');
    }
}

/// A fixed-width rendering of a value below `10^width` denotes that value.
pub proof fn lemma_dec_digits_value(n: nat, width: nat)
    requires
        n < pow10(width),
    ensures
        digits_val(dec_digits(n, width)) == n,
    decreases width,
{
    if width == 0 {
    } else {
        let rest = dec_digits(n / 10, (width - 1) as nat);
        assert(n / 10 < pow10((width - 1) as nat)) by (nonlinear_arith)
            requires
                n < 10 * pow10((width - 1) as nat),
        ;
        lemma_dec_digits_value(n / 10, (width - 1) as nat);
        assert(rest.push(digit_char(n % 10)).drop_last() =~= rest);
        assert(digit_val(digit_char(n % 10)) == n % 10);
        assert((n / 10) * 10 + n % 10 == n) by (nonlinear_arith);
    }
}

/// A variable-width rendering denotes its value and never starts with a
/// superfluous zero.
pub proof fn lemma_dec_string_value(n: nat)
    ensures
        dec_string(n).len() > 0,
        digits_val(dec_string(n)) == n,
        forall|i: int|
            0 <= i < dec_string(n).len() ==> '0' <= #[trigger] dec_string(n)[i] && dec_string(
                n,
            )[i] <= '9',
    decreases n,
{
    if n < 10 {
        let s = dec_string(n);
        assert(s.drop_last() =~= Seq::<char>::empty());
        assert(s.last() == digit_char(n));
        assert(digit_val(digit_char(n)) == n);
        assert(digits_val(s) == digits_val(s.drop_last()) * 10 + digit_val(s.last()));
    } else {
        let rest = dec_string(n / 10);
        lemma_dec_string_value(n / 10);
        assert(rest.push(digit_char(n % 10)).drop_last() =~= rest);
        assert(digit_val(digit_char(n % 10)) == n % 10);
        assert((n / 10) * 10 + n % 10 == n) by (nonlinear_arith);
        assert forall|i: int| 0 <= i < dec_string(n).len() implies '0' <= #[trigger] dec_string(n)[i]
            && dec_string(n)[i] <= '9' by {
            if i < rest.len() {
                assert(dec_string(n)[i] == rest[i]);
            } else {
                assert(dec_string(n)[i] == digit_char(n % 10));
            }
        }
    }
}

fn digit_str(d: u64) -> (r: &'static str)
    requires
        d < 10,
    ensures
        r@ == seq![digit_char(d as nat)],
{
    proof {
        reveal_strlit("0");
        reveal_strlit("1");
        reveal_strlit("2");
        reveal_strlit("3");
        reveal_strlit("4");
        reveal_strlit("5");
        reveal_strlit("6");
        reveal_strlit("7");
        reveal_strlit("8");
        reveal_strlit("9");
    }
    match d {
        0 => "0",
        1 => "1",
        2 => "2",
        3 => "3",
        4 => "4",
        5 => "5",
        6 => "6",
        7 => "7",
        8 => "8",
        _ => "9",
    }
}

/// `n` in decimal over exactly `width` digits, left-padded with zeros.
pub fn format_fixed_digits(n: u64, width: usize) -> (r: String)
    ensures
        r@ == dec_digits(n as nat, width as nat),
    decreases width,
{
    if width == 0 {
        let r = String::new();
        assert(r@ =~= dec_digits(n as nat, 0));
        r
    } else {
        let mut s = format_fixed_digits(n / 10, width - 1);
        s.append(digit_str(n % 10));
        assert(s@ =~= dec_digits(n as nat, width as nat));
        s
    }
}

/// `n` in decimal with no leading zeros.
pub fn u64_to_string(n: u64) -> (r: String)
    ensures
        r@ == dec_string(n as nat),
    decreases n,
{
    if n < 10 {
        let r = String::from_str(digit_str(n));
        r
    } else {
        let mut s = u64_to_string(n / 10);
        s.append(digit_str(n % 10));
        assert(s@ =~= dec_string(n as nat));
        s
    }
}

} // verus!
