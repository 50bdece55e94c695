//! ASCII case mapping for single characters.
//!
//! Vanity prefixes are drawn from the checksummed identifier alphabet, which
//! is ASCII, so case mapping only ever has to move between the ASCII letter
//! ranges; every other character is its own upper and lower case form.

use vstd::prelude::*;

verus! {

/// The uppercase form of a character: an ASCII lowercase letter maps to its
/// uppercase counterpart, anything else is unchanged.
pub open spec fn upper_char(c: char) -> char {
    if 'a' <= c && c <= 'z' {
        ((c as u8) - 32) as char
    } else {
        c
    }
}

/// The lowercase form of a character: an ASCII uppercase letter maps to its
/// lowercase counterpart, anything else is unchanged.
pub open spec fn lower_char(c: char) -> char {
    if 'A' <= c && c <= 'Z' {
        ((c as u8) + 32) as char
    } else {
        c
    }
}

/// Whether a character has distinct upper and lower case forms.
pub open spec fn has_case(c: char) -> bool {
    upper_char(c) != lower_char(c)
}

pub fn to_upper_char(c: char) -> (r: char)
    ensures
        r == upper_char(c),
{
    if 'a' <= c && c <= 'z' {
        ((c as u8) - 32) as char
    } else {
        c
    }
}

pub fn to_lower_char(c: char) -> (r: char)
    ensures
        r == lower_char(c),
{
    if 'A' <= c && c <= 'Z' {
        ((c as u8) + 32) as char
    } else {
        c
    }
}

pub fn char_has_case(c: char) -> (r: bool)
    ensures
        r == has_case(c),
{
    ('a' <= c && c <= 'z') || ('A' <= c && c <= 'Z')
}

/// Relies on `String::from` for `char`: the returned string holds exactly
/// that one character.
#[verifier::external_body]
pub fn char_to_string(c: char) -> (r: String)
    ensures
        r@ == seq![c],
{
    String::from(c)
}

} // verus!
