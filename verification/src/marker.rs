//! Locating the nonce comment inside the searched blob.
//!
//! The blob is a concatenation of mostly-textual sources that may contain
//! bytes which are not valid text. The marker is therefore searched for over
//! the raw bytes, rightmost occurrence first — the same position a reverse
//! text search would report, but well defined for every blob. A blob with
//! arbitrary non-text bytes ahead of the true marker is a known risk of this
//! scheme: any byte run equal to the marker counts as an occurrence.

use vstd::prelude::*;
use vstd::utf8::encode_utf8;
use vstd::string::StringExecFns;

verus! {

/// The literal that opens a nonce comment.
pub open spec fn marker_chars() -> Seq<char> {
    "(* Vanity nonce:"@
}

/// The marker's bytes, as they stand in the blob.
pub open spec fn marker_bytes() -> Seq<u8> {
    encode_utf8(marker_chars())
}

/// Whether `pat` occurs in `data` starting at position `i`.
pub open spec fn occurs_at(data: Seq<u8>, pat: Seq<u8>, i: int) -> bool {
    &&& 0 <= i
    &&& i + pat.len() <= data.len()
    &&& data.subrange(i, i + pat.len() as int) == pat
}

fn match_at(data: &Vec<u8>, pat: &[u8], i: usize) -> (r: bool)
    requires
        i + pat@.len() <= data@.len(),
    ensures
        r == occurs_at(data@, pat@, i as int),
{
    let n = pat.len();
    let dn = data.len();
    let mut j: usize = 0;
    while j < n
        invariant
            n == pat@.len(),
            dn == data@.len(),
            i + n <= dn,
            j <= n,
            forall|k: int| 0 <= k < j ==> data@[i + k] == pat@[k],
        decreases n - j,
    {
        if data[i + j] != pat[j] {
            assert(data@.subrange(i as int, i + pat@.len() as int)[j as int] != pat@[j as int]);
            return false;
        }
        j += 1;
    }
    proof {
        assert(data@.subrange(i as int, i + pat@.len() as int) =~= pat@);
    }
    true
}

/// The rightmost occurrence of `pat` in `data`, if any.
pub fn rfind_pattern(data: &Vec<u8>, pat: &[u8]) -> (r: Option<usize>)
    requires
        pat@.len() > 0,
    ensures
        match r {
            Some(i) => occurs_at(data@, pat@, i as int) && forall|j: int|
                i < j ==> !occurs_at(data@, pat@, j),
            None => forall|j: int| !occurs_at(data@, pat@, j),
        },
{
    if data.len() < pat.len() {
        return None;
    }
    let mut i: usize = data.len() - pat.len();
    loop
        invariant
            pat@.len() > 0,
            pat@.len() <= data@.len(),
            i <= data@.len() - pat@.len(),
            forall|j: int| i < j ==> !occurs_at(data@, pat@, j),
        decreases i,
    {
        if match_at(data, pat, i) {
            return Some(i);
        }
        if i == 0 {
            return None;
        }
        i -= 1;
    }
}

/// Where the most recent nonce comment starts in the blob, scanning the raw
/// bytes for the rightmost occurrence of the marker.
pub fn find_nonce_marker(data: &Vec<u8>) -> (r: Option<usize>)
    ensures
        match r {
            Some(i) => occurs_at(data@, marker_bytes(), i as int) && forall|j: int|
                i < j ==> !occurs_at(data@, marker_bytes(), j),
            None => forall|j: int| !occurs_at(data@, marker_bytes(), j),
        },
{
    let pat = "(* Vanity nonce:".as_bytes();
    proof {
        reveal_strlit("(* Vanity nonce:");
    }
    rfind_pattern(data, pat)
}

/// The line reported when the blob holds no nonce comment at all.
pub fn marker_not_found_message() -> (r: String)
    ensures
        r@ == "Vanity comment line start '(* Vanity nonce:' is not found "@,
{
    String::from_str("Vanity comment line start '(* Vanity nonce:' is not found ")
}

} // verus!
