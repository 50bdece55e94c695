//! Case-permutation expansion of a vanity string.
//!
//! `capitalization_permutations` produces every way of recasing a string:
//! each character with distinct upper and lower case forms contributes two
//! branches, every other character exactly one, so the result holds `2^k`
//! pairwise distinct strings where `k` counts the cased characters.

use crate::chars::{char_has_case, char_to_string, has_case, lower_char, to_lower_char,
    to_upper_char, upper_char};
use vstd::arithmetic::power2::pow2;
use vstd::prelude::*;
use vstd::string::StrSliceExecFns;
use vstd::string::StringExecFns;

verus! {

/// All recasings of one character `c` prepended to each element of `rest`,
/// in order: the uppercase branch first, then, for a cased character, the
/// lowercase branch, before moving on to the next element of `rest`.
pub open spec fn expand_one(c: char, rest: Seq<Seq<char>>) -> Seq<Seq<char>>
    decreases rest.len(),
{
    if rest.len() == 0 {
        Seq::empty()
    } else {
        let branches = if has_case(c) {
            seq![seq![upper_char(c)] + rest[0], seq![lower_char(c)] + rest[0]]
        } else {
            seq![seq![upper_char(c)] + rest[0]]
        };
        branches + expand_one(c, rest.drop_first())
    }
}

/// The full case-permutation expansion of `s`.
pub open spec fn caps_perms(s: Seq<char>) -> Seq<Seq<char>>
    decreases s.len(),
{
    if s.len() == 0 {
        seq![Seq::<char>::empty()]
    } else {
        expand_one(s[0], caps_perms(s.drop_first()))
    }
}

/// How many characters of `s` have distinct upper and lower case forms.
pub open spec fn cased_count(s: Seq<char>) -> nat
    decreases s.len(),
{
    if s.len() == 0 {
        0
    } else {
        (if has_case(s[0]) {
            1nat
        } else {
            0
        }) + cased_count(s.drop_first())
    }
}

/// The number of branches one character contributes.
spec fn branch_count(c: char) -> int {
    if has_case(c) {
        2
    } else {
        1
    }
}

proof fn lemma_expand_one_len(c: char, rest: Seq<Seq<char>>)
    ensures
        expand_one(c, rest).len() == branch_count(c) * rest.len(),
    decreases rest.len(),
{
    if rest.len() > 0 {
        lemma_expand_one_len(c, rest.drop_first());
        if has_case(c) {
            assert(expand_one(c, rest).len() == 2 + 2 * rest.drop_first().len());
            assert(2 * rest.len() == 2 + 2 * (rest.len() - 1)) by (nonlinear_arith);
        } else {
            assert(expand_one(c, rest).len() == 1 + rest.drop_first().len());
        }
    }
}

/// Closed form for the elements of `expand_one`: with a cased character the
/// branches alternate upper, lower over each element of `rest` in turn; with
/// an uncased character each element of `rest` appears once, unchanged but
/// for the prepended character.
proof fn lemma_expand_one_index(c: char, rest: Seq<Seq<char>>, j: int)
    requires
        0 <= j < expand_one(c, rest).len(),
    ensures
        has_case(c) ==> 0 <= j / 2 < rest.len() && expand_one(c, rest)[j] == (if j % 2 == 0 {
            seq![upper_char(c)] + rest[j / 2]
        } else {
            seq![lower_char(c)] + rest[j / 2]
        }),
        !has_case(c) ==> 0 <= j < rest.len() && expand_one(c, rest)[j] == seq![upper_char(c)]
            + rest[j],
    decreases rest.len(),
{
    lemma_expand_one_len(c, rest);
    if rest.len() > 0 {
        let b = branch_count(c);
        if j >= b {
            lemma_expand_one_len(c, rest.drop_first());
            lemma_expand_one_index(c, rest.drop_first(), j - b);
        }
    }
}

proof fn lemma_head_tail(a: char, p: Seq<char>, b: char, q: Seq<char>)
    requires
        seq![a] + p == seq![b] + q,
    ensures
        a == b,
        p == q,
{
    let l = seq![a] + p;
    let r = seq![b] + q;
    assert(l[0] == a && r[0] == b);
    assert(p =~= l.drop_first());
    assert(q =~= r.drop_first());
}

proof fn lemma_expand_one_no_dup(c: char, rest: Seq<Seq<char>>)
    requires
        rest.no_duplicates(),
    ensures
        expand_one(c, rest).no_duplicates(),
{
    let e = expand_one(c, rest);
    assert forall|j: int, k: int| 0 <= j < e.len() && 0 <= k < e.len() && j != k implies e[j]
        != e[k] by {
        lemma_expand_one_index(c, rest, j);
        lemma_expand_one_index(c, rest, k);
        if e[j] == e[k] {
            if has_case(c) {
                let hj = if j % 2 == 0 {
                    upper_char(c)
                } else {
                    lower_char(c)
                };
                let hk = if k % 2 == 0 {
                    upper_char(c)
                } else {
                    lower_char(c)
                };
                lemma_head_tail(hj, rest[j / 2], hk, rest[k / 2]);
                assert(rest[j / 2] == rest[k / 2]);
                assert(j / 2 == k / 2);
                assert(j % 2 != k % 2);
                assert(hj != hk);
            } else {
                lemma_head_tail(upper_char(c), rest[j], upper_char(c), rest[k]);
            }
        }
    }
}

/// Law: the case-permutation expansion of `s` holds exactly `2^k` pairwise
/// distinct strings, where `k` counts the characters of `s` with distinct
/// upper and lower case forms; in particular the empty input yields the one
/// empty string.
pub proof fn lemma_caps_perms_size(s: Seq<char>)
    ensures
        caps_perms(s).len() == pow2(cased_count(s)),
        caps_perms(s).no_duplicates(),
    decreases s.len(),
{
    if s.len() == 0 {
        assert(pow2(0) == 1) by {
            vstd::arithmetic::power2::lemma2_to64();
        }
    } else {
        let rest = caps_perms(s.drop_first());
        lemma_caps_perms_size(s.drop_first());
        lemma_expand_one_len(s[0], rest);
        lemma_expand_one_no_dup(s[0], rest);
        if has_case(s[0]) {
            assert(pow2(cased_count(s)) == 2 * pow2(cased_count(s.drop_first()))) by {
                vstd::arithmetic::power2::lemma_pow2_unfold(cased_count(s));
            }
        }
    }
}

/// Law: every element of the case-permutation expansion of `s` has exactly
/// the length of `s`.
pub proof fn lemma_caps_perms_lengths(s: Seq<char>)
    ensures
        forall|j: int|
            0 <= j < caps_perms(s).len() ==> (#[trigger] caps_perms(s)[j]).len() == s.len(),
    decreases s.len(),
{
    if s.len() > 0 {
        let rest = caps_perms(s.drop_first());
        lemma_caps_perms_lengths(s.drop_first());
        assert forall|j: int| 0 <= j < caps_perms(s).len() implies (#[trigger] caps_perms(s)[j]).len()
            == s.len() by {
            lemma_expand_one_index(s[0], rest, j);
        }
    }
}

/// Every combination is produced: a string that picks, at each position,
/// the upper case form of the character of `s` there, or its lower case
/// form where the two differ, is an element of the expansion of `s`.
pub proof fn lemma_caps_perms_complete(s: Seq<char>, t: Seq<char>)
    requires
        t.len() == s.len(),
        forall|i: int|
            0 <= i < s.len() ==> #[trigger] t[i] == upper_char(s[i]) || (has_case(s[i]) && t[i]
                == lower_char(s[i])),
    ensures
        caps_perms(s).contains(t),
    decreases s.len(),
{
    if s.len() == 0 {
        assert(t =~= Seq::<char>::empty());
        assert(caps_perms(s)[0] == t);
    } else {
        let rest = caps_perms(s.drop_first());
        let t1 = t.drop_first();
        assert forall|i: int| 0 <= i < s.drop_first().len() implies #[trigger] t1[i] == upper_char(
            s.drop_first()[i],
        ) || (has_case(s.drop_first()[i]) && t1[i] == lower_char(s.drop_first()[i])) by {
            assert(t[i + 1] == upper_char(s[i + 1]) || (has_case(s[i + 1]) && t[i + 1]
                == lower_char(s[i + 1])));
        }
        lemma_caps_perms_complete(s.drop_first(), t1);
        let j = choose|j: int| 0 <= j < rest.len() && rest[j] == t1;
        lemma_expand_one_len(s[0], rest);
        assert(t =~= seq![t[0]] + t1);
        if has_case(s[0]) {
            if t[0] == upper_char(s[0]) {
                lemma_expand_one_index(s[0], rest, 2 * j);
                assert(caps_perms(s)[2 * j] == t);
            } else {
                lemma_expand_one_index(s[0], rest, 2 * j + 1);
                assert(caps_perms(s)[2 * j + 1] == t);
            }
        } else {
            assert(t[0] == upper_char(s[0]));
            lemma_expand_one_index(s[0], rest, j);
            assert(caps_perms(s)[j] == t);
        }
    }
}

proof fn lemma_expand_one_concat(c: char, a: Seq<Seq<char>>, b: Seq<Seq<char>>)
    ensures
        expand_one(c, a + b) == expand_one(c, a) + expand_one(c, b),
    decreases a.len(),
{
    if a.len() == 0 {
        assert(a + b =~= b);
        assert(expand_one(c, a) + expand_one(c, b) =~= expand_one(c, b));
    } else {
        assert((a + b).drop_first() =~= a.drop_first() + b);
        lemma_expand_one_concat(c, a.drop_first(), b);
        assert(expand_one(c, a + b) =~= expand_one(c, a) + expand_one(c, b));
    }
}

/// All recasings of `s`, in the order the recursion produces them: for the
/// leading character the uppercase branch first, then for a cased character
/// the lowercase branch, each followed by every recasing of the remainder.
pub fn capitalization_permutations(s: &str) -> (result: Vec<String>)
    requires
        s.is_ascii(),
    ensures
        result.deep_view() == caps_perms(s@),
    decreases s@.len(),
{

    if s.is_empty() {
        let result = vec![String::new()];
        assert(result.deep_view() =~= caps_perms(s@));
        result
    } else {
        let n = s.unicode_len();
        let first = s.get_char(0);
        let rest = s.substring_ascii(1, n);
        assert(rest@ =~= s@.drop_first());
        let sub = capitalization_permutations(rest);
        let upper = to_upper_char(first);
        let lower = to_lower_char(first);
        let cased = char_has_case(first);
        let mut result: Vec<String> = Vec::new();
        let ghost subv = sub.deep_view();
        let mut i: usize = 0;
        while i < sub.len()
            invariant
                sub.deep_view() == subv,
                subv == caps_perms(s@.drop_first()),
                i <= sub.len(),
                upper == upper_char(s@[0]),
                lower == lower_char(s@[0]),
                cased == has_case(s@[0]),
                result.deep_view() == expand_one(s@[0], subv.take(i as int)),
            decreases sub.len() - i,
        {
            let ghost prefix = subv.take(i as int);
            let p = &sub[i];
            let mut up = char_to_string(upper);
            up.append(p.as_str());
            result.push(up);
            if cased {
                let mut low = char_to_string(lower);
                low.append(p.as_str());
                result.push(low);
            }
            proof {
                assert(subv.take(i + 1) =~= prefix + seq![subv[i as int]]);
                lemma_expand_one_concat(s@[0], prefix, seq![subv[i as int]]);
                assert(seq![subv[i as int]].drop_first() =~= Seq::<Seq<char>>::empty());
                assert(expand_one(s@[0], Seq::<Seq<char>>::empty()) =~= Seq::<Seq<char>>::empty());
                assert(result.deep_view() =~= expand_one(s@[0], subv.take(i + 1)));
            }
            i += 1;
        }
        proof {
            assert(subv.take(sub.len() as int) =~= subv);
        }
        result
    }
}

} // verus!
