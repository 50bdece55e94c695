//! The target set: every identifier prefix the search accepts, built once
//! from the desired vanity string and shared read-only by all workers.

use crate::permute::{capitalization_permutations, caps_perms, lemma_caps_perms_lengths,
    lemma_caps_perms_size};
use vstd::prelude::*;
use vstd::string::StrSliceExecFns;
use vstd::string::StringExecFns;
use vstd::utf8::is_ascii_chars;

verus! {

/// Why a search cannot be set up.
#[derive(Clone, Copy, PartialEq, Eq, Structural, Debug)]
pub enum VanityError {
    /// The vanity string is too short for case-insensitive matching.
    InvalidInput,
}

/// The set of acceptable identifier prefixes. Well-formed sets are
/// non-empty and hold strings of one shared length.
pub struct TargetSet {
    pub items: Vec<String>,
}

impl TargetSet {
    /// The shared length of the acceptable prefixes.
    pub open spec fn prefix_len_spec(&self) -> nat {
        self.items@[0]@.len()
    }

    /// Non-empty and of one shared element length.
    pub open spec fn wf(&self) -> bool {
        &&& self.items@.len() > 0
        &&& forall|i: int|
            0 <= i < self.items@.len() ==> (#[trigger] self.items@[i]@).len()
                == self.prefix_len_spec()
    }

    /// Whether an identifier's leading characters are one of the acceptable
    /// prefixes.
    pub open spec fn contains_prefix(&self, id: Seq<char>) -> bool {
        &&& self.prefix_len_spec() <= id.len()
        &&& exists|i: int|
            0 <= i < self.items@.len() && #[trigger] self.items@[i]@ == id.take(
                self.prefix_len_spec() as int,
            )
    }

    pub fn prefix_len(&self) -> (r: usize)
        requires
            self.wf(),
        ensures
            r == self.prefix_len_spec(),
    {
        self.items[0].as_str().unicode_len()
    }

    /// Test an identifier against the set.
    pub fn matches(&self, id: &String) -> (r: bool)
        requires
            self.wf(),
        ensures
            r == self.contains_prefix(id@),
    {
        let mut i: usize = 0;
        let n = self.items.len();
        while i < n
            invariant
                self.wf(),
                n == self.items@.len(),
                i <= n,
                forall|j: int|
                    0 <= j < i ==> !(self.prefix_len_spec() <= id@.len()
                        && #[trigger] self.items@[j]@ == id@.take(self.prefix_len_spec() as int)),
            decreases n - i,
        {
            if is_prefix_of(&self.items[i], id) {
                return true;
            }
            i += 1;
        }
        false
    }

    /// Decide well-formedness at run time, for callers outside the proofs.
    pub fn check_wf(&self) -> (r: bool)
        ensures
            r == self.wf(),
    {
        if self.items.len() == 0 {
            return false;
        }
        let plen = self.items[0].as_str().unicode_len();
        let mut i: usize = 0;
        while i < self.items.len()
            invariant
                self.items@.len() > 0,
                plen == self.prefix_len_spec(),
                i <= self.items@.len(),
                forall|j: int|
                    0 <= j < i ==> (#[trigger] self.items@[j]@).len() == self.prefix_len_spec(),
            decreases self.items@.len() - i,
        {
            if self.items[i].as_str().unicode_len() != plen {
                return false;
            }
            i += 1;
        }
        true
    }

    /// An independent copy, element for element.
    pub fn duplicate(&self) -> (r: TargetSet)
        ensures
            r.items@ == self.items@,
    {
        let mut items: Vec<String> = Vec::new();
        let mut i: usize = 0;
        while i < self.items.len()
            invariant
                i <= self.items@.len(),
                items@ == self.items@.take(i as int),
            decreases self.items@.len() - i,
        {
            items.push(self.items[i].clone());
            proof {
                assert(items@ =~= self.items@.take(i + 1));
            }
            i += 1;
        }
        proof {
            assert(self.items@.take(self.items@.len() as int) =~= self.items@);
        }
        TargetSet { items }
    }
}

/// Whether `p` is a leading substring of `s`, compared character by
/// character.
fn is_prefix_of(p: &String, s: &String) -> (r: bool)
    ensures
        r == (p@.len() <= s@.len() && s@.take(p@.len() as int) == p@),
{
    let pl = p.as_str().unicode_len();
    let sl = s.as_str().unicode_len();
    if pl > sl {
        return false;
    }
    let mut i: usize = 0;
    while i < pl
        invariant
            pl == p@.len(),
            sl == s@.len(),
            pl <= sl,
            i <= pl,
            forall|j: int| 0 <= j < i ==> p@[j] == s@[j],
        decreases pl - i,
    {
        let pc = p.as_str().get_char(i);
        let sc = s.as_str().get_char(i);
        if pc != sc {
            assert(s@.take(pl as int)[i as int] == s@[i as int]);
            return false;
        }
        i += 1;
    }
    proof {
        assert(s@.take(pl as int) =~= p@);
    }
    true
}

/// Each recasing prepended with the fixed literal head.
pub open spec fn prefixed_with(head: Seq<char>, perms: Seq<Seq<char>>) -> Seq<Seq<char>> {
    perms.map_values(|p: Seq<char>| head + p)
}

/// Expand a vanity string into its target set.
///
/// Exact matching accepts the string itself alone. Case-insensitive matching
/// keeps the first two characters as a fixed literal and accepts every
/// recasing of the remainder; it needs at least those two characters, and a
/// shorter string is rejected as invalid input.
pub fn build_target_set(vanity: &String, ignore_case: bool) -> (r: Result<TargetSet, VanityError>)
    requires
        ignore_case ==> is_ascii_chars(vanity@),
    ensures
        !ignore_case ==> (r matches Ok(ts) && ts.items.deep_view() == seq![vanity@]),
        ignore_case && vanity@.len() < 2 ==> r == Err::<TargetSet, VanityError>(
            VanityError::InvalidInput,
        ),
        ignore_case && vanity@.len() >= 2 ==> (r matches Ok(ts) && ts.items.deep_view()
            == prefixed_with(vanity@.take(2), caps_perms(vanity@.skip(2)))),
        r matches Ok(ts) ==> ts.wf(),
        r matches Ok(ts) ==> forall|i: int|
            0 <= i < ts.items@.len() ==> (#[trigger] ts.items@[i]@).len() == vanity@.len(),
{
    if !ignore_case {
        let mut items: Vec<String> = Vec::new();
        items.push(vanity.clone());
        let ts = TargetSet { items };
        proof {
            assert(ts.items.deep_view() =~= seq![vanity@]);
        }
        Ok(ts)
    } else {
        let n = vanity.as_str().unicode_len();
        if n < 2 {
            return Err(VanityError::InvalidInput);
        }
        let head = vanity.as_str().substring_ascii(0, 2);
        let tail = vanity.as_str().substring_ascii(2, n);
        proof {
            assert(tail@ =~= vanity@.skip(2));
        }
        let perms = capitalization_permutations(tail);
        let ghost permsv = perms.deep_view();
        let mut items: Vec<String> = Vec::new();
        let mut i: usize = 0;
        while i < perms.len()
            invariant
                perms.deep_view() == permsv,
                permsv == caps_perms(vanity@.skip(2)),
                head@ == vanity@.take(2),
                i <= perms@.len(),
                items.deep_view() == prefixed_with(head@, permsv.take(i as int)),
            decreases perms@.len() - i,
        {
            let mut item = String::from_str(head);
            item.append(perms[i].as_str());
            let ghost itemv = item@;
            let ghost prev = items.deep_view();
            items.push(item);
            proof {
                assert(itemv == head@ + permsv[i as int]);
                let cur = items.deep_view();
                let goal = prefixed_with(head@, permsv.take(i + 1));
                assert(prev.len() == i);
                assert(items@.len() == i + 1);
                assert(cur.len() == i + 1 && goal.len() == i + 1);
                assert forall|k: int| 0 <= k < i + 1 implies cur[k] == goal[k] by {
                    assert(goal[k] == head@ + permsv.take(i + 1)[k]);
                    if k < i {
                        assert(cur[k] == prev[k]);
                        assert(prev[k] == prefixed_with(head@, permsv.take(i as int))[k]);
                        assert(prefixed_with(head@, permsv.take(i as int))[k] == head@
                            + permsv.take(i as int)[k]);
                    } else {
                        assert(cur[k] == itemv);
                    }
                }
                assert(cur =~= goal);
            }
            i += 1;
        }
        proof {
            assert(permsv.take(permsv.len() as int) =~= permsv);
            lemma_caps_perms_size(vanity@.skip(2));
            lemma_caps_perms_lengths(vanity@.skip(2));
            assert(vanity@.skip(2).len() == vanity@.len() - 2);
        }
        let ts = TargetSet { items };
        proof {
            assert(ts.items@.len() == permsv.len());
            assert(permsv.len() > 0) by {
                vstd::arithmetic::power2::lemma_pow2_pos(
                    crate::permute::cased_count(vanity@.skip(2)),
                );
            }
            assert forall|i2: int| 0 <= i2 < ts.items@.len() implies (#[trigger] ts.items@[i2]@).len()
                == vanity@.len() by {
                assert(ts.items.deep_view() == prefixed_with(head@, permsv));
                assert(prefixed_with(head@, permsv)[i2] == head@ + permsv[i2]);
                assert(ts.items@[i2]@ == ts.items.deep_view()[i2]);
                assert(ts.items@[i2]@ == vanity@.take(2) + permsv[i2]);
                assert(permsv[i2].len() == vanity@.skip(2).len());
            }
            assert(ts.wf());
        }
        Ok(ts)
    }
}

} // verus!
