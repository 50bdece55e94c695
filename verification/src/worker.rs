//! One worker's search state and search step.
//!
//! A worker repeatedly draws a random nonce, completes a duplicate of the
//! shared prefix accumulator with it, and tests the resulting identifier
//! against the target set. Each pass of that loop is the verified
//! [`search_step`]; the unbounded loop around it, and the channel that
//! carries match events to the reporter, stand with the process glue, since
//! a search that runs until the process dies admits no termination measure.

use crate::digits::digits_val;
use crate::hashing::{digest_dup, digest_fed, get_hash, identifier_of, PrefixDigest};
use crate::nonce::{mk_nonce, mk_nonce_digits, nonce_text_of, MAX_NONCE};
use crate::rate::{calc_rate, rate_of, Rate};
use crate::target::TargetSet;
use vstd::prelude::*;

verus! {

/// One successful match, sent from a worker to the reporter.
pub struct Vanity {
    /// The full identifier found.
    pub hash: String,
    /// The whole nonce comment that produced it.
    pub nonce: String,
    /// The bare sixteen digits of the nonce.
    pub nonce_digits: String,
    /// Attempts on this worker since its previous match.
    pub attempts: u64,
    /// Whole seconds on this worker since its previous match.
    pub seconds_since_last: u64,
    /// This worker's cumulative match rate.
    pub vanity_rate: Rate,
    /// This worker's cumulative match count.
    pub count: u64,
    /// Which worker found it.
    pub thread_id: u16,
}

#[verifier::external_type_specification]
#[verifier::external_body]
pub struct ExInstant(std::time::Instant);

/// Relies on `Instant::now`: an opaque monotonic timestamp; nothing is
/// assumed of the clock.
#[verifier::external_body]
pub fn instant_now() -> std::time::Instant {
    std::time::Instant::now()
}

/// Relies on `Instant::elapsed` and `Duration::as_secs`: the whole seconds
/// since the timestamp; nothing is assumed of the clock's progress.
#[verifier::external_body]
pub fn elapsed_secs(t: &std::time::Instant) -> u64 {
    t.elapsed().as_secs()
}

/// A counter stepped by one, rolling over at its limit.
pub open spec fn next_count(c: u64) -> u64 {
    if c == u64::MAX {
        0u64
    } else {
        (c + 1) as u64
    }
}

/// Whether the nonce comment for `digits` turns a prefix into an identifier
/// the target set accepts.
pub open spec fn nonce_hits(prefix: Seq<u8>, digits: Seq<char>, ts: TargetSet) -> bool {
    ts.contains_prefix(identifier_of(prefix, nonce_text_of(digits)))
}

/// One search attempt: the nonce comment for `nonce_digits` completes a
/// duplicate of the prefix accumulator, and the attempt matches exactly when
/// the identifier's leading characters are in the target set.
pub fn attempt(proto_hash: &PrefixDigest, nonce_digits: &String, target: &TargetSet) -> (r: (
    String,
    String,
    bool,
))
    requires
        target.wf(),
    ensures
        r.1@ == nonce_text_of(nonce_digits@),
        r.0@ == identifier_of(digest_fed(*proto_hash), r.1@),
        r.2 == target.contains_prefix(r.0@),
        r.2 == nonce_hits(digest_fed(*proto_hash), nonce_digits@, *target),
{
    let nonce = mk_nonce(nonce_digits);
    let hash = get_hash(nonce.as_str(), digest_dup(proto_hash));
    let matched = target.matches(&hash);
    (hash, nonce, matched)
}

/// The state a worker owns exclusively: its attempt and match counters, its
/// timers, and its thread-local random source.
pub struct WorkerState {
    /// Which worker this is.
    pub thread_id: u16,
    /// Attempts since the previous match.
    pub count: u64,
    /// Matches so far on this worker.
    pub vanity_count: u64,
    /// When the worker started.
    pub t0: std::time::Instant,
    /// When the previous match was found (or the start).
    pub start_time: std::time::Instant,
    /// The worker's own random source.
    pub rng: rand::rngs::ThreadRng,
}

/// A fresh worker with zeroed counters and freshly started timers.
pub fn worker_start(thread_id: u16) -> (w: WorkerState)
    ensures
        w.thread_id == thread_id,
        w.count == 0,
        w.vanity_count == 0,
{
    WorkerState {
        thread_id,
        count: 0,
        vanity_count: 0,
        t0: instant_now(),
        start_time: instant_now(),
        rng: crate::nonce::new_thread_rng(),
    }
}

/// One pass of the worker loop: draw a nonce, test it, and on a match
/// package the event and reset the per-match counter and timer.
///
/// A match event pins the identifier to the attempted nonce, the nonce to
/// its sixteen digits, and the counters to this worker's state; a missed
/// pass only advances the attempt counter, and some drawn nonce indeed
/// missed the target set.
pub fn search_step(state: &mut WorkerState, vanity_set: &TargetSet, hasher: &PrefixDigest) -> (r:
    Option<Vanity>)
    requires
        vanity_set.wf(),
    ensures
        final(state).thread_id == old(state).thread_id,
        match r {
            Some(v) => {
                &&& v.nonce@ == nonce_text_of(v.nonce_digits@)
                &&& v.nonce_digits@.len() == 16
                &&& digits_val(v.nonce_digits@) < MAX_NONCE
                &&& v.hash@ == identifier_of(digest_fed(*hasher), v.nonce@)
                &&& vanity_set.contains_prefix(v.hash@)
                &&& v.attempts == next_count(old(state).count)
                &&& v.count == next_count(old(state).vanity_count)
                &&& v.thread_id == old(state).thread_id
                &&& (exists|es: u64| v.vanity_rate == rate_of(v.count, es))
                &&& final(state).count == 0
                &&& final(state).vanity_count == next_count(old(state).vanity_count)
            },
            None => {
                &&& final(state).count == next_count(old(state).count)
                &&& final(state).vanity_count == old(state).vanity_count
                &&& exists|d: Seq<char>|
                    d.len() == 16 && !(#[trigger] nonce_hits(digest_fed(*hasher), d, *vanity_set))
            },
        },
{
    let nonce_digits = mk_nonce_digits(&mut state.rng);
    let (hash, nonce, matched) = attempt(hasher, &nonce_digits, vanity_set);
    state.count = if state.count == u64::MAX {
        0
    } else {
        state.count + 1
    };
    if matched {
        state.vanity_count = if state.vanity_count == u64::MAX {
            0
        } else {
            state.vanity_count + 1
        };
        let elapsed = elapsed_secs(&state.start_time);
        let elapsed_total = elapsed_secs(&state.t0);
        let total_rate = calc_rate(state.vanity_count, elapsed_total);
        let result = Vanity {
            hash,
            nonce,
            nonce_digits,
            attempts: state.count,
            seconds_since_last: elapsed,
            vanity_rate: total_rate,
            count: state.vanity_count,
            thread_id: state.thread_id,
        };
        state.start_time = instant_now();
        state.count = 0;
        proof {
            assert(result.vanity_rate == rate_of(result.count, elapsed_total));
            assert(exists|es: u64| result.vanity_rate == rate_of(result.count, es));
        }
        Some(result)
    } else {
        proof {
            assert(nonce_digits@.len() == 16 && !nonce_hits(
                digest_fed(*hasher),
                nonce_digits@,
                *vanity_set,
            ));
        }
        None
    }
}

} // verus!
