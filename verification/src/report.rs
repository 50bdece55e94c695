//! Reporter output: the tabular header and data rows, and the human-readable
//! block printed for each match.
//!
//! Rate values are displayed as fractional numbers; their rendering, like
//! the locale-aware formatting of the attempt count, is display glue that
//! the caller supplies as ready-made text.

use crate::digits::{dec_string, u64_to_string};
use crate::rate::{unit_text, RateUnit};
use crate::worker::Vanity;
use vstd::prelude::*;
use vstd::string::StrSliceExecFns;
use vstd::string::StringExecFns;

verus! {

/// The ten field names of a tabular header row, in output order.
pub open spec fn header_fields() -> Seq<Seq<char>> {
    seq![
        "hash"@,
        "nonce"@,
        "thread"@,
        "thread_attempts"@,
        "thread_found_in_sec"@,
        "thread_rate"@,
        "thread_rate_unit"@,
        "found_in_sec"@,
        "rate"@,
        "rate_unit"@,
    ]
}

/// The ten values of a tabular data row, in the same order as the header:
/// the value at each position answers the header field at that position.
pub open spec fn row_fields(
    v: Vanity,
    thread_rate_value: Seq<char>,
    found_in_sec: u64,
    rate_value: Seq<char>,
    rate_unit: RateUnit,
) -> Seq<Seq<char>> {
    seq![
        v.hash@,
        v.nonce_digits@,
        dec_string(v.thread_id as nat),
        dec_string(v.attempts as nat),
        dec_string(v.seconds_since_last as nat),
        thread_rate_value,
        unit_text(v.vanity_rate.unit),
        dec_string(found_in_sec as nat),
        rate_value,
        unit_text(rate_unit),
    ]
}

/// Law: a data row always has exactly as many fields as the header row, one
/// value per header field, in the same order.
pub proof fn lemma_tabular_shape(
    v: Vanity,
    thread_rate_value: Seq<char>,
    found_in_sec: u64,
    rate_value: Seq<char>,
    rate_unit: RateUnit,
)
    ensures
        row_fields(v, thread_rate_value, found_in_sec, rate_value, rate_unit).len()
            == header_fields().len(),
{
}

/// The tabular header row.
pub fn tabular_header() -> (r: Vec<String>)
    ensures
        r.deep_view() == header_fields(),
{
    let mut r: Vec<String> = Vec::new();
    r.push(String::from_str("hash"));
    r.push(String::from_str("nonce"));
    r.push(String::from_str("thread"));
    r.push(String::from_str("thread_attempts"));
    r.push(String::from_str("thread_found_in_sec"));
    r.push(String::from_str("thread_rate"));
    r.push(String::from_str("thread_rate_unit"));
    r.push(String::from_str("found_in_sec"));
    r.push(String::from_str("rate"));
    r.push(String::from_str("rate_unit"));
    proof {
        assert(r.deep_view() =~= header_fields());
    }
    r
}

/// The tabular data row for one match event.
pub fn tabular_row(
    v: &Vanity,
    thread_rate_value: &String,
    found_in_sec: u64,
    rate_value: &String,
    rate_unit: RateUnit,
) -> (r: Vec<String>)
    ensures
        r.deep_view() == row_fields(*v, thread_rate_value@, found_in_sec, rate_value@, rate_unit),
{
    let mut r: Vec<String> = Vec::new();
    r.push(v.hash.clone());
    r.push(v.nonce_digits.clone());
    r.push(u64_to_string(v.thread_id as u64));
    r.push(u64_to_string(v.attempts));
    r.push(u64_to_string(v.seconds_since_last));
    r.push(thread_rate_value.clone());
    r.push(v.vanity_rate.unit.text());
    r.push(u64_to_string(found_in_sec));
    r.push(rate_value.clone());
    r.push(rate_unit.text());
    proof {
        assert(r.deep_view() =~= row_fields(
            *v,
            thread_rate_value@,
            found_in_sec,
            rate_value@,
            rate_unit,
        ));
    }
    r
}

/// A worker identifier padded on the left to at least two columns.
pub open spec fn padded_id(id: u16) -> Seq<char> {
    if dec_string(id as nat).len() < 2 {
        " "@ + dec_string(id as nat)
    } else {
        dec_string(id as nat)
    }
}

fn pad_thread_id(id: u16) -> (r: String)
    ensures
        r@ == padded_id(id),
{
    let s = u64_to_string(id as u64);
    if s.as_str().unicode_len() < 2 {
        let mut p = String::from_str(" ");
        p.append(s.as_str());
        p
    } else {
        s
    }
}

/// The human-readable block for one match event: the nonce comment, the
/// identifier under it, and this worker's counters and rate.
pub open spec fn human_match_block(
    v: Vanity,
    fmt_attempts: Seq<char>,
    rate_value: Seq<char>,
) -> Seq<char> {
    "  ┌────────────────────────────────────────────\n"@ + padded_id(v.thread_id) + "│ "@
        + v.nonce@ + "  │ └> "@ + v.hash@ + "\n"@ + "  │     found in: "@ + dec_string(
        v.seconds_since_last as nat,
    ) + "s ("@ + fmt_attempts + " attempts)\n"@ + "  │ found so far: "@ + dec_string(
        v.count as nat,
    ) + " ("@ + rate_value + "/"@ + unit_text(v.vanity_rate.unit) + ")\n"@
}

/// The closing lines of a human-readable block: the global timers, counter
/// and rate.
pub open spec fn human_total_block(
    elapsed: u64,
    elapsed_total: u64,
    vanity_count: u64,
    rate_value: Seq<char>,
    rate_unit: RateUnit,
) -> Seq<char> {
    "  │      elapsed: "@ + dec_string(elapsed as nat) + "s/"@ + dec_string(elapsed_total as nat)
        + "s\n"@ + "  │  total found: "@ + dec_string(vanity_count as nat) + " ("@ + rate_value
        + "/"@ + unit_text(rate_unit) + ")\n"@
        + "  └────────────────────────────────────────────\n"@
}

/// Render the per-worker part of a human-readable match report.
pub fn render_match_block(v: &Vanity, fmt_attempts: &String, rate_value: &String) -> (r: String)
    ensures
        r@ == human_match_block(*v, fmt_attempts@, rate_value@),
{
    let mut s = String::from_str("  ┌────────────────────────────────────────────\n");
    let pad = pad_thread_id(v.thread_id);
    s.append(pad.as_str());
    s.append("│ ");
    s.append(v.nonce.as_str());
    s.append("  │ └> ");
    s.append(v.hash.as_str());
    s.append("\n");
    s.append("  │     found in: ");
    let secs = u64_to_string(v.seconds_since_last);
    s.append(secs.as_str());
    s.append("s (");
    s.append(fmt_attempts.as_str());
    s.append(" attempts)\n");
    s.append("  │ found so far: ");
    let cnt = u64_to_string(v.count);
    s.append(cnt.as_str());
    s.append(" (");
    s.append(rate_value.as_str());
    s.append("/");
    let unit = v.vanity_rate.unit.text();
    s.append(unit.as_str());
    s.append(")\n");
    proof {
        assert(s@ =~= human_match_block(*v, fmt_attempts@, rate_value@));
    }
    s
}

/// Render the global closing lines of a human-readable match report.
pub fn render_total_block(
    elapsed: u64,
    elapsed_total: u64,
    vanity_count: u64,
    rate_value: &String,
    rate_unit: RateUnit,
) -> (r: String)
    ensures
        r@ == human_total_block(elapsed, elapsed_total, vanity_count, rate_value@, rate_unit),
{
    let mut s = String::from_str("  │      elapsed: ");
    let e = u64_to_string(elapsed);
    s.append(e.as_str());
    s.append("s/");
    let et = u64_to_string(elapsed_total);
    s.append(et.as_str());
    s.append("s\n");
    s.append("  │  total found: ");
    let c = u64_to_string(vanity_count);
    s.append(c.as_str());
    s.append(" (");
    s.append(rate_value.as_str());
    s.append("/");
    let unit = rate_unit.text();
    s.append(unit.as_str());
    s.append(")\n");
    s.append("  └────────────────────────────────────────────\n");
    proof {
        assert(s@ =~= human_total_block(
            elapsed,
            elapsed_total,
            vanity_count,
            rate_value@,
            rate_unit,
        ));
    }
    s
}

} // verus!
