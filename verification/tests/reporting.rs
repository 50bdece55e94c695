use vanity_grinder::rate::{calc_rate, Rate, RateUnit};
use vanity_grinder::report::{render_match_block, render_total_block, tabular_header, tabular_row};
use vanity_grinder::worker::Vanity;

fn sample_event() -> Vanity {
    Vanity {
        hash: String::from("PtSample111"),
        nonce: String::from("(* Vanity nonce: 0000000000000042 *)\n"),
        nonce_digits: String::from("0000000000000042"),
        attempts: 1234,
        seconds_since_last: 7,
        vanity_rate: calc_rate(5, 10),
        count: 5,
        thread_id: 3,
    }
}

#[test]
fn header_and_row_have_the_same_fields_in_the_same_order() {
    let header = tabular_header();
    let event = sample_event();
    let global_rate = calc_rate(9, 60);
    let row = tabular_row(
        &event,
        &String::from("30"),
        11,
        &String::from("9"),
        global_rate.unit,
    );
    assert_eq!(header.len(), 10);
    assert_eq!(row.len(), header.len());

    assert_eq!(
        header,
        vec![
            "hash",
            "nonce",
            "thread",
            "thread_attempts",
            "thread_found_in_sec",
            "thread_rate",
            "thread_rate_unit",
            "found_in_sec",
            "rate",
            "rate_unit",
        ]
    );
    assert_eq!(
        row,
        vec![
            "PtSample111",
            "0000000000000042",
            "3",
            "1234",
            "7",
            "30",
            "minute",
            "11",
            "9",
            "minute",
        ]
    );
}

#[test]
fn row_units_follow_the_rates() {
    let mut event = sample_event();
    event.vanity_rate = calc_rate(1, 120);
    let row = tabular_row(&event, &String::from("30"), 0, &String::from("0"), RateUnit::Hour);
    assert_eq!(row[6], "hour");
    assert_eq!(row[9], "hour");
}

#[test]
fn human_match_block_lays_out_the_event() {
    let event = sample_event();
    let block = render_match_block(&event, &String::from("1,234"), &String::from("30.00"));
    let expected = "  ┌────────────────────────────────────────────\n 3│ (* Vanity nonce: 0000000000000042 *)\n  │ └> PtSample111\n  │     found in: 7s (1,234 attempts)\n  │ found so far: 5 (30.00/minute)\n";
    assert_eq!(block, expected);
}

#[test]
fn human_match_block_keeps_wide_thread_ids() {
    let mut event = sample_event();
    event.thread_id = 12;
    let block = render_match_block(&event, &String::from("1"), &String::from("0.00"));
    assert!(block.contains("12│ (* Vanity nonce:"));
    event.thread_id = 123;
    let block = render_match_block(&event, &String::from("1"), &String::from("0.00"));
    assert!(block.contains("123│ (* Vanity nonce:"));
}

#[test]
fn human_total_block_lays_out_the_global_state() {
    let rate = Rate { num: 3600, den: 120, unit: RateUnit::Hour };
    let block = render_total_block(9, 300, 4, &String::from("30.00"), rate.unit);
    let expected = "  │      elapsed: 9s/300s\n  │  total found: 4 (30.00/hour)\n  └────────────────────────────────────────────\n";
    assert_eq!(block, expected);
}

#[test]
fn unit_names() {
    assert_eq!(RateUnit::Minute.text(), "minute");
    assert_eq!(RateUnit::Hour.text(), "hour");
}
