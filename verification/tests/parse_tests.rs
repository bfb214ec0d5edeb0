use internet_monitor::parse::{parse, ParseError};

fn parse_avg(text: &str) -> Result<Vec<u8>, ParseError> {
    parse(text.as_bytes()).map(|avg| avg.as_bytes().to_vec())
}

fn parse_avg_f64(text: &str) -> f64 {
    let bytes = parse_avg(text).expect("expected a parsed latency");
    String::from_utf8(bytes).unwrap().parse::<f64>().unwrap()
}

#[test]
fn rtt_dialect_example() {
    let raw = "PING google.com (142.250.74.46) 56(84) bytes of data.\n\
               64 bytes from x: icmp_seq=1 ttl=115 time=15.4 ms\n\
               \n\
               --- google.com ping statistics ---\n\
               4 packets transmitted, 4 received, 0% packet loss, time 3004ms\n\
               rtt min/avg/max/mdev = 10.123/15.456/20.789/2.345 ms\n";
    assert_eq!(parse_avg_f64(raw), 15.456);
}

#[test]
fn round_trip_dialect_no_space_before_unit() {
    let raw = "--- google.com ping statistics ---\n\
               round-trip min/avg/max/stddev = 5.0/6.0/7.0/1.0ms\n";
    assert_eq!(parse_avg_f64(raw), 6.0);
}

#[test]
fn rtt_dialect_no_space_before_unit() {
    let raw = "rtt min/avg/max/mdev = 1.5/2.25/3.0/0.5ms";
    assert_eq!(parse_avg_f64(raw), 2.25);
}

#[test]
fn round_trip_dialect_with_space_before_unit() {
    let raw = "round-trip min/avg/max/stddev = 0.1/0.2/0.3/0.4 ms";
    assert_eq!(parse_avg(raw), Ok(b"0.2".to_vec()));
}

#[test]
fn integer_fields_are_accepted() {
    let raw = "rtt min/avg/max/mdev = 10/15/20/2 ms";
    assert_eq!(parse_avg_f64(raw), 15.0);
}

#[test]
fn no_dialect_marker_is_no_match() {
    let raw = "ping: unknown host google.invalid\nnothing here = 1/2/3/4 ms";
    assert_eq!(parse_avg(raw), Err(ParseError::NoMatch));
}

#[test]
fn empty_text_is_no_match() {
    assert_eq!(parse_avg(""), Err(ParseError::NoMatch));
}

#[test]
fn marker_on_other_line_is_no_match() {
    let raw = "rtt statistics follow\nsummary = 1.0/2.0/3.0/4.0 ms";
    assert_eq!(parse_avg(raw), Err(ParseError::NoMatch));
}

#[test]
fn missing_unit_is_no_match() {
    let raw = "rtt min/avg/max/mdev = 1.0/2.0/3.0/4.0";
    assert_eq!(parse_avg(raw), Err(ParseError::NoMatch));
}

#[test]
fn missing_field_is_no_match() {
    let raw = "rtt min/avg/max/mdev = 1.0/2.0/3.0 ms";
    assert_eq!(parse_avg(raw), Err(ParseError::NoMatch));
}

#[test]
fn empty_field_is_no_match() {
    let raw = "rtt min/avg/max/mdev = /2.0/3.0/4.0 ms";
    assert_eq!(parse_avg(raw), Err(ParseError::NoMatch));
}

#[test]
fn two_dots_in_average_is_numeric_format() {
    let raw = "rtt min/avg/max/mdev = 1.0/1.2.3/3.0/4.0 ms";
    assert_eq!(parse_avg(raw), Err(ParseError::NumericFormat));
}

#[test]
fn lone_dot_average_is_numeric_format() {
    let raw = "round-trip min/avg/max/stddev = 1.0/./3.0/4.0 ms";
    assert_eq!(parse_avg(raw), Err(ParseError::NumericFormat));
}

#[test]
fn malformed_other_field_still_yields_average() {
    // Only the second field must be a well-formed number.
    let raw = "rtt min/avg/max/mdev = 1.2.3/2.5/3.0/4.0 ms";
    assert_eq!(parse_avg_f64(raw), 2.5);
}

#[test]
fn unlabelled_equals_line_is_skipped() {
    // The first ` = A/B/C/D ms` line carries no dialect label; the
    // labelled one after it is the one read.
    let raw = "loss = 1/2/3/4 ms\nrtt min/avg/max/mdev = 5.0/6.5/7.0/0.5 ms";
    assert_eq!(parse_avg_f64(raw), 6.5);
}

#[test]
fn label_after_the_summary_does_not_count() {
    let raw = "summary = 1.0/2.0/3.0/4.0 ms of rtt";
    assert_eq!(parse_avg(raw), Err(ParseError::NoMatch));
}

#[test]
fn first_summary_wins() {
    let raw = "rtt min/avg/max/mdev = 1.0/2.0/3.0/4.0 ms\n\
               rtt min/avg/max/mdev = 5.0/6.0/7.0/8.0 ms\n";
    assert_eq!(parse_avg_f64(raw), 2.0);
}
