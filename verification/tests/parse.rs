use sysly::process::{parse_memory_rows, parse_priority_rows};

#[test]
fn priority_rows_skip_the_header_and_keep_fields_as_text() {
    let output = b"  PID PRI  NI\n  123  31   0\n  456  17  -5\n".to_vec();
    let m = parse_priority_rows(&output);
    assert_eq!(m.len(), 2);
    assert_eq!(m[&123].priority, "31");
    assert_eq!(m[&123].nice, "0");
    assert_eq!(m[&456].priority, "17");
    assert_eq!(m[&456].nice, "-5");
}

#[test]
fn malformed_priority_rows_are_skipped_individually() {
    let output = b"PID PRI NI\nabc 1 2\n77 4\n88 9 9 extra\n".to_vec();
    let m = parse_priority_rows(&output);
    // "abc" is no pid and "77 4" lacks a third field; extra fields are fine
    assert_eq!(m.len(), 1);
    assert_eq!(m[&88].priority, "9");
}

#[test]
fn priority_header_row_is_never_an_entry() {
    let output = b"1 2 3\n4 5 6\n".to_vec();
    let m = parse_priority_rows(&output);
    assert_eq!(m.len(), 1);
    assert!(m.contains_key(&4));
    assert!(!m.contains_key(&1));
}

#[test]
fn memory_rows_parse_pid_vsz_rss() {
    let output = b" PID    VSZ   RSS\n 10    1000   500\nbad\n 20 2 3\n".to_vec();
    let m = parse_memory_rows(&output);
    assert_eq!(m.len(), 2);
    assert_eq!(m[&10].virtual_memory, 1000);
    assert_eq!(m[&10].resident_memory, 500);
    assert_eq!(m[&20].virtual_memory, 2);
    assert_eq!(m[&20].resident_memory, 3);
}

#[test]
fn memory_rows_accept_a_plus_sign_and_reject_overflow() {
    let output = b"PID VSZ RSS\n+5 7 8\n6 99999999999999999999999999 1\n".to_vec();
    let m = parse_memory_rows(&output);
    assert_eq!(m.len(), 1);
    assert_eq!(m[&5].virtual_memory, 7);
    assert!(!m.contains_key(&6));
}

#[test]
fn empty_output_yields_an_empty_map() {
    let m = parse_memory_rows(&Vec::new());
    assert!(m.is_empty());
    let m = parse_priority_rows(&b"HEADER ONLY\n".to_vec());
    assert!(m.is_empty());
    let m = parse_priority_rows(&b"NO NEWLINE AT ALL".to_vec());
    assert!(m.is_empty());
}

#[test]
fn a_later_row_wins_on_a_repeated_pid() {
    let output = b"PID PRI NI\n9 1 1\n9 2 2\n".to_vec();
    let m = parse_priority_rows(&output);
    assert_eq!(m[&9].priority, "2");
}
