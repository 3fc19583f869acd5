use sysly::helpers::{centered_rect, format_bytes, format_runtime, format_uptime, Rect};

#[test]
fn bytes_below_one_kb_print_whole_kb() {
    assert_eq!(format_bytes(0), "0KB");
    assert_eq!(format_bytes(1), "1KB");
    assert_eq!(format_bytes(512), "512KB");
    assert_eq!(format_bytes(1023), "1023KB");
}

#[test]
fn bytes_pick_the_largest_unit_with_one_decimal() {
    assert_eq!(format_bytes(1024), "1.0KB");
    assert_eq!(format_bytes(1536), "1.5KB");
    assert_eq!(format_bytes(10 * 1024), "10.0KB");
    assert_eq!(format_bytes(1024 * 1024), "1.0MB");
    assert_eq!(format_bytes(5 * 1024 * 1024 + 512 * 1024), "5.5MB");
    assert_eq!(format_bytes(1024 * 1024 * 1024), "1.0GB");
    assert_eq!(format_bytes(1024 * 1024 * 1024 * 1024), "1.0TB");
    assert_eq!(format_bytes(3 * 1024 * 1024 * 1024 * 1024 / 2), "1.5TB");
}

#[test]
fn bytes_magnitude_is_monotone_within_a_bracket() {
    let mut prev = format_bytes(2048);
    let prev_val: f64 = prev.trim_end_matches("KB").parse().unwrap();
    let mut last = prev_val;
    for n in 2048u64..4096 {
        let s = format_bytes(n);
        assert!(s.ends_with("KB"));
        let v: f64 = s.trim_end_matches("KB").parse().unwrap();
        assert!(v >= last, "{} -> {} then {}", n, prev, s);
        last = v;
        prev = s;
    }
}

#[test]
fn uptime_formats_days_and_clock() {
    assert_eq!(format_uptime(0), "00:00:00");
    assert_eq!(format_uptime(86400), "1 days, 00:00:00");
    assert_eq!(format_uptime(3661), "01:01:01");
    assert_eq!(format_uptime(2 * 86400 + 3 * 3600 + 45 * 60 + 12), "2 days, 03:45:12");
    assert_eq!(format_uptime(86399), "23:59:59");
}

#[test]
fn runtime_formats_hours_minutes_seconds() {
    assert_eq!(format_runtime(90), "00:01.30");
    assert_eq!(format_runtime(3600), "01:00.00");
    assert_eq!(format_runtime(0), "00:00.00");
    assert_eq!(format_runtime(360000), "100:00.00");
}

#[test]
fn centered_rect_centers_with_unit_tolerance() {
    let area = Rect { x: 0, y: 0, width: 100, height: 100 };
    let r = centered_rect(60, 20, area);
    assert_eq!(r.width, 60);
    assert_eq!(r.height, 20);
    assert_eq!(r.x, 20);
    assert_eq!(r.y, 40);
}

#[test]
fn centered_rect_respects_offsets() {
    let area = Rect { x: 5, y: 7, width: 50, height: 30 };
    let r = centered_rect(50, 50, area);
    assert_eq!(r.width, 25);
    assert_eq!(r.height, 15);
    assert_eq!(r.x, 5 + 12);
    assert_eq!(r.y, 7 + 7);
    assert!(r.x + r.width <= area.x + area.width);
    assert!(r.y + r.height <= area.y + area.height);
}
