use mihomo_tui::runtime::subscription::Timestamp;
use mihomo_tui::utils::format::{format_datetime_utc, format_timestamp, format_timestamp_tz, time_or_invalid};
use mihomo_tui::utils::format::{
    bytes_to_human, format_bytes, format_duration, format_rate, format_speed, format_time_ago,
    pad_or_truncate, truncate_str, truncate_str_left,
};

#[test]
fn test_bytes_to_human() {
    assert_eq!(bytes_to_human(0), "0 B");
    assert_eq!(bytes_to_human(512), "512 B");
    assert_eq!(bytes_to_human(1024), "1.00 KB");
    assert_eq!(bytes_to_human(1536), "1.50 KB");
    assert_eq!(bytes_to_human(1048576), "1.00 MB");
    assert_eq!(bytes_to_human(1073741824), "1.00 GB");
    assert_eq!(bytes_to_human(1099511627776), "1.00 TB");
}

#[test]
fn test_format_duration() {
    assert_eq!(format_duration(0), "0s");
    assert_eq!(format_duration(1), "1s");
    assert_eq!(format_duration(59), "59s");
    assert_eq!(format_duration(60), "1m");
    assert_eq!(format_duration(65), "1m 5s");
    assert_eq!(format_duration(3600), "1h");
    assert_eq!(format_duration(3661), "1h 1m 1s");
    assert_eq!(format_duration(86400), "1d");
    assert_eq!(format_duration(90061), "1d 1h 1m");
}

#[test]
fn test_truncate_str_ascii() {
    assert_eq!(truncate_str("hello", 10), "hello");
    assert_eq!(truncate_str("hello world", 8), "hello…");
    assert_eq!(truncate_str("hello", 5), "hello");
    assert_eq!(truncate_str("hello", 4), "hel…");
}

#[test]
fn test_truncate_str_cjk() {
    let s = "你好世界";
    assert_eq!(truncate_str(s, 8), s);
    assert_eq!(truncate_str(s, 5), "你好…");
    assert_eq!(truncate_str(s, 3), "你…");
}

#[test]
fn test_truncate_str_left() {
    assert_eq!(truncate_str_left("hello world", 20), "hello world");
    assert_eq!(truncate_str_left("hello world", 8), "…lo world");
}

#[test]
fn test_pad_or_truncate() {
    let result = pad_or_truncate("hi", 5);
    assert_eq!(result, "hi   ");
    assert_eq!(result.len(), 5);

    let result = pad_or_truncate("hello world", 5);
    assert_eq!(result, "hell…");
}

#[test]
fn test_format_speed() {
    assert_eq!(format_speed(0), "0 B/s");
    assert_eq!(format_speed(1024), "1.00 KB/s");
}

#[test]
fn test_truncate_empty() {
    assert_eq!(truncate_str("", 5), "");
    assert_eq!(truncate_str("hello", 0), "");
}

#[test]
fn test_bytes_to_human_large() {
    let tb: u64 = 2 * 1024 * 1024 * 1024 * 1024;
    assert_eq!(bytes_to_human(tb), "2.00 TB");
}

#[test]
fn bytes_to_human_matches_float_formatting() {
    for &b in &[1u64, 1023, 1025, 2047, 1_000_000, 5_368_709_120, 123_456_789_012, u64::MAX] {
        let expected = if b >= 1u64 << 40 {
            format!("{:.2} TB", b as f64 / (1u64 << 40) as f64)
        } else if b >= 1 << 30 {
            format!("{:.2} GB", b as f64 / (1u64 << 30) as f64)
        } else if b >= 1 << 20 {
            format!("{:.2} MB", b as f64 / (1u64 << 20) as f64)
        } else if b >= 1 << 10 {
            format!("{:.2} KB", b as f64 / 1024.0)
        } else {
            format!("{b} B")
        };
        assert_eq!(bytes_to_human(b), expected);
    }
}

#[test]
fn status_bar_rates() {
    assert_eq!(format_bytes(0), "0 B/s");
    assert_eq!(format_bytes(1023), "1023 B/s");
    assert_eq!(format_bytes(1536), "1.5 KB/s");
    assert_eq!(format_bytes(3 * 1024 * 1024), "3.0 MB/s");
    assert_eq!(format_bytes(1024 * 1024 * 1024), "1.0 GB/s");
}

#[test]
fn panel_rates_stop_at_megabytes() {
    assert_eq!(format_rate(512), "512 B/s");
    assert_eq!(format_rate(2048), "2.0 KB/s");
    assert_eq!(format_rate(2 * 1024 * 1024 * 1024), "2048.0 MB/s");
}

#[test]
fn time_ago_texts() {
    assert_eq!(format_time_ago(-5, "2024-01-01 00:00:00"), "just now");
    assert_eq!(format_time_ago(30, "x"), "just now");
    assert_eq!(format_time_ago(60, "x"), "1 minute ago");
    assert_eq!(format_time_ago(7200, "x"), "2 hours ago");
    assert_eq!(format_time_ago(86400, "x"), "1 day ago");
    assert_eq!(format_time_ago(40 * 86400, "2024-01-01 00:00:00"), "2024-01-01 00:00:00");
}

#[test]
fn truncation_of_plain_text_fits() {
    for w in 0..15 {
        let t = truncate_str("the quick brown fox", w);
        assert!(t.chars().count() <= w);
        let p = pad_or_truncate("the quick brown fox", w);
        assert_eq!(p.chars().count(), w);
    }
}

#[test]
fn timestamps_out_of_range_are_invalid() {
    assert_eq!(format_timestamp(i64::MAX), "invalid timestamp");
    assert_eq!(format_timestamp_tz(i64::MAX), "invalid timestamp");
    assert_eq!(format_datetime_utc(&Timestamp { secs: i64::MAX, nanos: 0 }), "invalid timestamp");
    assert_eq!(time_or_invalid(None), "invalid timestamp");
    assert_eq!(time_or_invalid(Some("2024-01-01 00:00:00".into())), "2024-01-01 00:00:00");
    // A valid time has the local `YYYY-MM-DD HH:MM:SS` shape.
    assert_eq!(format_timestamp(0).len(), 19);
}

#[test]
fn truncate_mixed_width_text() {
    let s = "hello你好";
    // h(1)e(1)l(1)l(1)o(1)你(2)好(2) = 9
    assert_eq!(truncate_str(s, 9), s);
    assert_eq!(truncate_str(s, 8), "hello你…");
    assert_eq!(truncate_str(s, 6), "hello…");
    assert_eq!(truncate_str(s, 5), "hell…");
}

#[test]
fn local_timestamps_have_the_date_time_shape() {
    let shape = |s: &str| {
        let c: Vec<char> = s.chars().collect();
        for (i, ch) in c.iter().enumerate() {
            match i {
                4 | 7 => assert_eq!(*ch, '-'),
                10 => assert_eq!(*ch, ' '),
                13 | 16 => assert_eq!(*ch, ':'),
                _ if i < 19 => assert!(ch.is_ascii_digit()),
                _ => {}
            }
        }
    };
    let plain = format_timestamp(1_700_000_000);
    assert_eq!(plain.chars().count(), 19);
    shape(&plain);
    let with_offset = format_timestamp_tz(1_700_000_000);
    assert_eq!(with_offset.chars().count(), 26);
    shape(&with_offset);
    assert!(with_offset[19..].starts_with(" +") || with_offset[19..].starts_with(" -"));
    assert_eq!(&with_offset[..19], plain);
    let utc = format_datetime_utc(&Timestamp { secs: 1_700_000_000, nanos: 0 });
    assert_eq!(utc, plain);
    assert_eq!(format_timestamp(-8_334_601_228_801), "invalid timestamp");
    assert_eq!(format_datetime_utc(&Timestamp { secs: 0, nanos: 1_000_000_000 }), "invalid timestamp");
}

#[test]
fn padded_wide_text_fills_the_width() {
    let p = pad_or_truncate("日本", 7);
    assert_eq!(p, "日本   ");
    assert_eq!(unicode_width::UnicodeWidthStr::width(p.as_str()), 7);
    let t = pad_or_truncate("你好世界", 5);
    assert_eq!(t, "你好…");
    assert_eq!(unicode_width::UnicodeWidthStr::width(t.as_str()), 5);
}
