use crossterm::style::{style, Color, Stylize};
use pipeprog::format::{
    bytes_segment, decimal_string, format_time, join_segments, progress_line, rate_segment,
    TimeOutput,
};

#[test]
fn as_time_format() {
    let pairs = vec![
        (5_u64, "0:00:05"),
        (60_u64, "0:01:00"),
        (154_u64, "0:02:34"),
        (3603_u64, "1:00:03"),
        (3723_u64, "1:02:03"),
    ];
    for (input, output) in pairs {
        assert_eq!(input.as_time().as_str(), output);
    }
}

#[test]
fn output_progress_test() {
    let output: Vec<u8> = progress_line(12, "10", Some(400)).into_bytes();
    let expected = style("12 ".with(Color::Rgb {
        r: 255,
        g: 204,
        b: 255,
    }))
    .to_string();
    let expected1 = style("10".with(Color::Rgb {
        r: 102,
        g: 204,
        b: 255,
    }))
    .to_string();
    let expected2 = style(" [400b/s]".with(Color::Rgb {
        r: 204,
        g: 255,
        b: 153,
    }))
    .to_string();

    let res = format!("{}{}{}", expected, expected1, expected2).into_bytes();

    assert_eq!(output[4..], res)
}

#[test]
fn progress_line_returns_to_first_column() {
    let line = progress_line(0, "0:00:00", None);
    assert!(line.starts_with("\u{1b}[1G"));
}

#[test]
fn progress_line_wraps_each_part_in_escapes() {
    let line = progress_line(7, "0:00:01", Some(3));
    let coloured = "\u{1b}[1G\u{1b}[38;2;255;204;255m7 \u{1b}[39m\u{1b}[38;2;102;204;255m0:00:01\u{1b}[39m\u{1b}[38;2;204;255;153m [3b/s]\u{1b}[39m";
    let plain = "\u{1b}[1G\u{1b}[m7 \u{1b}[m\u{1b}[m0:00:01\u{1b}[m\u{1b}[m [3b/s]\u{1b}[m";
    assert!(line == coloured || line == plain);
    assert_ne!(line, "7 0:00:01 [3b/s]");
}

#[test]
fn time_format_edges() {
    assert_eq!(format_time(0), "0:00:00");
    assert_eq!(format_time(59), "0:00:59");
    assert_eq!(format_time(3599), "0:59:59");
    assert_eq!(format_time(3600), "1:00:00");
    assert_eq!(format_time(360_000), "100:00:00");
    assert_eq!(format_time(u64::MAX), "5124095576030431:00:15");
}

#[test]
fn time_format_agrees_with_std_formatting() {
    for secs in [0_u64, 1, 9, 10, 61, 600, 3661, 86_399, 86_400, 1_000_000] {
        let expected = format!("{}:{:02}:{:02}", secs / 3600, (secs % 3600) / 60, secs % 60);
        assert_eq!(secs.as_time(), expected);
    }
}

#[test]
fn decimal_string_has_no_leading_zeros() {
    assert_eq!(decimal_string(0), "0");
    assert_eq!(decimal_string(9), "9");
    assert_eq!(decimal_string(10), "10");
    assert_eq!(decimal_string(1905), "1905");
    assert_eq!(decimal_string(u128::MAX), u128::MAX.to_string());
}

#[test]
fn plain_segments() {
    assert_eq!(bytes_segment(12), "12 ");
    assert_eq!(bytes_segment(0), "0 ");
    assert_eq!(rate_segment(Some(400)), " [400b/s]");
    assert_eq!(rate_segment(Some(0)), " [0b/s]");
    assert_eq!(rate_segment(None), " [-b/s]");
    assert_eq!(join_segments("a", "bc", "", "d"), "abcd");
}
