use yee_branch_node::monitor::{speed, TransferRateFormat};
use yee_branch_node::text::{decimal_string, replace};

#[test]
fn bandwidth_zero_is_a_bare_zero() {
    assert_eq!(TransferRateFormat(0).to_string(), "0");
}

#[test]
fn bandwidth_below_hundred_is_in_bytes() {
    assert_eq!(TransferRateFormat(50).to_string(), "50 B/s");
    assert_eq!(TransferRateFormat(1).to_string(), "1 B/s");
    assert_eq!(TransferRateFormat(99).to_string(), "99 B/s");
}

#[test]
fn bandwidth_below_one_mib_is_in_kib() {
    assert_eq!(TransferRateFormat(2048).to_string(), "2.0kiB/s");
    assert_eq!(TransferRateFormat(100).to_string(), "0.1kiB/s");
    assert_eq!(TransferRateFormat(1536).to_string(), "1.5kiB/s");
    assert_eq!(TransferRateFormat(1024 * 1024 - 1).to_string(), "1024.0kiB/s");
}

#[test]
fn bandwidth_from_one_mib_is_in_mib() {
    assert_eq!(TransferRateFormat(3 * 1024 * 1024).to_string(), "3.0MiB/s");
    assert_eq!(TransferRateFormat(1024 * 1024).to_string(), "1.0MiB/s");
    assert_eq!(TransferRateFormat(u64::MAX).to_string(), "17592186044416.0MiB/s");
}

#[test]
fn bandwidth_halfway_goes_to_the_even_tenth() {
    assert_eq!(TransferRateFormat(256).to_string(), "0.2kiB/s");
    assert_eq!(TransferRateFormat(768).to_string(), "0.8kiB/s");
}

#[test]
fn bandwidth_agrees_with_float_formatting() {
    let mut bytes: u64 = 100;
    while bytes < 1024 * 1024 {
        let expected = format!("{:.1}kiB/s", bytes as f64 / 1024.0);
        assert_eq!(TransferRateFormat(bytes).to_string(), expected);
        bytes += 37;
    }
    let mut bytes: u64 = 1024 * 1024;
    while bytes < 1 << 40 {
        let expected = format!("{:.1}MiB/s", bytes as f64 / (1024.0 * 1024.0));
        assert_eq!(TransferRateFormat(bytes).to_string(), expected);
        bytes = bytes + bytes / 3 + 12345;
    }
}

#[test]
fn speed_without_progress_is_empty() {
    assert_eq!(speed(100, Some(100), 1000), "");
    assert_eq!(speed(100, Some(100), 0), "");
    assert_eq!(speed(100, Some(200), 5), "");
    assert_eq!(speed(100, None, 1000), "");
    assert_eq!(speed(100, None, 0), "");
}

#[test]
fn speed_below_one_block_in_ten_seconds_is_empty() {
    assert_eq!(speed(101, Some(100), 10_001), "");
}

#[test]
fn speed_is_in_blocks_per_second_with_one_digit() {
    assert_eq!(speed(101, Some(100), 10_000), "  0.1 bps");
    assert_eq!(speed(110, Some(100), 1000), " 10.0 bps");
    assert_eq!(speed(105, Some(100), 1000), "  5.0 bps");
    assert_eq!(speed(1334, Some(100), 10_000), " 123.4 bps");
    assert_eq!(speed(1334, Some(100), 1000), " 1234.0 bps");
    assert_eq!(speed(3, Some(0), 2000), "  1.5 bps");
}

#[test]
fn speed_agrees_with_float_formatting() {
    let mut delta: u64 = 1;
    while delta < 1_000_000 {
        let mut millis: u64 = 1;
        while millis < 100_000 {
            let rate = (delta * 10_000 / millis) as f64;
            let expected = if rate < 1.0 {
                String::new()
            } else {
                format!(" {:4.1} bps", rate / 10.0)
            };
            assert_eq!(speed(1000 + delta, Some(1000), millis), expected);
            millis = millis * 3 + 7;
        }
        delta = delta * 2 + 1;
    }
}

#[test]
fn speed_of_the_largest_step_does_not_overflow() {
    assert_eq!(speed(u64::MAX, Some(0), 1), " 18446744073709551615000.0 bps");
}

#[test]
fn decimal_numerals() {
    assert_eq!(decimal_string(0), "0");
    assert_eq!(decimal_string(7), "7");
    assert_eq!(decimal_string(10), "10");
    assert_eq!(decimal_string(30335), "30335");
    assert_eq!(decimal_string(u128::MAX), "340282366920938463463374607431768211455");
}

#[test]
fn replace_agrees_with_the_standard_library() {
    let cases = [
        ("", "chains", "root_chains"),
        ("chains", "chains", "root_chains"),
        ("/data/chains/dev/db", "chains", "root_chains"),
        ("chainschains", "chains", "root_chains"),
        ("aaaa", "aa", "b"),
        ("aaa", "aa", "b"),
        ("abcabc", "bc", ""),
        ("chain", "chains", "root_chains"),
        ("cchains", "chains", "x"),
    ];
    for (s, from, to) in cases {
        assert_eq!(replace(s, from, to), s.replace(from, to));
    }
}

#[test]
fn replace_with_an_empty_pattern_keeps_the_text() {
    assert_eq!(replace("abc", "", "x"), "abc");
}
