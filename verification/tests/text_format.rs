//! Decimal rendering, file names, elapsed-time labels, and previews.

use whisgo::recorder::make_recording_filename;
use whisgo::text::format_timestamp;
use whisgo::text::truncate_text;
use whisgo::text::u64_to_dec;

#[test]
fn decimal_rendering() {
    assert_eq!(u64_to_dec(0), "0");
    assert_eq!(u64_to_dec(7), "7");
    assert_eq!(u64_to_dec(10), "10");
    assert_eq!(u64_to_dec(1_234_567_890), "1234567890");
    assert_eq!(u64_to_dec(u64::MAX), "18446744073709551615");
}

#[test]
fn recording_filenames_follow_the_pattern() {
    assert_eq!(make_recording_filename(0), "recording_0.wav");
    assert_eq!(make_recording_filename(1_700_000_000), "recording_1700000000.wav");
}

#[test]
fn elapsed_labels_pick_the_coarsest_unit() {
    assert_eq!(format_timestamp(1000, 955), "45s ago");
    assert_eq!(format_timestamp(1059, 1000), "59s ago");
    assert_eq!(format_timestamp(1060, 1000), "1m ago");
    assert_eq!(format_timestamp(1120, 1000), "2m ago");
    assert_eq!(format_timestamp(4599, 1000), "59m ago");
    assert_eq!(format_timestamp(4600, 1000), "1h ago");
    assert_eq!(format_timestamp(87399, 1000), "23h ago");
    assert_eq!(format_timestamp(87400, 1000), "1d ago");
    assert_eq!(format_timestamp(173800, 1000), "2d ago");
}

#[test]
fn future_timestamps_are_unknown() {
    assert_eq!(format_timestamp(100, 200), "unknown");
}

#[test]
fn short_texts_pass_through_untruncated() {
    assert_eq!(truncate_text("hello", 100), "hello");
    assert_eq!(truncate_text("hello", 5), "hello");
    assert_eq!(truncate_text("", 0), "");
}

#[test]
fn long_texts_are_cut_with_an_ellipsis() {
    assert_eq!(truncate_text("hello world", 5), "hello...");
    assert_eq!(truncate_text("abcdef", 1), "a...");
}

#[test]
fn truncation_counts_characters_not_bytes() {
    assert_eq!(truncate_text("héllo wörld", 4), "héll...");
}
