use guild_core::text::{
    capitalize_first, chop_str, display_time_span, escape_str, format_duration, format_seconds,
    format_u64, push_chopped_str, shorten, string_to_seconds,
};

#[test]
fn format_u64_renders_decimal() {
    assert_eq!(format_u64(0), "0");
    assert_eq!(format_u64(7), "7");
    assert_eq!(format_u64(10), "10");
    assert_eq!(format_u64(1234567890), "1234567890");
    assert_eq!(format_u64(u64::MAX), "18446744073709551615");
}

#[test]
fn format_seconds_spells_out_parts() {
    assert_eq!(format_seconds(0), "0s");
    assert_eq!(format_seconds(59), "59s");
    assert_eq!(format_seconds(60), "1m 0s");
    assert_eq!(format_seconds(61), "1m 1s");
    assert_eq!(format_seconds(3600), "1h 0s");
    assert_eq!(format_seconds(3661), "1h 1m 1s");
    assert_eq!(format_seconds(86400), "1D 0s");
    assert_eq!(format_seconds(90061), "1D 1h 1m 1s");
}

#[test]
fn display_time_span_is_clock_style() {
    assert_eq!(display_time_span(0), "00:00");
    assert_eq!(display_time_span(1000), "00:01");
    assert_eq!(display_time_span(61_000), "01:01");
    assert_eq!(display_time_span(3_599_000), "59:59");
    assert_eq!(display_time_span(3_600_000), "01:00:00");
    assert_eq!(display_time_span(3_661_000), "01:01:01");
    assert_eq!(display_time_span(360_000_000), "100:00:00");
}

#[test]
fn format_duration_says_live_without_a_length() {
    assert_eq!(format_duration(None), "Live");
    assert_eq!(format_duration(Some(0)), "Live");
    assert_eq!(format_duration(Some(61_000)), "1m 1s");
}

#[test]
fn capitalize_first_uppercases_one_character() {
    assert_eq!(capitalize_first(""), "");
    assert_eq!(capitalize_first("hello world"), "Hello world");
    assert_eq!(capitalize_first("Hello"), "Hello");
    assert_eq!(capitalize_first("1abc"), "1abc");
    // Some characters uppercase to more than one character.
    assert_eq!(capitalize_first("ßeta"), "SSeta");
}

#[test]
fn shorten_cuts_at_a_character_count() {
    assert_eq!(shorten("hello", 10), "hello");
    assert_eq!(shorten("hello", 5), "hello");
    assert_eq!(shorten("hello", 3), "hel");
    assert_eq!(shorten("", 3), "");
    assert_eq!(shorten("héllo", 2), "hé");
}

#[test]
fn escape_str_escapes_markup() {
    assert_eq!(escape_str("plain"), "plain");
    assert_eq!(escape_str("a_b"), "a\\_b");
    assert_eq!(escape_str("a*b~c`d|e"), "a\\*b\\~c\\`d\\|e");
    assert_eq!(escape_str("back\\slash"), "back\\\\slash");
    assert_eq!(escape_str("[link]"), "⁅link⁆");
}

#[test]
fn chop_str_keeps_short_strings_whole() {
    assert_eq!(chop_str("hello", 10), "hello");
    assert_eq!(chop_str("hello", 5), "hello");
}

#[test]
fn chop_str_cuts_with_an_ellipsis() {
    assert_eq!(chop_str("hello world", 8), "hello w…");
    // Trailing whitespace before the cut is trimmed.
    assert_eq!(chop_str("hello   world", 8), "hello…");
    // Escaping applies to the kept part.
    assert_eq!(chop_str("a_bcdefgh", 5), "a\\_bc…");
}

#[test]
fn string_to_seconds_reads_unit_suffixes() {
    assert_eq!(string_to_seconds("10s"), 10);
    assert_eq!(string_to_seconds("2m"), 120);
    assert_eq!(string_to_seconds("3h"), 10_800);
    assert_eq!(string_to_seconds("1D"), 86_400);
    assert_eq!(string_to_seconds("1W"), 604_800);
    assert_eq!(string_to_seconds("1M"), 2_628_288);
    assert_eq!(string_to_seconds("1Y"), 31_536_000);
    assert_eq!(string_to_seconds("1h 30m"), 5_400);
    assert_eq!(string_to_seconds("1D 2h 3m 4s"), 93_784);
}

#[test]
fn string_to_seconds_ignores_malformed_words() {
    assert_eq!(string_to_seconds(""), 0);
    assert_eq!(string_to_seconds("abc"), 0);
    assert_eq!(string_to_seconds("5"), 0);
    assert_eq!(string_to_seconds("5x"), 0);
    assert_eq!(string_to_seconds("s"), 0);
    assert_eq!(string_to_seconds("5s junk 2m"), 125);
    assert_eq!(string_to_seconds("  10s"), 10);
}

#[test]
fn string_to_seconds_handles_the_64_bit_edge() {
    assert_eq!(string_to_seconds("18446744073709551615s"), u64::MAX);
    // A number too wide for 64 bits parses to nothing, as `u64` parsing
    // rejects it.
    assert_eq!(string_to_seconds("99999999999999999999s"), 0);
    // A total beyond the 64-bit range stops at the edge instead of
    // wrapping around.
    assert_eq!(string_to_seconds("18446744073709551615s 10s"), u64::MAX);
}
