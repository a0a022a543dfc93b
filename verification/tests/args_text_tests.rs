use raspi_info_display::args::{initial_config, parse_args};
use raspi_info_display::text::{
    parse_u64, parse_u8, parse_u8_hex, str_eq, strip_prefix, trim_hex_markers, u64_to_dec,
};

fn argv(parts: &[&str]) -> Vec<String> {
    parts.iter().map(|s| s.to_string()).collect()
}

#[test]
fn decimal_rendering() {
    assert_eq!(u64_to_dec(0), "0");
    assert_eq!(u64_to_dec(42), "42");
    assert_eq!(u64_to_dec(u64::MAX), "18446744073709551615");
}

#[test]
fn decimal_parsing() {
    assert_eq!(parse_u64("123"), Some(123));
    assert_eq!(parse_u64("+7"), Some(7));
    assert_eq!(parse_u64("0012"), Some(12));
    assert_eq!(parse_u64(""), None);
    assert_eq!(parse_u64("+"), None);
    assert_eq!(parse_u64("12a"), None);
    assert_eq!(parse_u64("18446744073709551615"), Some(u64::MAX));
    assert_eq!(parse_u64("18446744073709551616"), None);
    assert_eq!(parse_u8("255"), Some(255));
    assert_eq!(parse_u8("256"), None);
}

#[test]
fn hex_parsing() {
    assert_eq!(parse_u8_hex("70"), Some(0x70));
    assert_eq!(parse_u8_hex("ff"), Some(255));
    assert_eq!(parse_u8_hex("FF"), Some(255));
    assert_eq!(parse_u8_hex("0"), Some(0));
    assert_eq!(parse_u8_hex("100"), None);
    assert_eq!(parse_u8_hex("g"), None);
    assert_eq!(parse_u8_hex("+a"), Some(10));
    assert_eq!(parse_u8_hex(""), None);
}

#[test]
fn hex_marker_trimming() {
    assert_eq!(trim_hex_markers("0x70"), "70");
    assert_eq!(trim_hex_markers("0x0x70"), "70");
    assert_eq!(trim_hex_markers("0X70"), "0X70");
    assert_eq!(trim_hex_markers("70"), "70");
}

#[test]
fn string_helpers() {
    assert!(str_eq("--clear", "--clear"));
    assert!(!str_eq("--clear", "--clea"));
    assert_eq!(strip_prefix("--interval=30", "--interval="), Some("30"));
    assert_eq!(strip_prefix("--interval", "--interval="), None);
}

#[test]
fn no_flags_keep_the_defaults() {
    let (cfg, help) = parse_args(&argv(&["prog"]));
    assert_eq!(cfg, initial_config());
    assert!(!help);
    assert_eq!(cfg.interval_seconds, 5);
    assert_eq!(cfg.mux_address, 0x70);
    assert_eq!(cfg.mux_channel, 0);
}

#[test]
fn simple_flags_are_read() {
    let (cfg, help) = parse_args(&argv(&["prog", "--clear", "--daemon", "--mux"]));
    assert!(!help);
    assert!(cfg.clear_only);
    assert!(cfg.daemon_mode);
    assert!(cfg.use_multiplexer);
}

#[test]
fn interval_space_and_equals_forms() {
    let (cfg, _) = parse_args(&argv(&["prog", "--interval", "10"]));
    assert_eq!(cfg.interval_seconds, 10);
    let (cfg, _) = parse_args(&argv(&["prog", "-i", "7"]));
    assert_eq!(cfg.interval_seconds, 7);
    let (cfg, _) = parse_args(&argv(&["prog", "--interval=30"]));
    assert_eq!(cfg.interval_seconds, 30);
    let (cfg, _) = parse_args(&argv(&["prog", "--interval", "zap"]));
    assert_eq!(cfg.interval_seconds, 5);
    let (cfg, _) = parse_args(&argv(&["prog", "--interval"]));
    assert_eq!(cfg.interval_seconds, 5);
}

#[test]
fn mux_channel_implies_multiplexer() {
    let (cfg, _) = parse_args(&argv(&["prog", "--mux-channel", "3"]));
    assert!(cfg.use_multiplexer);
    assert_eq!(cfg.mux_channel, 3);
    let (cfg, _) = parse_args(&argv(&["prog", "--mux-channel=6"]));
    assert!(cfg.use_multiplexer);
    assert_eq!(cfg.mux_channel, 6);
}

#[test]
fn out_of_range_channel_is_ignored() {
    let (cfg, _) = parse_args(&argv(&["prog", "--mux-channel", "8"]));
    assert!(!cfg.use_multiplexer);
    assert_eq!(cfg.mux_channel, 0);
    let (cfg, _) = parse_args(&argv(&["prog", "--mux-channel=9"]));
    assert!(!cfg.use_multiplexer);
    assert_eq!(cfg.mux_channel, 0);
}

#[test]
fn mux_address_is_hexadecimal() {
    let (cfg, _) = parse_args(&argv(&["prog", "--mux-address", "0x71"]));
    assert_eq!(cfg.mux_address, 0x71);
    let (cfg, _) = parse_args(&argv(&["prog", "--mux-address", "71"]));
    assert_eq!(cfg.mux_address, 0x71);
    let (cfg, _) = parse_args(&argv(&["prog", "--mux-address", "zz"]));
    assert_eq!(cfg.mux_address, 0x70);
}

#[test]
fn help_stops_the_scan() {
    let (cfg, help) = parse_args(&argv(&["prog", "--help", "--clear"]));
    assert!(help);
    assert!(!cfg.clear_only);
    let (cfg, help) = parse_args(&argv(&["prog", "--clear", "-h"]));
    assert!(help);
    assert!(cfg.clear_only);
}

#[test]
fn unknown_arguments_are_ignored() {
    let (cfg, help) = parse_args(&argv(&["prog", "whatever", "--frobnicate"]));
    assert_eq!(cfg, initial_config());
    assert!(!help);
}
