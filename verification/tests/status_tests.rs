use raspi_info_display::status::{
    compose_body, compose_title, domain_or_default, find_search_domain, format_cpu_temp,
    format_disk_usage, format_ipv4, format_memory_info, format_uptime, pick_ip_address,
    trim_whitespace, NetInterface,
};

#[test]
fn uptime_renders_days_hours_minutes() {
    assert_eq!(format_uptime(0), "0d 0h 0m");
    assert_eq!(format_uptime(90061), "1d 1h 1m");
    assert_eq!(format_uptime(86400 * 3 + 3600 * 4 + 60 * 25 + 59), "3d 4h 25m");
}

#[test]
fn memory_renders_used_and_total_megabytes() {
    assert_eq!(
        format_memory_info(1024 * 1024 * 1024, 512 * 1024 * 1024),
        "512/1024MB"
    );
    assert_eq!(format_memory_info(0, 0), "0/0MB");
}

#[test]
fn disk_usage_sums_all_disks() {
    let gib: u64 = 1024 * 1024 * 1024;
    let disks = vec![(40 * gib, 30 * gib), (20 * gib, 17 * gib)];
    assert_eq!(format_disk_usage(&disks), "13/60GB");
    let none: Vec<(u64, u64)> = Vec::new();
    assert_eq!(format_disk_usage(&none), "0/0GB");
}

#[test]
fn cpu_temp_rounds_to_one_decimal() {
    assert_eq!(format_cpu_temp(48123), "48.1C");
    assert_eq!(format_cpu_temp(48150), "48.2C");
    assert_eq!(format_cpu_temp(0), "0.0C");
}

#[test]
fn ip_pick_prefers_first_non_loopback_ipv4() {
    let interfaces = vec![
        NetInterface { loopback: true, ipv4: Some((127, 0, 0, 1)) },
        NetInterface { loopback: false, ipv4: None },
        NetInterface { loopback: false, ipv4: Some((192, 168, 1, 20)) },
        NetInterface { loopback: false, ipv4: Some((10, 0, 0, 9)) },
    ];
    assert_eq!(pick_ip_address(&interfaces), "192.168.1.20");
}

#[test]
fn ip_pick_falls_back_to_localhost() {
    let only_loopback = vec![NetInterface { loopback: true, ipv4: Some((127, 0, 0, 1)) }];
    assert_eq!(pick_ip_address(&only_loopback), "127.0.0.1");
    let empty: Vec<NetInterface> = Vec::new();
    assert_eq!(pick_ip_address(&empty), "127.0.0.1");
}

#[test]
fn ipv4_renders_dotted_decimal() {
    assert_eq!(format_ipv4(8, 8, 8, 8), "8.8.8.8");
    assert_eq!(format_ipv4(255, 0, 10, 1), "255.0.10.1");
}

#[test]
fn search_line_yields_trimmed_domain() {
    let contents = "nameserver 1.1.1.1\nsearch example.com\nsearch other.net\n";
    assert_eq!(find_search_domain(contents), Some("example.com".to_string()));
    assert_eq!(
        find_search_domain("search   spaced.lan  \n"),
        Some("spaced.lan".to_string())
    );
    // The domain is trimmed as `str::trim` trims: any Unicode
    // whitespace around it goes.
    assert_eq!(
        find_search_domain("search \u{00A0}padded.lan\u{000B}\u{2009} \nnameserver 1.1.1.1\n"),
        Some("padded.lan".to_string())
    );
}

#[test]
fn missing_search_line_yields_nothing() {
    assert_eq!(find_search_domain("nameserver 1.1.1.1\n"), None);
    assert_eq!(find_search_domain(""), None);
    // A prefix match is required: `search` without the space does not count.
    assert_eq!(find_search_domain("searchexample.com\n"), None);
}

#[test]
fn domain_fallback_prefers_non_empty_candidate() {
    assert_eq!(domain_or_default(Some("lan.home".to_string())), "lan.home");
    assert_eq!(domain_or_default(Some(String::new())), "local");
    assert_eq!(domain_or_default(None), "local");
}

#[test]
fn trimming_matches_str_trim() {
    assert_eq!(trim_whitespace("  a b \t\r"), "  a b \t\r".trim());
    assert_eq!(trim_whitespace("\t\r\n "), "\t\r\n ".trim());
    assert_eq!(trim_whitespace("plain"), "plain");
    assert_eq!(trim_whitespace("47123\n"), "47123");
    let padded = "\u{000B}\u{00A0}dom.example\u{2003}\u{3000}\u{000C}";
    assert_eq!(trim_whitespace(padded), padded.trim());
    assert_eq!(trim_whitespace(padded), "dom.example");
}

#[test]
fn thermal_file_content_formats_with_its_newline() {
    // A sysfs thermal reading always ends in a newline; the trimmed
    // text must still parse and format.
    let raw = "47123\n";
    let millideg = raspi_info_display::text::parse_u64(trim_whitespace(raw)).unwrap();
    assert_eq!(millideg, 47123);
    assert_eq!(format_cpu_temp(millideg), "47.1C");
}

#[test]
fn hostname_output_trims_before_the_fallback() {
    // `hostname -d` output ends in a newline; a lone newline trims to
    // nothing and falls back, real output keeps only the domain.
    let lone = trim_whitespace("\n").to_string();
    assert_eq!(domain_or_default(Some(lone)), "local");
    let real = trim_whitespace("example.com\n").to_string();
    assert_eq!(domain_or_default(Some(real)), "example.com");
}

#[test]
fn title_and_body_compose_the_display_text() {
    assert_eq!(compose_title("pi", "lan"), "pi.lan");
    assert_eq!(
        compose_body("10.0.0.2", "48.1C", "3d 4h 25m", "512/1024MB", "13/60GB"),
        "10.0.0.2\ncpu: 48.1C\nuptime: 3d 4h 25m\nmemory: 512/1024MB\ndisk: 13/60GB"
    );
}
