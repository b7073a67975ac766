use vrcbadge_core::logger::{init, log_level_enabled, LogLevel};
use vrcbadge_core::profile::{
    default_background_color, default_tagline_background_color, default_tagline_color,
    parse_hex_color, valid_profile_body_len, Color, Profile,
};
use vrcbadge_core::storage::{
    accept_image, AVATAR_HEIGHT, AVATAR_IMAGE_SIZE, AVATAR_WIDTH, BACKGROUND_IMAGE_SIZE,
};
use vrcbadge_core::sysinfo::{clamp_client_count, firmware_version, uptime_string};

#[test]
fn snapshot_of_fresh_buffer_is_empty() {
    let buffer = init();
    assert_eq!(buffer.snapshot(), "");
}

#[test]
fn log_lines_carry_tag_and_short_target() {
    let mut buffer = init();
    buffer.log(LogLevel::Info, "vrcbadge_core::display", "panel up");
    buffer.log(LogLevel::Warn, "other_crate", "odd reading");
    buffer.log(LogLevel::Error, "vrcbadge_core", "bus stalled");
    assert_eq!(
        buffer.snapshot(),
        "I [display] panel up\nW [other_crate] odd reading\nE bus stalled"
    );
}

#[test]
fn debug_and_trace_are_not_recorded() {
    let mut buffer = init();
    buffer.log(LogLevel::Debug, "m", "invisible");
    buffer.log(LogLevel::Trace, "m", "invisible");
    assert_eq!(buffer.snapshot(), "");
    assert!(!log_level_enabled(LogLevel::Debug));
    assert!(!log_level_enabled(LogLevel::Trace));
    assert!(log_level_enabled(LogLevel::Info));
}

#[test]
fn ring_buffer_drops_the_oldest_line() {
    let mut buffer = init();
    for i in 0..55 {
        buffer.log(LogLevel::Info, "", &format!("line {}", i));
    }
    let snapshot = buffer.snapshot();
    let lines: Vec<&str> = snapshot.split('\n').collect();
    assert_eq!(lines.len(), 50);
    assert_eq!(lines[0], "I line 5");
    assert_eq!(lines[49], "I line 54");
}

#[test]
fn uptime_renders_nonzero_fields_only() {
    assert_eq!(uptime_string(0), "0s");
    assert_eq!(uptime_string(59), "59s");
    assert_eq!(uptime_string(60), "1m 0s");
    assert_eq!(uptime_string(61), "1m 1s");
    assert_eq!(uptime_string(3600), "1h 0m 0s");
    assert_eq!(uptime_string(3661), "1h 1m 1s");
    assert_eq!(uptime_string(86399), "23h 59m 59s");
}

#[test]
fn version_matches_the_manifest() {
    assert_eq!(firmware_version(), "1.0.0");
}

#[test]
fn client_count_clamps_into_range() {
    assert_eq!(clamp_client_count(-3), 0);
    assert_eq!(clamp_client_count(0), 0);
    assert_eq!(clamp_client_count(4), 4);
    assert_eq!(clamp_client_count(99), 15);
}

#[test]
fn default_profile_is_the_factory_card() {
    let p = Profile::default();
    assert_eq!(p.display_name, "Hebu");
    assert_eq!(p.tagline, "Hello from VRCBadge!");
    assert_eq!(p.twitter_handle, "@Hebu_VRC");
    assert_eq!(p.discord_handle, "hebu");
    assert_eq!(p.background_color, default_background_color());
    assert_eq!(p.tagline_color, default_tagline_color());
    assert_eq!(p.tagline_background_color, default_tagline_background_color());
}

#[test]
fn default_colors_are_css_hex() {
    assert_eq!(default_background_color(), "#1a1a2e");
    assert_eq!(default_tagline_color(), "#e0e8f0");
    assert_eq!(default_tagline_background_color(), "#1b4f72");
}

#[test]
fn hex_colors_parse_exactly() {
    assert_eq!(parse_hex_color("#1a1a2e"), Some(Color { r: 0x1A, g: 0x1A, b: 0x2E }));
    assert_eq!(parse_hex_color("#FFFFFF"), Some(Color { r: 255, g: 255, b: 255 }));
    assert_eq!(parse_hex_color("#000000"), Some(Color { r: 0, g: 0, b: 0 }));
    assert_eq!(parse_hex_color("#1B4f72"), Some(Color { r: 0x1B, g: 0x4F, b: 0x72 }));
}

#[test]
fn malformed_hex_colors_are_rejected() {
    assert_eq!(parse_hex_color("1a1a2e"), None); // missing '#'
    assert_eq!(parse_hex_color("#1a1a2"), None); // too short
    assert_eq!(parse_hex_color("#1a1a2ef"), None); // too long
    assert_eq!(parse_hex_color("#gggggg"), None); // not hex
    assert_eq!(parse_hex_color(""), None);
}

#[test]
fn profile_body_length_gate() {
    assert!(!valid_profile_body_len(0));
    assert!(valid_profile_body_len(1));
    assert!(valid_profile_body_len(4096));
    assert!(!valid_profile_body_len(4097));
}

#[test]
fn image_sizes_match_the_layouts() {
    assert_eq!(AVATAR_WIDTH, 150);
    assert_eq!(AVATAR_HEIGHT, 150);
    assert_eq!(AVATAR_IMAGE_SIZE, 150 * 150 * 3);
    assert_eq!(BACKGROUND_IMAGE_SIZE, 480 * 320 * 3);
}

#[test]
fn images_are_accepted_only_at_exact_size() {
    let exact = vec![7u8; 12];
    assert_eq!(accept_image(exact.clone(), 12), Some(exact));
    assert_eq!(accept_image(vec![7u8; 11], 12), None);
    assert_eq!(accept_image(vec![7u8; 13], 12), None);
    assert_eq!(accept_image(Vec::new(), 12), None);
}
