use what_time::ConfigSource;
use what_time::WhatTimeError;
use what_time::default_config;
use what_time::classify_source;
use what_time::get_config;
use what_time::get_local_time;
use what_time::is_url;
use what_time::parse_config;

#[test]
fn test_parse_config() {
    let config = "
tom America/Los_Angeles
sally NZ
";

    let zones = parse_config(config);
    assert_eq!(zones.get("sally").unwrap().as_str(), "NZ");
    assert_eq!(zones.get("tom").unwrap().as_str(), "America/Los_Angeles");
}

#[test]
fn test_parse_config_makes_names_lower_case() {
    let config = "Bob   America/Chicago";
    let zones = parse_config(config);
    assert_eq!(zones.get("bob").unwrap().as_str(), "America/Chicago");
}

#[test]
fn test_is_url() {
    assert!(is_url("http://"));
    assert!(is_url("https://"));
    assert!(!is_url("./what-time"))
}

#[test]
fn test_parse_config_empty_text() {
    let zones = parse_config("");
    assert!(zones.get("tom").is_none());
}

#[test]
fn test_parse_config_skips_name_without_zone() {
    let config = "alice\nbob America/New_York";
    let zones = parse_config(config);
    assert!(zones.get("alice").is_none());
    assert_eq!(zones.get("bob").unwrap().as_str(), "America/New_York");
}

#[test]
fn test_parse_config_ignores_blank_lines_and_extra_tokens() {
    let config = "   \n\ttom\tEurope/Paris  ignored tokens\n\n";
    let zones = parse_config(config);
    assert_eq!(zones.get("tom").unwrap().as_str(), "Europe/Paris");
}

#[test]
fn test_parse_config_last_duplicate_wins() {
    let config = "tom America/Chicago\nTOM Europe/Berlin";
    let zones = parse_config(config);
    assert_eq!(zones.get("tom").unwrap().as_str(), "Europe/Berlin");
}

#[test]
fn test_classify_source() {
    match classify_source("https://example.test/friends") {
        ConfigSource::RemoteUrl(u) => assert_eq!(u, "https://example.test/friends"),
        ConfigSource::LocalPath(_) => panic!("a URL classified as a local path"),
    }
    match classify_source("./what-time") {
        ConfigSource::LocalPath(p) => assert_eq!(p, "./what-time"),
        ConfigSource::RemoteUrl(_) => panic!("a path classified as a URL"),
    }
}

#[test]
fn test_get_config_passes_text_through() {
    let r = get_config("./friends", Ok("tom NZ\n".to_string()));
    assert_eq!(r.unwrap(), "tom NZ\n");
}

#[test]
fn test_get_config_labels_disk_failure() {
    let r = get_config("/no/such/path", Err("file not found".to_string()));
    assert_eq!(
        r.unwrap_err(),
        WhatTimeError::ReadConfigFromDiskError("file not found".to_string())
    );
}

#[test]
fn test_get_config_labels_http_failure() {
    let r = get_config("http://example.test/friends", Err("connection refused".to_string()));
    assert_eq!(
        r.unwrap_err(),
        WhatTimeError::ReadConfigViaHttpError("connection refused".to_string())
    );
}

#[test]
fn test_default_config_with_home() {
    assert_eq!(default_config(Some("/home/pat")), "/home/pat/.what-time");
}

#[test]
fn test_default_config_without_home() {
    assert_eq!(default_config(None), "./.what-time");
}

#[test]
fn test_get_local_time_unknown_friend() {
    let zones = parse_config("tom UTC");
    let r = get_local_time("sally", zones);
    assert_eq!(
        r.unwrap_err(),
        WhatTimeError::UnknownFriendError("sally".to_string())
    );
}

#[test]
fn test_get_local_time_bad_zone_string() {
    let zones = parse_config("sally NotAZone");
    let r = get_local_time("Sally", zones);
    assert_eq!(
        r.unwrap_err(),
        WhatTimeError::ParseTzStringError("NotAZone".to_string())
    );
}

#[test]
fn test_get_local_time_formats_known_friend() {
    let zones = parse_config("tom America/Los_Angeles\nsally NZ");
    let display = get_local_time("TOM", zones).unwrap();
    let b = display.as_bytes();
    assert_eq!(b.len(), 12);
    assert!(b[0].is_ascii_alphabetic());
    assert!(b[1].is_ascii_alphabetic());
    assert!(b[2].is_ascii_alphabetic());
    assert_eq!(b[3], b' ');
    assert!(b[4].is_ascii_digit());
    assert!(b[5].is_ascii_digit());
    assert_eq!(b[6], b':');
    assert!(b[7].is_ascii_digit());
    assert!(b[8].is_ascii_digit());
    assert_eq!(b[9], b' ');
    assert!(b[10] == b'A' || b[10] == b'P');
    assert_eq!(b[11], b'M');
}
