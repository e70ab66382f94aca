use ffmpeg_gateway::config::Config;
use ffmpeg_gateway::descriptor::parse_descriptor;
use ffmpeg_gateway::descriptor::Descriptor;
use ffmpeg_gateway::descriptor::Registry;
use ffmpeg_gateway::text::str_eq;

#[test]
fn parses_full_descriptor() {
    let d = parse_descriptor("s3://bucket/clip.mp4").unwrap();
    assert_eq!(d.scheme, "s3");
    assert_eq!(d.authority, "bucket");
    assert_eq!(d.path, "clip.mp4");
}

#[test]
fn parses_nested_path() {
    let d = parse_descriptor("fs://root/dir/sub/file.bin").unwrap();
    assert_eq!(d.scheme, "fs");
    assert_eq!(d.authority, "root");
    assert_eq!(d.path, "dir/sub/file.bin");
}

#[test]
fn trailing_slash_means_empty_path() {
    let d = parse_descriptor("s3://bucket/").unwrap();
    assert_eq!(d.scheme, "s3");
    assert_eq!(d.authority, "bucket");
    assert_eq!(d.path, "");
}

#[test]
fn missing_slash_means_empty_path() {
    let d = parse_descriptor("s3://bucket").unwrap();
    assert_eq!(d.authority, "bucket");
    assert_eq!(d.path, "");
}

#[test]
fn empty_authority_is_kept_empty() {
    let d = parse_descriptor("s3:///key").unwrap();
    assert_eq!(d.authority, "");
    assert_eq!(d.path, "key");
}

#[test]
fn rejects_malformed_descriptors() {
    assert!(parse_descriptor("").is_none());
    assert!(parse_descriptor("no-scheme").is_none());
    assert!(parse_descriptor("://bucket/x").is_none());
    assert!(parse_descriptor("s3:/bucket/x").is_none());
    assert!(parse_descriptor("s3:bucket").is_none());
    assert!(parse_descriptor("a/b://c").is_none());
    assert!(parse_descriptor("s3:").is_none());
    assert!(parse_descriptor("s3://").is_some());
}

#[test]
fn split_strips_path_from_backend_key() {
    let d = parse_descriptor("s3://bucket/clip.mp4").unwrap();
    let (key, rel) = d.split();
    assert_eq!(key, "s3://bucket");
    assert_eq!(rel, "clip.mp4");
}

#[test]
fn split_of_root_destination() {
    let d = parse_descriptor("s3://bucket/").unwrap();
    let (key, rel) = d.split();
    assert_eq!(key, "s3://bucket");
    assert_eq!(rel, "");
}

#[test]
fn resolution_is_idempotent() {
    let d = parse_descriptor("s3://bucket/clip.mp4").unwrap();
    let first = d.split();
    let second = d.split();
    assert_eq!(first, second);
}

#[test]
fn registry_knows_registered_schemes() {
    let mut registry = Registry::new();
    registry.register(String::from("s3"));
    registry.register(String::from("fs"));
    assert!(registry.is_registered("s3"));
    assert!(registry.is_registered("fs"));
    assert!(!registry.is_registered("ftp"));
    assert!(!registry.is_registered(""));
}

#[test]
fn manual_descriptor_splits_like_parsed_one() {
    let d = Descriptor {
        scheme: String::from("memory"),
        authority: String::from(""),
        path: String::from("x/y"),
    };
    let (key, rel) = d.split();
    assert_eq!(key, "memory://");
    assert_eq!(rel, "x/y");
}

#[test]
fn str_eq_agrees_with_equality() {
    assert!(str_eq("", ""));
    assert!(str_eq("abc", "abc"));
    assert!(!str_eq("abc", "abd"));
    assert!(!str_eq("abc", "ab"));
    assert!(!str_eq("", "-"));
}

#[test]
fn default_config_is_empty() {
    let config = Config::default();
    assert!(config.profiles.is_empty());
    assert!(config.restate.service.inactivity_timeout_secs.is_none());
    assert!(config.restate.service.abort_timeout_secs.is_none());
}
