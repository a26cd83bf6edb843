// Configuration defaults and validity rules.

use vodbot::config::{
    default_config_location, validate_config, Config, ConfigChannel, FFMPEGLogLevel,
};

#[test]
fn default_config_is_valid() {
    let c = Config::default();
    assert!(validate_config(&c));
    assert_eq!(c.pull.gql_client_id, "kd1unb4b3q4t58fwlpcbzcbnm76a8fp");
    assert!(c.pull.download_workers >= 1);
    assert_eq!(c.pull.connection_retries, 5);
    assert_eq!(c.pull.connection_timeout, 10);
    assert_eq!(c.stage.timezone, "+0000");
    assert_eq!(c.upload.chunk_size, 262144);
    assert!(c.directories.vods.ends_with("vodbot/videos/vods"));
    assert!(c.directories.temp.ends_with("vodbot/temp"));
}

fn channel(name: &str) -> ConfigChannel {
    let mut ch = ConfigChannel::default();
    ch.username = name.to_string();
    ch
}

#[test]
fn username_length_is_enforced() {
    let mut c = Config::default();
    c.channels.push(channel("abc"));
    assert!(validate_config(&c));
    c.channels.push(channel("ab"));
    assert!(!validate_config(&c));
    c.channels.pop();
    c.channels.push(channel("abcdefghijklmnopqrstuvwxy"));
    assert!(!validate_config(&c));
}

#[test]
fn timezone_shape_is_enforced() {
    let mut c = Config::default();
    c.stage.timezone = "-0830".to_string();
    assert!(validate_config(&c));
    c.stage.timezone = "0000".to_string();
    assert!(!validate_config(&c));
    c.stage.timezone = "+00a0".to_string();
    assert!(!validate_config(&c));
    c.stage.timezone = "+00000".to_string();
    assert!(!validate_config(&c));
}

#[test]
fn caption_position_and_chunk_size_are_enforced() {
    let mut c = Config::default();
    c.chat.ytt_position_x = 101;
    assert!(!validate_config(&c));
    c.chat.ytt_position_x = 100;
    assert!(validate_config(&c));
    c.upload.chunk_size = 262143;
    assert!(!validate_config(&c));
}

#[test]
fn config_location_sits_under_vodbot_dir() {
    // platform-dependent: where a config directory exists, the path ends in
    // the application's file
    if let Some(p) = default_config_location() {
        assert!(p.ends_with("/vodbot/config.json"));
    }
}

#[test]
fn ffmpeg_loglevel_argument_is_lowercase_name() {
    assert_eq!(FFMPEGLogLevel::Warning.as_arg(), "warning");
    assert_eq!(FFMPEGLogLevel::Quiet.as_arg(), "quiet");
    assert_eq!(FFMPEGLogLevel::Trace.as_arg(), "trace");
}
