use notification_agent::audio::{AudioPlayer, Playback};
use notification_agent::config::{Config, DEFAULT_SERVER_URL, DEFAULT_SOUNDS_DIR};
use std::path::PathBuf;

#[test]
fn test_config_defaults() {
    let config = Config::from_values(None, None, None, "generated-id".to_string());
    assert_eq!(config.server_url, "ws://localhost:8080/ws");
    assert!(config.client_id.len() > 0);
    assert_eq!(config.client_id, "generated-id");
    assert_eq!(PathBuf::from(&config.sounds_dir), PathBuf::from("./sounds"));
    assert_eq!(DEFAULT_SERVER_URL, "ws://localhost:8080/ws");
    assert_eq!(DEFAULT_SOUNDS_DIR, "./sounds");
}

#[test]
fn configured_values_win_over_defaults() {
    let config = Config::from_values(
        Some("wss://alerts.example/ws".to_string()),
        Some("desk-4".to_string()),
        Some("/opt/sounds".to_string()),
        "generated-id".to_string(),
    );
    assert_eq!(
        config,
        Config {
            server_url: "wss://alerts.example/ws".to_string(),
            client_id: "desk-4".to_string(),
            sounds_dir: "/opt/sounds".to_string(),
        }
    );
    let partial =
        Config::from_values(None, Some("".to_string()), None, "generated-id".to_string());
    assert_eq!(partial.client_id, "");
    assert_eq!(partial.server_url, DEFAULT_SERVER_URL);
}

#[test]
fn missing_sound_file_falls_back_to_the_beep() {
    let player = AudioPlayer::new(PathBuf::from("./sounds"));
    assert_eq!(player.playback(true), Playback::File);
    assert_eq!(player.playback(false), Playback::SystemBeep);
    assert_eq!(player.sounds_dir(), &PathBuf::from("./sounds"));
}
