use drcp::{choose_config_path, config_banner_str, config_file_text, default_start_timestamp, AppConfig, PresenceButton};

#[test]
fn start_timestamp_defaults_to_true() {
    assert!(default_start_timestamp());
}

#[test]
fn default_config_holds_the_sample_presence() {
    let c = AppConfig::default();
    assert_eq!(c.client_id, "123456789012345678");
    assert_eq!(c.presence.state.as_deref(), Some("Piszę aplikację w Rust"));
    assert_eq!(c.presence.details.as_deref(), Some("Discord Rich Presence"));
    assert_eq!(c.presence.large_image.as_deref(), Some("rust"));
    assert_eq!(c.presence.large_text.as_deref(), Some("Rust Language"));
    assert_eq!(c.presence.small_image.as_deref(), Some("terminal"));
    assert_eq!(c.presence.small_text.as_deref(), Some("Konsola"));
    assert!(c.presence.start_timestamp);
    assert_eq!(
        c.presence.buttons,
        Some(vec![
            PresenceButton { label: "Odwiedź Rusta".to_string(), url: "https://www.rust-lang.org".to_string() },
            PresenceButton { label: "Mój GitHub".to_string(), url: "https://github.com".to_string() },
        ])
    );
}

#[test]
fn config_file_starts_with_the_banner() {
    let text = config_file_text("client_id = \"1\"\n");
    assert!(text.starts_with("# Konfiguracja Discord Rich Presence (DURCP)\n# \n"));
    assert!(text.ends_with("aplikację!\n\nclient_id = \"1\"\n"));
    assert_eq!(text.len(), config_banner_str().len() + "client_id = \"1\"\n".len());
}

#[test]
fn banner_has_nine_comment_lines_and_a_blank_line() {
    let b = config_banner_str();
    assert_eq!(b.lines().count(), 10);
    assert!(b.lines().take(9).all(|l| l.starts_with('#')));
    assert!(b.ends_with("\n\n"));
}

#[test]
fn local_config_wins_when_present() {
    let local = std::path::PathBuf::from("config.toml");
    let user = std::path::PathBuf::from("/home/u/.config/drcp/config.toml");
    assert_eq!(choose_config_path(local.clone(), true, user.clone()), local);
    assert_eq!(choose_config_path(local.clone(), false, user.clone()), user);
    assert_eq!(choose_config_path("a", true, "b"), "a");
}
