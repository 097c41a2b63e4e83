use drcp::{dashboard, format_uptime, status_label, AppConfig, ConnectionStatus, ImageLine, PresenceButton};

#[test]
fn status_labels() {
    assert_eq!(status_label(ConnectionStatus::Connected), "CONNECTED");
    assert_eq!(status_label(ConnectionStatus::Disconnected), "DISCONNECTED");
    assert_eq!(status_label(ConnectionStatus::Reconnecting(5)), "RECONNECTING IN 5s...");
    assert_eq!(status_label(ConnectionStatus::Reconnecting(0)), "RECONNECTING IN 0s...");
}

#[test]
fn uptime_format() {
    assert_eq!(format_uptime(0), "00:00:00");
    assert_eq!(format_uptime(59), "00:00:59");
    assert_eq!(format_uptime(61), "00:01:01");
    assert_eq!(format_uptime(3 * 3600 + 25 * 60 + 7), "03:25:07");
    assert_eq!(format_uptime(100 * 3600), "100:00:00");
}

#[test]
fn dashboard_of_default_config() {
    let c = AppConfig::default();
    let d = dashboard(ConnectionStatus::Connected, &c, 65, &None);
    assert_eq!(d.status, "CONNECTED");
    assert_eq!(d.uptime, "00:01:05");
    assert_eq!(d.client_id, "123456789012345678");
    assert_eq!(d.details.as_deref(), Some("Discord Rich Presence"));
    assert_eq!(d.state.as_deref(), Some("Piszę aplikację w Rust"));
    assert_eq!(d.large_image, Some(ImageLine { image: "rust".into(), text: "Rust Language".into() }));
    assert_eq!(d.small_image, Some(ImageLine { image: "terminal".into(), text: "Konsola".into() }));
    assert_eq!(d.buttons.len(), 2);
    assert_eq!(d.error, None);
}

#[test]
fn dashboard_hides_missing_parts() {
    let mut c = AppConfig::default();
    c.presence.large_text = None;
    c.presence.small_image = None;
    c.presence.details = None;
    c.presence.buttons = None;
    let d = dashboard(ConnectionStatus::Reconnecting(3), &c, 3600, &Some("boom".to_string()));
    assert_eq!(d.status, "RECONNECTING IN 3s...");
    assert_eq!(d.uptime, "01:00:00");
    assert_eq!(d.details, None);
    assert_eq!(d.large_image, Some(ImageLine { image: "rust".into(), text: String::new() }));
    assert_eq!(d.small_image, None);
    assert!(d.buttons.is_empty());
    assert_eq!(d.error.as_deref(), Some("boom"));
    c.presence.buttons = Some(vec![PresenceButton { label: "a".into(), url: "b".into() }]);
    assert_eq!(dashboard(ConnectionStatus::Disconnected, &c, 0, &None).buttons.len(), 1);
}
