use drcp::{build_activity, AppConfig, AssetsPlan, PresenceButton, MAX_BUTTONS};

fn button(n: u32) -> PresenceButton {
    PresenceButton { label: format!("b{}", n), url: format!("https://e.com/{}", n) }
}

#[test]
fn activity_of_default_config() {
    let c = AppConfig::default();
    let a = build_activity(&c.presence, 1_700_000_000_000);
    assert_eq!(a.state.as_deref(), Some("Piszę aplikację w Rust"));
    assert_eq!(a.details.as_deref(), Some("Discord Rich Presence"));
    assert_eq!(a.start_timestamp, Some(1_700_000_000_000));
    assert_eq!(
        a.assets,
        Some(AssetsPlan {
            large_image: Some("rust".into()),
            large_text: Some("Rust Language".into()),
            small_image: Some("terminal".into()),
            small_text: Some("Konsola".into()),
        })
    );
    assert_eq!(a.buttons, c.presence.buttons);
}

#[test]
fn activity_keeps_at_most_two_buttons() {
    let mut c = AppConfig::default();
    c.presence.buttons = Some(vec![button(1), button(2), button(3)]);
    let a = build_activity(&c.presence, 0);
    assert_eq!(a.buttons, Some(vec![button(1), button(2)]));
    assert_eq!(MAX_BUTTONS, 2);
    c.presence.buttons = Some(vec![]);
    assert_eq!(build_activity(&c.presence, 0).buttons, Some(vec![]));
    c.presence.buttons = None;
    assert_eq!(build_activity(&c.presence, 0).buttons, None);
}

#[test]
fn activity_without_timestamp_or_images() {
    let mut c = AppConfig::default();
    c.presence.start_timestamp = false;
    c.presence.large_image = None;
    c.presence.small_image = None;
    let a = build_activity(&c.presence, 5);
    assert_eq!(a.start_timestamp, None);
    assert_eq!(a.assets, None);
}

#[test]
fn hover_text_needs_its_image() {
    let mut c = AppConfig::default();
    c.presence.large_image = None;
    let a = build_activity(&c.presence, 5);
    assert_eq!(
        a.assets,
        Some(AssetsPlan {
            large_image: None,
            large_text: None,
            small_image: Some("terminal".into()),
            small_text: Some("Konsola".into()),
        })
    );
}
