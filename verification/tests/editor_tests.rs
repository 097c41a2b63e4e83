use drcp::{
    answer_button_choice, editor_step, parse_button_action, parse_menu_item, AppConfig, ButtonAction, EditorEffect, EditorState, MenuItem,
    PresenceButton, TextField, MAX_BUTTONS,
};

fn line(s: &str) -> Option<String> {
    Some(s.to_string())
}

#[test]
fn menu_items() {
    assert_eq!(parse_menu_item("1"), Some(MenuItem::Edit(TextField::ClientId)));
    assert_eq!(parse_menu_item("7"), Some(MenuItem::Edit(TextField::SmallText)));
    assert_eq!(parse_menu_item("8"), Some(MenuItem::Buttons));
    assert_eq!(parse_menu_item("9"), Some(MenuItem::Save));
    assert_eq!(parse_menu_item("10"), None);
    assert_eq!(parse_menu_item(""), None);
    assert_eq!(parse_button_action("c"), ButtonAction::Clear);
    assert_eq!(parse_button_action("a"), ButtonAction::Add);
    assert_eq!(parse_button_action("back"), ButtonAction::Back);
}

#[test]
fn menu_answers_are_trimmed() {
    let mut c = AppConfig::default();
    assert_eq!(editor_step(EditorState::Menu, &mut c, line(" 9\n")), (EditorState::Menu, EditorEffect::SaveAndClose));
    assert_eq!(
        editor_step(EditorState::Menu, &mut c, line("2\n")),
        (EditorState::EnterValue(TextField::Details), EditorEffect::Continue)
    );
    assert_eq!(editor_step(EditorState::Menu, &mut c, line("8\n")), (EditorState::ButtonsChoice, EditorEffect::Continue));
    assert_eq!(editor_step(EditorState::Menu, &mut c, line("x\n")), (EditorState::Menu, EditorEffect::Continue));
    assert_eq!(editor_step(EditorState::Menu, &mut c, None), (EditorState::Menu, EditorEffect::Close));
    assert_eq!(c, AppConfig::default());
}

#[test]
fn setting_text_fields() {
    let mut c = AppConfig::default();
    let r = editor_step(EditorState::EnterValue(TextField::ClientId), &mut c, line("  42 \n"));
    assert_eq!(r, (EditorState::Menu, EditorEffect::Continue));
    assert_eq!(c.client_id, "42");
    editor_step(EditorState::EnterValue(TextField::Details), &mut c, line("Coding\n"));
    assert_eq!(c.presence.details.as_deref(), Some("Coding"));
    editor_step(EditorState::EnterValue(TextField::State), &mut c, line("   \n"));
    assert_eq!(c.presence.state, None);
    editor_step(EditorState::EnterValue(TextField::LargeText), &mut c, None);
    assert_eq!(c.presence.large_text, None);
    editor_step(EditorState::EnterValue(TextField::SmallImage), &mut c, line("logo"));
    assert_eq!(c.presence.small_image.as_deref(), Some("logo"));
    editor_step(EditorState::EnterValue(TextField::ClientId), &mut c, line("\n"));
    assert_eq!(c.client_id, "");
    assert_eq!(c.presence.large_image.as_deref(), Some("rust"));
}

#[test]
fn button_choice_is_case_insensitive() {
    let mut c = AppConfig::default();
    let r = editor_step(EditorState::ButtonsChoice, &mut c, line(" C \n"));
    assert_eq!(r, (EditorState::Menu, EditorEffect::Continue));
    assert_eq!(c.presence.buttons, None);
    let r = editor_step(EditorState::ButtonsChoice, &mut c, line("A\n"));
    assert_eq!(r, (EditorState::ButtonLabel, EditorEffect::Continue));
    let r = editor_step(EditorState::ButtonsChoice, &mut c, line("back\n"));
    assert_eq!(r, (EditorState::Menu, EditorEffect::Continue));
}

#[test]
fn adding_a_button() {
    let mut c = AppConfig::default();
    c.presence.buttons = None;
    let (s, _) = editor_step(EditorState::ButtonsChoice, &mut c, line("a\n"));
    let (s, _) = editor_step(s, &mut c, line(" Home \n"));
    assert_eq!(s, EditorState::ButtonUrl("Home".to_string()));
    let (s, e) = editor_step(s, &mut c, line("https://x.org\n"));
    assert_eq!((s, e), (EditorState::Menu, EditorEffect::Continue));
    assert_eq!(c.presence.buttons, Some(vec![PresenceButton { label: "Home".into(), url: "https://x.org".into() }]));
}

#[test]
fn third_button_is_refused() {
    let mut c = AppConfig::default();
    assert_eq!(MAX_BUTTONS, 2);
    let r = editor_step(EditorState::ButtonsChoice, &mut c, line("a\n"));
    assert_eq!(r, (EditorState::Menu, EditorEffect::ButtonLimitReached));
    assert_eq!(c, AppConfig::default());
}

#[test]
fn button_submenu_answers() {
    let mut c = AppConfig::default();
    assert_eq!(answer_button_choice(&mut c, "a"), (EditorState::Menu, EditorEffect::ButtonLimitReached));
    assert_eq!(c, AppConfig::default());
    assert_eq!(answer_button_choice(&mut c, "x"), (EditorState::Menu, EditorEffect::Continue));
    assert_eq!(c, AppConfig::default());
    assert_eq!(answer_button_choice(&mut c, "A"), (EditorState::Menu, EditorEffect::Continue));
    assert_eq!(answer_button_choice(&mut c, "c"), (EditorState::Menu, EditorEffect::Continue));
    assert_eq!(c.presence.buttons, None);
    assert_eq!(answer_button_choice(&mut c, "a"), (EditorState::ButtonLabel, EditorEffect::Continue));
    c.presence.buttons = Some(vec![PresenceButton { label: "l".into(), url: "u".into() }]);
    assert_eq!(answer_button_choice(&mut c, "a"), (EditorState::ButtonLabel, EditorEffect::Continue));
}
