use drcp::{key_command_of, AppConfig, Command, ConnectionStatus, Event, KeyInput, Session, RECONNECT_DELAY_SECS};

fn tick(s: &mut Session, secs: u64) -> Command {
    s.step(Event::Tick { secs_since_update: secs })
}

#[test]
fn starts_disconnected_and_connects_at_first_tick() {
    let mut s = Session::new(AppConfig::default());
    assert_eq!(s.status, ConnectionStatus::Disconnected);
    assert!(s.force_update);
    assert_eq!(tick(&mut s, 0), Command::Connect);
    assert_eq!(s.status, ConnectionStatus::Reconnecting(0));
    assert_eq!(s.step(Event::ConnectSucceeded), Command::RestartClock);
    assert_eq!(s.status, ConnectionStatus::Connected);
    assert_eq!(tick(&mut s, 0), Command::SendActivity);
    assert_eq!(s.step(Event::ActivitySent), Command::RestartClock);
    assert!(!s.force_update);
    assert_eq!(tick(&mut s, 14), Command::Idle);
    assert_eq!(tick(&mut s, 15), Command::SendActivity);
}

#[test]
fn failed_connection_retries_after_the_countdown() {
    let mut s = Session::new(AppConfig::default());
    assert_eq!(tick(&mut s, 0), Command::Connect);
    assert_eq!(s.step(Event::ConnectFailed("no socket".into())), Command::Idle);
    assert_eq!(s.status, ConnectionStatus::Reconnecting(RECONNECT_DELAY_SECS));
    assert_eq!(s.error_msg.as_deref(), Some("Error connecting to Discord IPC: no socket"));
    for left in (1..RECONNECT_DELAY_SECS).rev() {
        assert_eq!(tick(&mut s, 0), Command::Idle);
        assert_eq!(s.status, ConnectionStatus::Reconnecting(left));
    }
    assert_eq!(s.status, ConnectionStatus::Reconnecting(1));
    assert_eq!(tick(&mut s, 0), Command::Connect);
    assert_eq!(s.status, ConnectionStatus::Reconnecting(0));
    assert_eq!(s.reconnect_timer, 0);
}

#[test]
fn failed_update_drops_the_client() {
    let mut s = Session::new(AppConfig::default());
    tick(&mut s, 0);
    s.step(Event::ConnectSucceeded);
    assert_eq!(s.step(Event::ActivityFailed("broken pipe".into())), Command::DropClient);
    assert_eq!(s.status, ConnectionStatus::Disconnected);
    assert_eq!(s.reconnect_timer, RECONNECT_DELAY_SECS);
    assert_eq!(s.error_msg.as_deref(), Some("Error updating activity: broken pipe"));
    assert_eq!(tick(&mut s, 0), Command::Idle);
    assert_eq!(s.status, ConnectionStatus::Reconnecting(4));
}

#[test]
fn reload_with_new_client_id_reconnects() {
    let mut s = Session::new(AppConfig::default());
    tick(&mut s, 0);
    s.step(Event::ConnectSucceeded);
    s.step(Event::ActivitySent);
    let mut c = AppConfig::default();
    c.client_id = "999".into();
    assert_eq!(s.step(Event::ConfigReloaded(c.clone())), Command::CloseClient);
    assert_eq!(s.status, ConnectionStatus::Disconnected);
    assert_eq!(s.config, c);
    assert_eq!(tick(&mut s, 0), Command::Connect);
}

#[test]
fn reload_with_same_client_id_pushes_the_presence() {
    let mut s = Session::new(AppConfig::default());
    tick(&mut s, 0);
    s.step(Event::ConnectSucceeded);
    s.step(Event::ActivitySent);
    let mut c = AppConfig::default();
    c.presence.details = Some("new".into());
    assert_eq!(s.step(Event::ConfigReloaded(c)), Command::Idle);
    assert_eq!(s.status, ConnectionStatus::Connected);
    assert_eq!(tick(&mut s, 1), Command::SendActivity);
}

#[test]
fn reload_error_is_shown() {
    let mut s = Session::new(AppConfig::default());
    assert_eq!(s.step(Event::ConfigReloadFailed("bad toml".into())), Command::Idle);
    assert_eq!(s.error_msg.as_deref(), Some("Error reloading config: bad toml"));
    assert_eq!(s.config, AppConfig::default());
}

#[test]
fn keys_and_exit() {
    let ctrl_c = KeyInput { ch: Some('c'), ctrl: true };
    assert_eq!(key_command_of(ctrl_c), Command::QueueExit);
    assert_eq!(key_command_of(KeyInput { ch: Some('c'), ctrl: false }), Command::Idle);
    assert_eq!(key_command_of(KeyInput { ch: Some('e'), ctrl: false }), Command::OpenEditor);
    assert_eq!(key_command_of(KeyInput { ch: Some('E'), ctrl: false }), Command::OpenEditor);
    assert_eq!(key_command_of(KeyInput { ch: None, ctrl: true }), Command::Idle);
    let mut s = Session::new(AppConfig::default());
    assert_eq!(s.step(Event::Key(ctrl_c)), Command::QueueExit);
    assert_eq!(s.step(Event::Exit), Command::Shutdown);
}

#[test]
fn editor_result_is_pushed() {
    let mut s = Session::new(AppConfig::default());
    tick(&mut s, 0);
    s.step(Event::ConnectSucceeded);
    s.step(Event::ActivitySent);
    let mut c = AppConfig::default();
    c.presence.state = None;
    assert_eq!(s.step(Event::EditorClosed(c.clone())), Command::Idle);
    assert_eq!(s.config, c);
    assert_eq!(tick(&mut s, 0), Command::SendActivity);
}

#[test]
fn retry_comes_five_ticks_after_a_failure() {
    let mut s = Session::new(AppConfig::default());
    tick(&mut s, 0);
    s.step(Event::ConnectFailed("x".into()));
    let mut ticks = 0;
    loop {
        ticks += 1;
        if tick(&mut s, 0) == Command::Connect {
            break;
        }
    }
    assert_eq!(ticks, 5);
}

#[test]
fn editor_client_id_change_reconnects() {
    let mut s = Session::new(AppConfig::default());
    tick(&mut s, 0);
    s.step(Event::ConnectSucceeded);
    s.step(Event::ActivitySent);
    let mut c = AppConfig::default();
    c.client_id = "111".into();
    assert_eq!(s.step(Event::EditorClosed(c.clone())), Command::CloseClient);
    assert_eq!(s.status, ConnectionStatus::Disconnected);
    assert_eq!(s.reconnect_timer, 0);
    assert_eq!(s.config, c);
    assert!(s.force_update);
    assert_eq!(tick(&mut s, 0), Command::Connect);
}
