use drcp::reload_wanted;

fn path(s: &str) -> Vec<Vec<u8>> {
    s.split('/').filter(|c| !c.is_empty()).map(|c| c.as_bytes().to_vec()).collect()
}

#[test]
fn reload_on_change_of_the_config_file() {
    let cfg = path("home/u/.config/drcp/config.toml");
    let other = path("home/u/.config/drcp/other.toml");
    assert!(reload_wanted(true, false, &vec![other.clone(), cfg.clone()], &cfg));
    assert!(reload_wanted(false, true, &vec![cfg.clone()], &cfg));
    assert!(!reload_wanted(true, true, &vec![other.clone()], &cfg));
    assert!(!reload_wanted(false, false, &vec![cfg.clone()], &cfg));
    assert!(!reload_wanted(true, false, &vec![], &cfg));
}
