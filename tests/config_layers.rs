use xsnotif::config::{ConfigLayer, NotificationStrategy, NotifierConfig};

fn host_layer(host: &str) -> ConfigLayer {
    let mut l = ConfigLayer::empty();
    l.host = Some(host.to_string());
    l
}

#[test]
fn defaults_match_documented_values() {
    let c = NotifierConfig::default();
    assert_eq!(c.port, 42069);
    assert_eq!(c.host, "localhost");
    assert_eq!(c.notification_strategy, NotificationStrategy::Listener);
    assert_eq!(c.polling_rate, 250);
    assert_eq!(c.timeout_ms, 2000);
    assert_eq!(NotificationStrategy::default(), NotificationStrategy::Listener);
}

#[test]
fn command_line_wins_over_environment_and_file() {
    let layers = vec![host_layer("x"), host_layer("y"), host_layer("z")];
    assert_eq!(NotifierConfig::with_layers(&layers).host, "z");
}

#[test]
fn environment_wins_when_command_line_is_silent() {
    let layers = vec![host_layer("x"), host_layer("y"), ConfigLayer::empty()];
    assert_eq!(NotifierConfig::with_layers(&layers).host, "y");
}

#[test]
fn file_value_used_when_nothing_overrides_it() {
    let layers = vec![host_layer("x"), ConfigLayer::empty(), ConfigLayer::empty()];
    assert_eq!(NotifierConfig::with_layers(&layers).host, "x");
}

#[test]
fn no_layers_give_defaults() {
    let c = NotifierConfig::with_layers(&vec![]);
    assert_eq!(c.host, "localhost");
    assert_eq!(c.port, 42069);
}

#[test]
fn each_setting_taken_from_its_own_topmost_layer() {
    let mut file = ConfigLayer::empty();
    file.port = Some(1000);
    file.polling_rate = Some(500);
    file.notification_strategy = Some(NotificationStrategy::Polling);
    let mut env = ConfigLayer::empty();
    env.port = Some(2000);
    env.timeout_ms = Some(3500);
    let mut cli = ConfigLayer::empty();
    cli.host = Some("overlay.local".to_string());
    let c = NotifierConfig::with_layers(&vec![file, env, cli]);
    assert_eq!(c.port, 2000);
    assert_eq!(c.host, "overlay.local");
    assert_eq!(c.notification_strategy, NotificationStrategy::Polling);
    assert_eq!(c.polling_rate, 500);
    assert_eq!(c.timeout_ms, 3500);
}
