use zlorbrs::config::{find_named, Config, DaemonConfig};

#[test]
fn config_new_uses_stock_defaults() {
    let c = Config::new("web".to_string(), "/srv/web".to_string());
    assert_eq!(c.name, "web");
    assert_eq!(c.path, "/srv/web");
    assert_eq!(c.branch, "master");
    assert_eq!(c.remote, "origin");
    assert_eq!(c.build_command, "bun run build");
}

#[test]
fn daemon_config_absent_field_defaults_to_zero_with_warning() {
    let (cfg, warn) = DaemonConfig::resolve(None);
    assert_eq!(cfg.poll_interval_seconds, 0);
    assert!(warn);
}

#[test]
fn daemon_config_zero_interval_is_flagged() {
    let (cfg, warn) = DaemonConfig::resolve(Some(0));
    assert_eq!(cfg.poll_interval_seconds, 0);
    assert!(warn);
}

#[test]
fn daemon_config_positive_interval_passes_through() {
    let (cfg, warn) = DaemonConfig::resolve(Some(30));
    assert_eq!(cfg.poll_interval_seconds, 30);
    assert!(!warn);
}

#[test]
fn find_named_finds_first_match() {
    let names = vec!["alpha".to_string(), "beta".to_string(), "beta".to_string()];
    assert_eq!(find_named(&names, &"beta".to_string()), Some(1));
}

#[test]
fn find_named_misses_absent_name() {
    let names = vec!["alpha".to_string(), "beta".to_string()];
    assert_eq!(find_named(&names, &"gamma".to_string()), None);
    assert_eq!(find_named(&Vec::new(), &"alpha".to_string()), None);
}
