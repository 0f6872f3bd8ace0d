use metrics_exporter::config::{Config, DEFAULT_SCRAPE_INTERVAL};

#[test]
fn new_holds_the_defaults() {
    let cfg = Config::new();
    assert_eq!(cfg.scrape_addr, "http://127.0.0.1:9090");
    assert_eq!(cfg.push_addr, "");
    assert!(cfg.instance.starts_with("devbox-"));
    assert!(cfg.instance.len() > "devbox-".len());
    assert_eq!(cfg.job, "metrics_exporter");
    assert_eq!(cfg.scrape_interval, 15);
    assert_eq!(DEFAULT_SCRAPE_INTERVAL, 15);
}

#[test]
fn default_matches_new() {
    let cfg = Config::default();
    assert_eq!(cfg.scrape_addr, "http://127.0.0.1:9090");
    assert_eq!(cfg.push_addr, "");
    assert!(cfg.instance.starts_with("devbox-"));
    assert_eq!(cfg.job, "metrics_exporter");
    assert_eq!(cfg.scrape_interval, 15);
}

#[test]
fn generated_name_is_a_word_pair() {
    let cfg = Config::new();
    let name = &cfg.instance["devbox-".len()..];
    assert!(name.contains('-'));
}

#[test]
fn default_named_uses_the_name() {
    let cfg = Config::default_named("brave-otter".to_string());
    assert_eq!(cfg.instance, "devbox-brave-otter");
    assert_eq!(cfg.job, "metrics_exporter");
}

#[test]
fn new_from_args_without_values_gives_defaults() {
    let cfg = Config::new_from_args(None, None, None, None, None);
    assert_eq!(cfg.scrape_addr, "http://127.0.0.1:9090");
    assert_eq!(cfg.push_addr, "");
    assert!(cfg.instance.starts_with("devbox-"));
    assert_eq!(cfg.job, "metrics_exporter");
    assert_eq!(cfg.scrape_interval, 15);
}

#[test]
fn new_from_args_takes_every_value() {
    let cfg = Config::new_from_args(
        Some("http://src:9100/metrics".to_string()),
        Some("http://gw:9091".to_string()),
        Some("host1".to_string()),
        Some("batchA".to_string()),
        Some(60),
    );
    assert_eq!(cfg.scrape_addr, "http://src:9100/metrics");
    assert_eq!(cfg.push_addr, "http://gw:9091");
    assert_eq!(cfg.instance, "host1");
    assert_eq!(cfg.job, "batchA");
    assert_eq!(cfg.scrape_interval, 60);
}

#[test]
fn new_from_args_named_mixes_values_and_defaults() {
    let cfg = Config::new_from_args_named(
        None,
        Some("http://gw:9091".to_string()),
        None,
        None,
        Some(5),
        "quiet-lake".to_string(),
    );
    assert_eq!(cfg.scrape_addr, "http://127.0.0.1:9090");
    assert_eq!(cfg.push_addr, "http://gw:9091");
    assert_eq!(cfg.instance, "devbox-quiet-lake");
    assert_eq!(cfg.job, "metrics_exporter");
    assert_eq!(cfg.scrape_interval, 5);
}

#[test]
fn describe_lists_every_setting() {
    let cfg = Config::new_from_args_named(
        Some("http://127.0.0.1:9090".to_string()),
        Some("http://gw:9091".to_string()),
        Some("host1".to_string()),
        Some("batchA".to_string()),
        Some(15),
        "unused".to_string(),
    );
    assert_eq!(
        cfg.describe(),
        "name: host1\nscrape_address: http://127.0.0.1:9090\npush_address: http://gw:9091\njob_name: batchA\nscrape_interval: 15"
    );
}

#[test]
fn describe_writes_zero_and_the_largest_interval() {
    let zero = Config::new_from_args_named(None, None, Some("a".to_string()), None, Some(0), "x".to_string());
    assert!(zero.describe().ends_with("\nscrape_interval: 0"));
    let big = Config::new_from_args_named(None, None, Some("a".to_string()), None, Some(u64::MAX), "x".to_string());
    assert!(big.describe().ends_with("\nscrape_interval: 18446744073709551615"));
    assert!(big.describe().starts_with("name: a\nscrape_address: http://127.0.0.1:9090\npush_address: \n"));
}
