//! Building the configuration from the mapping text and the service
//! settings text.

use redirective::config::Config;
use redirective::errors::Error;

fn find<'a>(pairs: &'a [(String, String)], code: &str) -> Option<&'a str> {
    pairs.iter().find(|p| p.0 == code).map(|p| p.1.as_str())
}

#[test]
fn parses_links_yaml() {
    let cfg = Config::from_texts("a: http://x\nb: http://y\n", None).unwrap();
    assert_eq!(cfg.links.links.len(), 2);
    assert_eq!(find(&cfg.links.links, "a"), Some("http://x"));
    assert_eq!(find(&cfg.links.links, "b"), Some("http://y"));
}

#[test]
fn rejects_malformed_yaml() {
    let r = Config::from_texts("- just\n- a list\n", None);
    assert_eq!(r.err(), Some(Error::YamlParse));
}

#[test]
fn rejects_blank_target() {
    let r = Config::from_texts("a: ' '\n", None);
    assert_eq!(r.err(), Some(Error::Config("a".to_string())));
}

#[test]
fn rejects_empty_target() {
    let r = Config::from_texts("a: ''\n", None);
    assert_eq!(r.err(), Some(Error::Config("a".to_string())));
}

#[test]
fn service_defaults_without_settings_text() {
    let cfg = Config::from_texts("a: http://x\n", None).unwrap();
    assert_eq!(cfg.service.address, "0.0.0.0:8080");
    assert_eq!(cfg.service.webhook_path, "/git-webhook");
    assert_eq!(cfg.service.rate_limit_per_minute, 1);
    assert_eq!(cfg.service.rate_limit_per_day, 100);
}

#[test]
fn service_settings_override_defaults() {
    let toml_text = "address = \"127.0.0.1:9000\"\n\n[webhook]\npath = \"/hook\"\nrate_limit_per_minute = 5\nrate_limit_per_day = 500\n";
    let cfg = Config::from_texts("a: http://x\n", Some(toml_text)).unwrap();
    assert_eq!(cfg.service.address, "127.0.0.1:9000");
    assert_eq!(cfg.service.webhook_path, "/hook");
    assert_eq!(cfg.service.rate_limit_per_minute, 5);
    assert_eq!(cfg.service.rate_limit_per_day, 500);
}

#[test]
fn partial_service_settings_keep_other_defaults() {
    let cfg = Config::from_texts("a: http://x\n", Some("address = \"[::]:80\"\n")).unwrap();
    assert_eq!(cfg.service.address, "[::]:80");
    assert_eq!(cfg.service.webhook_path, "/git-webhook");
    assert_eq!(cfg.service.rate_limit_per_minute, 1);
    assert_eq!(cfg.service.rate_limit_per_day, 100);
}

#[test]
fn rejects_malformed_settings_text() {
    let r = Config::from_texts("a: http://x\n", Some("= not toml"));
    assert_eq!(r.err(), Some(Error::TomlParse));
}

#[test]
fn rejects_rate_budget_out_of_range() {
    let r = Config::from_texts("a: http://x\n", Some("[webhook]\nrate_limit_per_minute = -1\n"));
    assert_eq!(r.err(), Some(Error::TomlParse));
    let r = Config::from_texts(
        "a: http://x\n",
        Some("[webhook]\nrate_limit_per_day = 4294967296\n"),
    );
    assert_eq!(r.err(), Some(Error::TomlParse));
}

#[test]
fn empty_mapping_is_allowed() {
    let cfg = Config::from_texts("{}\n", None).unwrap();
    assert_eq!(cfg.links.links.len(), 0);
}
