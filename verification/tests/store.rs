use qbtrs::cli_handler::get_info_if_default;
use qbtrs::config::{config_file_text, Config, SavedConfig};
use qbtrs::error::ErrorKind;

fn pair(url: &str, cookie: &str) -> (String, String) {
    (url.to_string(), cookie.to_string())
}

fn store_of(entries: &[(&str, &str)]) -> Config {
    let mut config = Config::new();
    for (url, cookie) in entries {
        config.add_url(url.to_string(), cookie.to_string());
    }
    config
}

#[test]
fn empty_store_has_no_session() {
    let config = Config::new();
    assert!(config.is_empty());
    assert_eq!(config.default_url(), None);
    assert_eq!(config.get_request_info(), Err(ErrorKind::NotConfigured));
    assert_eq!(Config::default().get_request_info(), Err(ErrorKind::NotConfigured));
    let failure = get_info_if_default(&config).unwrap_err();
    assert_eq!(failure.kind, ErrorKind::NotConfigured);
    assert_eq!(
        failure.message,
        "No (default) url configured. Please configure a url using the auth subcommand!"
    );
}

#[test]
fn default_store_is_empty() {
    assert_eq!(Config::default(), Config::new());
}

#[test]
fn add_then_activate_resolves() {
    let mut config = Config::new();
    config.add_url("https://h/".to_string(), "SID=abc;".to_string());
    assert_eq!(config.activate_url("https://h/"), Ok(()));
    let info = get_info_if_default(&config).unwrap();
    assert_eq!(info.url, "https://h/");
    assert_eq!(info.cookie, "SID=abc;");
    assert_eq!(config.get_request_info(), Ok(info));
}

#[test]
fn first_url_becomes_the_default() {
    let mut config = Config::new();
    config.add_url("https://b/".to_string(), "B=1;".to_string());
    assert_eq!(config.default_url(), Some(&"https://b/".to_string()));
    config.add_url("https://a/".to_string(), "A=1;".to_string());
    assert_eq!(config.default_url(), Some(&"https://b/".to_string()));
    let info = get_info_if_default(&config).unwrap();
    assert_eq!(info.url, "https://b/");
    assert_eq!(info.cookie, "B=1;");
}

#[test]
fn add_replaces_the_cookie_of_a_stored_url() {
    let mut config = store_of(&[("https://a/", "old"), ("https://b/", "B")]);
    config.add_url("https://a/".to_string(), "new".to_string());
    let saved = config.save_config();
    assert_eq!(saved.cookies, vec![pair("https://a/", "new"), pair("https://b/", "B")]);
    assert_eq!(saved.default, Some("https://a/".to_string()));
}

#[test]
fn activate_refuses_a_url_that_is_not_stored() {
    let mut config = store_of(&[("https://a/", "A")]);
    let before = config.save_config();
    assert_eq!(config.activate_url("https://zz/"), Err(ErrorKind::UnknownEndpoint));
    assert_eq!(config.save_config(), before);
    let mut empty = Config::new();
    assert_eq!(empty.activate_url("https://a/"), Err(ErrorKind::UnknownEndpoint));
    assert!(empty.is_empty());
}

#[test]
fn activate_switches_the_default() {
    let mut config = store_of(&[("https://a/", "A"), ("https://b/", "B")]);
    assert_eq!(config.activate_url("https://b/"), Ok(()));
    let info = get_info_if_default(&config).unwrap();
    assert_eq!(info.url, "https://b/");
    assert_eq!(info.cookie, "B");
}

#[test]
fn removing_the_default_leaves_no_session() {
    let mut config = store_of(&[("https://a/", "A"), ("https://b/", "B")]);
    assert!(config.remove_url("https://a/"));
    assert_eq!(config.default_url(), None);
    assert!(config.contains_key("https://b/"));
    assert!(!config.contains_key("https://a/"));
    assert_eq!(config.get_request_info(), Err(ErrorKind::NotConfigured));
    let failure = get_info_if_default(&config).unwrap_err();
    assert_eq!(failure.kind, ErrorKind::NotConfigured);
}

#[test]
fn removing_another_url_keeps_the_default() {
    let mut config = store_of(&[("https://a/", "A"), ("https://b/", "B")]);
    assert!(config.remove_url("https://b/"));
    assert_eq!(config.default_url(), Some(&"https://a/".to_string()));
    assert!(!config.remove_url("https://b/"));
    assert!(!config.remove_url("https://never/"));
    assert_eq!(get_info_if_default(&config).unwrap().cookie, "A");
}

#[test]
fn sessions_are_kept_in_the_order_of_their_urls() {
    let config = store_of(&[
        ("https://c/", "C"),
        ("https://a/", "A"),
        ("https://b/", "B"),
        ("https://a/x", "AX"),
        ("http://z/", "Z"),
    ]);
    let saved = config.save_config();
    assert_eq!(
        saved.cookies,
        vec![
            pair("http://z/", "Z"),
            pair("https://a/", "A"),
            pair("https://a/x", "AX"),
            pair("https://b/", "B"),
            pair("https://c/", "C"),
        ]
    );
    assert_eq!(saved.default, Some("https://c/".to_string()));
}

#[test]
fn list_of_an_empty_store() {
    let config = Config::new();
    assert_eq!(config.list_cookies(false), "No stored cookies!\n");
    assert_eq!(config.list_cookies(true), "No stored cookies!\n");
    assert_eq!(config.entries(true), vec![]);
}

#[test]
fn list_hides_the_cookies_unless_asked() {
    let mut config = store_of(&[("https://b/", "SID=bbb;"), ("https://a/", "SID=aaa;")]);
    assert_eq!(config.activate_url("https://a/"), Ok(()));
    let hidden = config.list_cookies(false);
    assert_eq!(
        hidden,
        "NOTE: secrets are redacted. To reveal, pass --show-secrets\n\nDEFAULT\tURL\tCOOKIE\n[*]\thttps://a/: [REDACTED]\n[ ]\thttps://b/: [REDACTED]\n"
    );
    assert!(!hidden.contains("SID=aaa;"));
    assert!(!hidden.contains("SID=bbb;"));
    let shown = config.list_cookies(true);
    assert_eq!(
        shown,
        "DEFAULT\tURL\tCOOKIE\n[*]\thttps://a/: SID=aaa;\n[ ]\thttps://b/: SID=bbb;\n"
    );
    assert!(shown.contains("SID=aaa;"));
    assert!(shown.contains("SID=bbb;"));
}

#[test]
fn hidden_list_is_the_same_for_other_cookies() {
    let one = store_of(&[("https://a/", "first"), ("https://b/", "second")]);
    let other = store_of(&[("https://a/", "third"), ("https://b/", "")]);
    assert_eq!(one.list_cookies(false), other.list_cookies(false));
    assert_ne!(one.list_cookies(true), other.list_cookies(true));
}

#[test]
fn hidden_list_can_spell_a_cookie_by_accident() {
    let config = store_of(&[("https://a/", "RED")]);
    assert!(config.list_cookies(false).contains("RED"));
}

#[test]
fn entries_are_the_rows_of_the_list() {
    let config = store_of(&[("https://b/", "B"), ("https://a/", "A")]);
    assert_eq!(
        config.entries(true),
        vec![
            ("https://a/".to_string(), "A".to_string(), false),
            ("https://b/".to_string(), "B".to_string(), true),
        ]
    );
    assert_eq!(
        config.entries(false),
        vec![
            ("https://a/".to_string(), "[REDACTED]".to_string(), false),
            ("https://b/".to_string(), "[REDACTED]".to_string(), true),
        ]
    );
}

fn round_trip(config: Config) {
    let saved = config.save_config();
    let loaded = Config::from_file(Some(saved)).unwrap();
    assert_eq!(loaded, config);
    assert_eq!(loaded.save_config(), config.save_config());
    assert_eq!(loaded.list_cookies(true), config.list_cookies(true));
}

#[test]
fn save_then_load_gives_the_store_back() {
    round_trip(Config::new());
    round_trip(store_of(&[("https://h/", "SID=abc;")]));
    round_trip(store_of(&[("https://c/", "C"), ("https://a/", "A"), ("https://b/", "B=1; B=2;")]));
    let mut no_default = store_of(&[("https://a/", "A"), ("https://b/", "B")]);
    assert!(no_default.remove_url("https://a/"));
    assert_eq!(no_default.default_url(), None);
    round_trip(no_default);
}

#[test]
fn missing_file_is_an_empty_store() {
    assert_eq!(Config::from_file(None), Ok(Config::new()));
}

#[test]
fn load_takes_the_sessions_in_any_order() {
    let saved = SavedConfig {
        cookies: vec![pair("https://b/", "B"), pair("https://a/", "A"), pair("https://b/", "B2")],
        default: Some("https://a/".to_string()),
    };
    let config = Config::from_file(Some(saved)).unwrap();
    let again = config.save_config();
    assert_eq!(again.cookies, vec![pair("https://a/", "A"), pair("https://b/", "B2")]);
    assert_eq!(again.default, Some("https://a/".to_string()));
}

#[test]
fn load_refuses_a_default_without_a_cookie() {
    let saved = SavedConfig {
        cookies: vec![pair("https://a/", "A")],
        default: Some("https://b/".to_string()),
    };
    let failure = Config::from_file(Some(saved)).unwrap_err();
    assert_eq!(failure.kind, ErrorKind::Decode);
    assert_eq!(failure.message, "The default url of the configuration file has no cookie.");
    let none = SavedConfig { cookies: vec![], default: Some("https://b/".to_string()) };
    assert!(Config::from_file(Some(none)).is_err());
}

#[test]
fn file_starts_with_the_comment() {
    let text = config_file_text("default = \"https://a/\"\n");
    assert_eq!(
        text,
        "#This is the configuration file for qbtrs, a cli qbittorrent client.\n#If manually modifying this file, make sure that the default value (if not null) always has a corresponding entry in the cookies list.\n\ndefault = \"https://a/\"\n"
    );
}

#[test]
fn urls_are_told_apart_by_their_bytes() {
    let config = store_of(&[("https://é/", "E"), ("https://e/", "e"), ("https://z/", "z")]);
    let saved = config.save_config();
    assert_eq!(
        saved.cookies,
        vec![pair("https://e/", "e"), pair("https://z/", "z"), pair("https://é/", "E")]
    );
    assert!(config.contains_key("https://é/"));
    assert!(!config.contains_key("https://E/"));
}
