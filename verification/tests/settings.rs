use lightning_sentinel::client_wrapper::{build_poxy_location, build_url};
use lightning_sentinel::config_wrapper::Settings;
use lightning_sentinel::pickle_jar::build_path_to_pickle;
use lightning_sentinel::telegram_client::build_full_base;
use lightning_sentinel::tor::build_path_to_tor_log;

#[test]
fn default_settings() {
    let s = Settings::default();
    assert_eq!(s.sock_url_local, "socks5h://127.0.0.1");
    assert_eq!(s.socks_port_local, 9056);
    assert!(s.check_url.is_empty());
    assert!(s.macaroon.is_empty());
    assert!(s.telegram_bot_id.is_empty());
    assert!(s.telegram_base_url.is_empty());
}

#[test]
fn proxy_location_of_default_settings() {
    assert_eq!(build_poxy_location(&Settings::default()), "socks5h://127.0.0.1:9056");
}

#[test]
fn proxy_location_of_small_port() {
    let mut s = Settings::default();
    s.socks_port_local = 7;
    s.sock_url_local = "socks5h://localhost".to_string();
    assert_eq!(build_poxy_location(&s), "socks5h://localhost:7");
}

#[test]
fn urls_join_base_and_command() {
    assert_eq!(build_url("https://n:8080".to_string(), "/v1/getinfo"), "https://n:8080/v1/getinfo");
    assert_eq!(build_url(String::new(), "/x"), "/x");
}

#[test]
fn telegram_base_joins_url_and_bot_id() {
    let mut s = Settings::default();
    s.telegram_base_url = "https://api.telegram.org/bot".to_string();
    s.telegram_bot_id = "123:ABC".to_string();
    assert_eq!(build_full_base(&s), "https://api.telegram.org/bot123:ABC");
}

#[test]
fn file_locations() {
    assert_eq!(build_path_to_pickle("/home/u/.config"), "/home/u/.config/.pickleDb");
    assert_eq!(build_path_to_tor_log("/home/u/.config"), "/home/u/.config/tor.log");
}
