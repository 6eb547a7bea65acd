use lightning_sentinel::pickle_jar::Row;
use lightning_sentinel::tor::{bootstrap_pattern, parse_keystring};

#[test]
fn default_row_is_nobody() {
    let r = Row::default();
    assert_eq!(r.telegram_chat_id, i64::MIN);
    assert!(r.node_url.is_empty());
    assert!(!r.is_watching);
    assert!(r.macaroon.is_empty());
}

#[test]
fn row_prints_every_field() {
    let r = Row {
        telegram_chat_id: 15,
        node_url: "n:1".to_string(),
        is_watching: true,
        macaroon: "m".to_string(),
    };
    let expected = "(\n            'telegram_chat_id': '15',\n            'node_url': 'n:1',\n            'is_watching': 'true',\n            'macaroon': 'm'\n        )";
    assert_eq!(r.to_display_string(), expected);
}

#[test]
fn bootstrap_is_seen_in_the_log() {
    let p = bootstrap_pattern().unwrap();
    let lines = vec![
        "Aug 01 Bootstrapped 5% (conn): Connecting to a relay".to_string(),
        "Aug 01 Bootstrapped 100% (done): Done".to_string(),
    ];
    assert!(parse_keystring(&p, &lines));
}

#[test]
fn unfinished_bootstrap_is_not_ready() {
    let p = bootstrap_pattern().unwrap();
    let lines = vec!["Bootstrapped 10%".to_string(), "Bootstrapped 90% (ap_handshake)".to_string()];
    assert!(!parse_keystring(&p, &lines));
    assert!(!parse_keystring(&p, &vec![]));
}

#[test]
fn bootstrap_line_anywhere_in_the_log() {
    let p = bootstrap_pattern().unwrap();
    let lines = vec![
        "Bootstrapped 100% (done): Done".to_string(),
        "later line".to_string(),
    ];
    assert!(parse_keystring(&p, &lines));
    assert!(parse_keystring(&p, &vec!["x100%y".to_string()]));
}
