use std::collections::HashMap;

use lightning_sentinel::channels::{ChannelMessage, ChannelType};
use lightning_sentinel::lightning_client::{
    handle_check_service, handle_request_err, handle_success_request, resume_request, NodeWatch,
    UserInfoLn, WatchAction, WatchEvent, WatchPhase, GET_INFO_COMMAND,
};
use lightning_sentinel::objects::{ChainData, LnGetInfo};
use lightning_sentinel::pickle_jar::Row;

fn info(pending: i64, active: i64, inactive: i64, peers: i64) -> LnGetInfo {
    LnGetInfo {
        version: "0.15.0-beta".to_string(),
        commit_hash: "abc".to_string(),
        identity_pubkey: "02ff".to_string(),
        alias: "node".to_string(),
        color: "#3399ff".to_string(),
        num_pending_channels: pending,
        num_active_channels: active,
        num_inactive_channels: inactive,
        num_peers: peers,
        block_height: 750000,
        block_hash: "0000".to_string(),
        best_header_timestamp: "1660000000".to_string(),
        synced_to_chain: true,
        synced_to_graph: true,
        testnet: false,
        chains: vec![ChainData { chain: "bitcoin".to_string(), network: "mainnet".to_string() }],
        uris: vec![],
        features: HashMap::new(),
    }
}

fn request(command: &str) -> ChannelMessage {
    ChannelMessage {
        channel_type: ChannelType::Ln,
        chat_id: 77,
        node_url: "node.onion:8080".to_string(),
        command: command.to_string(),
        message: String::new(),
        macaroon: "MAC".to_string(),
    }
}

fn summary_text(url: &str, p: i64, a: i64, i: i64, n: i64) -> String {
    format!(
        "(\n            'tor_api_url': '{}',\n            'num_pending_channels': '{}',\n            'num_active_channels': '{}'\n            'num_inactive_channels': '{}'\n            'num_peers': '{}'\n        )",
        url, p, a, i, n
    )
}

#[test]
fn node_summary_prints_counts() {
    let u = UserInfoLn {
        tor_api_url: "n:1".to_string(),
        num_pending_channels: 1,
        num_active_channels: 12,
        num_inactive_channels: 0,
        num_peers: -3,
    };
    assert_eq!(u.to_display_string(), summary_text("n:1", 1, 12, 0, -3));
}

#[test]
fn success_report_carries_the_summary() {
    let m = handle_success_request("n:1".to_string(), Ok(info(2, 5, 1, 8)), 77, "/v1/getinfo");
    assert_eq!(m.channel_type, ChannelType::Tel);
    assert_eq!(m.chat_id, 77);
    assert_eq!(m.command, "/v1/getinfo");
    assert_eq!(m.node_url, "");
    assert_eq!(m.macaroon, "");
    assert_eq!(m.message, summary_text("n:1", 2, 5, 1, 8));
}

#[test]
fn unreadable_success_is_reported_as_error() {
    let m = handle_success_request("n:1".to_string(), Err("expected value at line 1 column 1".to_string()), 77, "/v1/getinfo");
    assert_eq!(m.message, "tor_api_url: n:1\nerror: expected value at line 1 column 1");
}

#[test]
fn failure_report_quotes_the_answer() {
    let m = handle_request_err("n:1".to_string(), "permission denied".to_string(), 5, "/v1/getinfo");
    assert_eq!(m.channel_type, ChannelType::Tel);
    assert_eq!(m.chat_id, 5);
    assert_eq!(m.message, "tor_api_url: n:1\nerror: permission denied");
}

#[test]
fn stored_node_is_kept() {
    let stored = Row {
        telegram_chat_id: 77,
        node_url: "stored:1".to_string(),
        is_watching: true,
        macaroon: "OLD".to_string(),
    };
    let t = handle_check_service(stored, &request("status"));
    assert_eq!(t.node_url, "stored:1");
    assert_eq!(t.macaroon, "OLD");
    assert!(t.store.is_none());
}

#[test]
fn unknown_chat_is_registered_from_the_request() {
    let t = handle_check_service(Row::default(), &request("start"));
    assert_eq!(t.node_url, "node.onion:8080");
    assert_eq!(t.macaroon, "MAC");
    let row = t.store.unwrap();
    assert_eq!(row.telegram_chat_id, 77);
    assert!(row.is_watching);
    assert_eq!(row.node_url, "node.onion:8080");
}

fn answered(status: u16, body: &str, parsed: Result<LnGetInfo, String>) -> WatchEvent {
    WatchEvent::NodeAnswered { status, body: body.to_string(), info: parsed }
}

fn start_watch(command: &str) -> NodeWatch {
    let req = request(command);
    let target = handle_check_service(Row::default(), &req);
    NodeWatch::start(&req, target)
}

#[test]
fn watch_polls_the_node_then_reports_once() {
    let w = start_watch("start");
    assert!(w.send_status);
    let (w, a) = w.step(WatchEvent::RecordRead { is_watching: true });
    match a {
        WatchAction::Poll { url, macaroon } => {
            assert_eq!(url, format!("node.onion:8080{}", GET_INFO_COMMAND));
            assert_eq!(macaroon, "MAC");
        },
        _ => panic!("expected a poll"),
    }
    let (w, a) = w.step(answered(200, "{}", Ok(info(0, 3, 0, 4))));
    match a {
        WatchAction::Notify(m) => assert_eq!(m.message, summary_text("node.onion:8080", 0, 3, 0, 4)),
        _ => panic!("expected a report"),
    }
    assert!(!w.send_status);
    assert_eq!(w.phase, WatchPhase::CheckRecord);
    let (w, _) = w.step(WatchEvent::RecordRead { is_watching: true });
    let (w, a) = w.step(answered(200, "{}", Ok(info(0, 3, 0, 4))));
    assert!(matches!(a, WatchAction::Nothing));
    let (w, _) = w.step(WatchEvent::RecordRead { is_watching: true });
    let (_, a) = w.step(answered(503, "down", Err("x".to_string())));
    match a {
        WatchAction::Notify(m) => assert_eq!(m.message, "tor_api_url: node.onion:8080\nerror: down"),
        _ => panic!("expected a failure report"),
    }
}

#[test]
fn unreachable_node_is_not_reported() {
    let w = start_watch("start");
    let (w, _) = w.step(WatchEvent::RecordRead { is_watching: true });
    let (w, a) = w.step(WatchEvent::NodeUnreachable);
    assert!(matches!(a, WatchAction::Nothing));
    assert!(!w.send_status);
    assert_eq!(w.phase, WatchPhase::CheckRecord);
}

#[test]
fn stopped_record_ends_the_watch() {
    let w = start_watch("start");
    let (w, a) = w.step(WatchEvent::RecordRead { is_watching: false });
    match a {
        WatchAction::RemoveRecord { key } => assert_eq!(key, "77"),
        _ => panic!("expected removal"),
    }
    assert_eq!(w.phase, WatchPhase::Stopped);
    let (w, a) = w.step(WatchEvent::RecordRead { is_watching: true });
    assert!(matches!(a, WatchAction::Nothing));
    assert_eq!(w.phase, WatchPhase::Stopped);
}

#[test]
fn status_watch_asks_once() {
    let w = start_watch("status");
    let (w, a) = w.step(WatchEvent::RecordRead { is_watching: true });
    assert!(matches!(a, WatchAction::Poll { .. }));
    let (w, a) = w.step(answered(200, "{}", Ok(info(1, 1, 1, 1))));
    assert!(matches!(a, WatchAction::Notify(_)));
    assert_eq!(w.phase, WatchPhase::Stopped);
    let (_, a) = w.step(WatchEvent::RecordRead { is_watching: true });
    assert!(matches!(a, WatchAction::Nothing));
}

#[test]
fn events_out_of_turn_change_nothing() {
    let w = start_watch("start");
    let (w, a) = w.step(WatchEvent::NodeUnreachable);
    assert!(matches!(a, WatchAction::Nothing));
    assert_eq!(w.phase, WatchPhase::CheckRecord);
    let (w, _) = w.step(WatchEvent::RecordRead { is_watching: true });
    let (w, a) = w.step(WatchEvent::RecordRead { is_watching: false });
    assert!(matches!(a, WatchAction::Nothing));
    assert_eq!(w.phase, WatchPhase::AwaitReply);
}

#[test]
fn resumed_watch_reports_failures_only() {
    let row = Row {
        telegram_chat_id: 8,
        node_url: "n:2".to_string(),
        is_watching: true,
        macaroon: "M".to_string(),
    };
    let req = resume_request(&row);
    assert_eq!(req.command, "");
    assert_eq!(req.chat_id, 8);
    let target = handle_check_service(row, &req);
    let w = NodeWatch::start(&req, target);
    assert!(!w.send_status);
    let (w, _) = w.step(WatchEvent::RecordRead { is_watching: true });
    let (_, a) = w.step(answered(200, "{}", Ok(info(0, 0, 0, 0))));
    assert!(matches!(a, WatchAction::Nothing));
}
