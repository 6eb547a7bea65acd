use lightning_sentinel::channels::ChannelType;
use lightning_sentinel::pickle_jar::Row;
use lightning_sentinel::telegram_client::{
    address_token_from_captures, advance_update_offset, build_message, info_messages,
    latest_update_id, parse_address_token, plan_message, set_update, stand_down, updates_command,
    user_info_pattern, BAD_REPLY, HELP_REPLY, START_REPLY, STATUS_REPLY, STOP_REPLY,
};

#[test]
fn commands_are_recognised() {
    assert_eq!(info_messages("/start".to_string()), ("start".to_string(), START_REPLY.to_string()));
    assert_eq!(info_messages("/help".to_string()), ("help".to_string(), HELP_REPLY.to_string()));
    assert_eq!(info_messages("/status".to_string()), ("status".to_string(), STATUS_REPLY.to_string()));
    assert_eq!(info_messages("/stop".to_string()), ("stop".to_string(), STOP_REPLY.to_string()));
}

#[test]
fn anything_else_is_bad() {
    for m in ["", "/stopp", "start", "/Start", "hello", " /help"] {
        assert_eq!(info_messages(m.to_string()), ("bad".to_string(), BAD_REPLY.to_string()));
    }
}

#[test]
fn reply_texts() {
    assert!(START_REPLY.starts_with("Signup by sending:\n1) Address of your lighting node's REST api"));
    assert_eq!(STOP_REPLY, "Your data has been removed and your sentinel has stood down");
    assert!(HELP_REPLY.contains("- /stop - deregister node sentinel and delete data"));
    assert!(BAD_REPLY.starts_with("Please try one of the available options"));
}

#[test]
fn registration_message_is_parsed() {
    let p = user_info_pattern().unwrap();
    let (address, macaroon) = parse_address_token(&p, "https://abcdef.onion:443, 0201036c6e64");
    assert_eq!(address, "abcdef.onion:443");
    assert_eq!(macaroon, "0201036c6e64");
}

#[test]
fn registration_inside_other_text_is_found() {
    let p = user_info_pattern().unwrap();
    let (address, macaroon) = parse_address_token(&p, "my node: https://192.34.21.1:4801, MAC and more");
    assert_eq!(address, "192.34.21.1:4801");
    assert_eq!(macaroon, "MAC");
}

#[test]
fn non_registration_messages_give_empty_token() {
    let p = user_info_pattern().unwrap();
    for m in ["/start", "https://host:port, mac", "http://host:1, mac", "https://host:1,mac", ""] {
        assert_eq!(parse_address_token(&p, m), (String::new(), String::new()));
    }
}

#[test]
fn token_from_captures() {
    assert_eq!(address_token_from_captures(None), (String::new(), String::new()));
    let groups = vec![
        Some("https://h:1, m".to_string()),
        Some("h".to_string()),
        Some("1".to_string()),
        Some("m".to_string()),
    ];
    assert_eq!(address_token_from_captures(Some(groups)), ("h:1".to_string(), "m".to_string()));
    let partial = vec![Some("x".to_string()), None];
    assert_eq!(address_token_from_captures(Some(partial)), (":".to_string(), String::new()));
}

#[test]
fn requests_for_the_node() {
    let m = build_message(7, "n:1".to_string(), "mac".to_string(), "start".to_string());
    assert_eq!(m.channel_type, ChannelType::Ln);
    assert_eq!(m.chat_id, 7);
    assert_eq!(m.node_url, "n:1");
    assert_eq!(m.macaroon, "mac");
    assert_eq!(m.command, "start");
    assert_eq!(m.message, "");
}

#[test]
fn registration_is_stored_and_forwarded() {
    let p = user_info_pattern().unwrap();
    let plan = plan_message(&p, 42, "https://node.onion:8080, MACAROON".to_string());
    let row = plan.register.unwrap();
    assert_eq!(row.telegram_chat_id, 42);
    assert_eq!(row.node_url, "node.onion:8080");
    assert_eq!(row.macaroon, "MACAROON");
    assert!(row.is_watching);
    let f = plan.forward.unwrap();
    assert_eq!(f.channel_type, ChannelType::Ln);
    assert_eq!(f.command, "start");
    assert_eq!(f.node_url, "node.onion:8080");
    assert_eq!(f.macaroon, "MACAROON");
    assert_eq!(f.chat_id, 42);
    assert!(plan.reply.is_none());
    assert!(!plan.stop_watching);
}

#[test]
fn status_asks_the_node_without_storing() {
    let p = user_info_pattern().unwrap();
    let plan = plan_message(&p, 3, "/status".to_string());
    assert!(plan.register.is_none());
    assert!(plan.reply.is_none());
    let f = plan.forward.unwrap();
    assert_eq!(f.command, "status");
    assert_eq!(f.node_url, "");
    assert_eq!(f.macaroon, "");
}

#[test]
fn stop_answers_and_stands_down() {
    let p = user_info_pattern().unwrap();
    let plan = plan_message(&p, 9, "/stop".to_string());
    assert!(plan.stop_watching);
    assert!(plan.forward.is_none());
    assert!(plan.register.is_none());
    let reply = plan.reply.unwrap();
    assert_eq!(reply.chat_id, 9);
    assert_eq!(reply.text, STOP_REPLY);
}

#[test]
fn other_messages_are_answered() {
    let p = user_info_pattern().unwrap();
    for (m, text) in [("/help", HELP_REPLY), ("/start", START_REPLY), ("what?", BAD_REPLY)] {
        let plan = plan_message(&p, 1, m.to_string());
        assert!(!plan.stop_watching);
        assert!(plan.forward.is_none());
        assert_eq!(plan.reply.unwrap().text, text);
    }
}

#[test]
fn standing_down_clears_the_flag_only() {
    let row = Row {
        telegram_chat_id: 5,
        node_url: "n:1".to_string(),
        is_watching: true,
        macaroon: "m".to_string(),
    };
    let r = stand_down(row);
    assert!(!r.is_watching);
    assert_eq!(r.telegram_chat_id, 5);
    assert_eq!(r.node_url, "n:1");
    assert_eq!(r.macaroon, "m");
}

#[test]
fn first_request_has_no_offset() {
    assert_eq!(updates_command(0), "/getUpdates?allowed_updates=[\"message\",\"callback_query\"]");
}

#[test]
fn later_requests_start_after_last_update() {
    assert_eq!(
        updates_command(41),
        "/getUpdates?offset=42&allowed_updates=[\"message\",\"callback_query\"]"
    );
}

#[test]
fn set_update_replaces_the_record() {
    let mut last = 10u32;
    assert_eq!(set_update(&mut last, 15), Ok(10));
    assert_eq!(last, 15);
}

#[test]
fn latest_of_a_batch() {
    assert_eq!(latest_update_id(&vec![]), None);
    assert_eq!(latest_update_id(&vec![4, 9, 2]), Some(9));
    assert_eq!(latest_update_id(&vec![7]), Some(7));
}

#[test]
fn offset_moves_forward_only() {
    let mut last = 10u32;
    advance_update_offset(&mut last, &vec![3, 5]);
    assert_eq!(last, 10);
    advance_update_offset(&mut last, &vec![11, 14, 12]);
    assert_eq!(last, 14);
    advance_update_offset(&mut last, &vec![]);
    assert_eq!(last, 14);
}

#[test]
fn offset_is_idempotent_and_batches_compose() {
    let mut once = 1u32;
    advance_update_offset(&mut once, &vec![5, 3]);
    let mut twice = once;
    advance_update_offset(&mut twice, &vec![5, 3]);
    assert_eq!(once, twice);
    let mut split = 1u32;
    advance_update_offset(&mut split, &vec![5]);
    advance_update_offset(&mut split, &vec![3]);
    assert_eq!(split, once);
}

#[test]
fn readme_registration_examples() {
    let p = user_info_pattern().unwrap();
    let onion = "https://wkdirllfgoofflfXXXXXXXXXXXXXXXXXXXXXXXXXXXXJJJJJJJJJJJJ.onion:443, XXXXXXXXXXX...";
    assert_eq!(
        parse_address_token(&p, onion),
        (
            "wkdirllfgoofflfXXXXXXXXXXXXXXXXXXXXXXXXXXXXJJJJJJJJJJJJ.onion:443".to_string(),
            "XXXXXXXXXXX...".to_string()
        )
    );
    let onion_8080 = "https://wkdirllfgoofflfXXXXXXXXXXXXXXXXXXXXXXXXXXXXJJJJJJJJJJJJ.onion:8080, XXXXXXXXXXX...";
    assert_eq!(
        parse_address_token(&p, onion_8080).0,
        "wkdirllfgoofflfXXXXXXXXXXXXXXXXXXXXXXXXXXXXJJJJJJJJJJJJ.onion:8080"
    );
    let clearnet = "https://192.34.21.1:4801, XXXXXXXXXXX...";
    assert_eq!(
        parse_address_token(&p, clearnet),
        ("192.34.21.1:4801".to_string(), "XXXXXXXXXXX...".to_string())
    );
}
