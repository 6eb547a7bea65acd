use lightning_sentinel::channel_handler::{LnInfo, TelInfo};
use lightning_sentinel::channels::{ChannelMessage, ChannelType};

#[test]
fn default_channel_message_is_empty() {
    let m = ChannelMessage::default();
    assert_eq!(m.channel_type, ChannelType::Def);
    assert_eq!(m.chat_id, i64::MIN);
    assert!(m.node_url.is_empty());
    assert!(m.command.is_empty());
    assert!(m.message.is_empty());
    assert!(m.macaroon.is_empty());
}

#[test]
fn channel_type_names() {
    assert_eq!(ChannelType::Ln.to_display_string(), "Ln");
    assert_eq!(ChannelType::Tel.to_display_string(), "Tel");
    assert_eq!(ChannelType::Def.to_display_string(), "Def");
}

#[test]
fn channel_message_prints_every_field() {
    let m = ChannelMessage {
        channel_type: ChannelType::Tel,
        chat_id: -5,
        node_url: "node:1".to_string(),
        command: "status".to_string(),
        message: "hello".to_string(),
        macaroon: "mac".to_string(),
    };
    let expected = "(\n            'channel_type': 'Tel',\n            'chat_id': '-5',\n            'node_url':'node:1',\n            'command': 'status',\n            'message': 'hello',\n            'macaroon': 'mac'\n        )";
    assert_eq!(m.to_display_string(), expected);
}

#[test]
fn ln_and_tel_info_print() {
    let ln = LnInfo {
        node_url: "u".to_string(),
        command: "c".to_string(),
        is_active: true,
        message: "m".to_string(),
    };
    assert_eq!(ln.to_display_string(), "Node_URL: u\n\rIsActive: true\n\rCommand: c,\n\rMessage: m ");
    let tel = TelInfo {
        user_id: "x".to_string(),
        command: "c".to_string(),
        is_active: false,
        message: "m".to_string(),
    };
    assert_eq!(tel.to_display_string(), "User_Id: x\n\rIsActive: false\n\rCommand: c,\n\rMessage: m ");
}
