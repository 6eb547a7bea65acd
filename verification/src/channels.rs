//! The messages that pass between the Telegram side and the Lightning side
//! of the bot.

use vstd::prelude::*;
use crate::text::{i64_to_decimal, int_decimal};

verus! {

/// Which side of the bot a message is meant for.
#[derive(Eq, PartialEq, Structural, Clone, Debug)]
pub enum ChannelType {
    Ln,
    Tel,
    Def,
}

/// A message between the two sides. The `chat_id` of Telegram is unique
/// for each user that talks to the bot.
#[derive(Eq, PartialEq, Clone, Debug)]
pub struct ChannelMessage {
    pub channel_type: ChannelType,
    pub chat_id: i64,
    pub node_url: String,
    pub command: String,
    pub message: String,
    pub macaroon: String,
}

/// A channel message with each text taken by its view.
pub struct ChannelMessageView {
    pub channel_type: ChannelType,
    pub chat_id: i64,
    pub node_url: Seq<char>,
    pub command: Seq<char>,
    pub message: Seq<char>,
    pub macaroon: Seq<char>,
}

impl View for ChannelMessage {
    type V = ChannelMessageView;

    open spec fn view(&self) -> ChannelMessageView {
        ChannelMessageView {
            channel_type: self.channel_type,
            chat_id: self.chat_id,
            node_url: self.node_url@,
            command: self.command@,
            message: self.message@,
            macaroon: self.macaroon@,
        }
    }
}

/// The name under which a channel type is printed.
pub open spec fn channel_type_name(t: ChannelType) -> Seq<char> {
    match t {
        ChannelType::Ln => "Ln"@,
        ChannelType::Tel => "Tel"@,
        ChannelType::Def => "Def"@,
    }
}

impl ChannelType {
    /// The name of the variant, as printed.
    pub fn to_display_string(&self) -> (r: String)
        ensures
            r@ == channel_type_name(*self),
    {
        match self {
            ChannelType::Ln => String::from_str("Ln"),
            ChannelType::Tel => String::from_str("Tel"),
            ChannelType::Def => String::from_str("Def"),
        }
    }
}

/// The printed form of a channel message.
pub open spec fn channel_message_text(m: ChannelMessage) -> Seq<char> {
    "(\n            'channel_type': '"@ + channel_type_name(m.channel_type)
        + "',\n            'chat_id': '"@ + int_decimal(m.chat_id as int)
        + "',\n            'node_url':'"@ + m.node_url@
        + "',\n            'command': '"@ + m.command@
        + "',\n            'message': '"@ + m.message@
        + "',\n            'macaroon': '"@ + m.macaroon@
        + "'\n        )"@
}

impl Default for ChannelMessage {
    /// The empty message: no side, the smallest chat id, empty texts.
    fn default() -> (r: ChannelMessage)
        ensures
            r.channel_type == ChannelType::Def,
            r.chat_id == i64::MIN,
            r.node_url@ == Seq::<char>::empty(),
            r.command@ == Seq::<char>::empty(),
            r.message@ == Seq::<char>::empty(),
            r.macaroon@ == Seq::<char>::empty(),
    {
        ChannelMessage {
            channel_type: ChannelType::Def,
            chat_id: i64::MIN,
            node_url: String::new(),
            command: String::new(),
            message: String::new(),
            macaroon: String::new(),
        }
    }
}

impl ChannelMessage {
    /// The printed form of the message.
    pub fn to_display_string(&self) -> (r: String)
        ensures
            r@ == channel_message_text(*self),
    {
        let mut s = String::from_str("(\n            'channel_type': '");
        let name = self.channel_type.to_display_string();
        s.append(name.as_str());
        s.append("',\n            'chat_id': '");
        let id = i64_to_decimal(self.chat_id);
        s.append(id.as_str());
        s.append("',\n            'node_url':'");
        s.append(self.node_url.as_str());
        s.append("',\n            'command': '");
        s.append(self.command.as_str());
        s.append("',\n            'message': '");
        s.append(self.message.as_str());
        s.append("',\n            'macaroon': '");
        s.append(self.macaroon.as_str());
        s.append("'\n        )");
        s
    }
}

} // verus!
