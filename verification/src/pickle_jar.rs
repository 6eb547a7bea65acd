//! The record kept for each registered user, and where the records live.

use vstd::prelude::*;
use crate::text::{bool_text, bool_to_text, i64_to_decimal, int_decimal, lemma_int_decimal_injective};

verus! {

/// What the bot keeps for a Telegram chat: the node to watch, the macaroon
/// that opens its REST API, and whether the watch is still wanted.
#[derive(Clone, Eq, PartialEq)]
pub struct Row {
    pub telegram_chat_id: i64,
    pub node_url: String,
    pub is_watching: bool,
    pub macaroon: String,
}

impl Default for Row {
    /// The record of nobody: the smallest chat id, no node, not watching.
    fn default() -> (r: Row)
        ensures
            r.telegram_chat_id == i64::MIN,
            r.node_url@ == Seq::<char>::empty(),
            !r.is_watching,
            r.macaroon@ == Seq::<char>::empty(),
    {
        Row {
            telegram_chat_id: i64::MIN,
            node_url: String::new(),
            is_watching: false,
            macaroon: String::new(),
        }
    }
}

/// The printed form of a record.
pub open spec fn row_text(r: Row) -> Seq<char> {
    "(\n            'telegram_chat_id': '"@ + int_decimal(r.telegram_chat_id as int)
        + "',\n            'node_url': '"@ + r.node_url@
        + "',\n            'is_watching': '"@ + bool_text(r.is_watching)
        + "',\n            'macaroon': '"@ + r.macaroon@
        + "'\n        )"@
}

impl Row {
    /// The printed form of the record.
    pub fn to_display_string(&self) -> (r: String)
        ensures
            r@ == row_text(*self),
    {
        let mut s = String::from_str("(\n            'telegram_chat_id': '");
        let id = i64_to_decimal(self.telegram_chat_id);
        s.append(id.as_str());
        s.append("',\n            'node_url': '");
        s.append(self.node_url.as_str());
        s.append("',\n            'is_watching': '");
        let watching = bool_to_text(self.is_watching);
        s.append(watching.as_str());
        s.append("',\n            'macaroon': '");
        s.append(self.macaroon.as_str());
        s.append("'\n        )");
        s
    }
}

/// The key under which the record of a chat is stored: the chat id in
/// decimal.
pub fn row_key(telegram_chat_id: i64) -> (r: String)
    ensures
        r@ == int_decimal(telegram_chat_id as int),
{
    i64_to_decimal(telegram_chat_id)
}

/// Two different chats never share a record: their keys differ.
pub proof fn law_row_keys_are_distinct(a: i64, b: i64)
    requires
        a != b,
    ensures
        int_decimal(a as int) != int_decimal(b as int),
{
    if int_decimal(a as int) == int_decimal(b as int) {
        lemma_int_decimal_injective(a as int, b as int);
    }
}

/// The file that holds the records: `.pickleDb` in the user's
/// configuration directory.
pub fn build_path_to_pickle(config_root: &str) -> (r: String)
    ensures
        r@ == config_root@ + "/.pickleDb"@,
{
    let s = String::from_str(config_root);
    s.concat("/.pickleDb")
}

} // verus!
