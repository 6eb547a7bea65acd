//! What the bot does with the messages that Telegram users send it.

use vstd::prelude::*;
use crate::channels::{ChannelMessage, ChannelType};
use crate::config_wrapper::Settings;
use crate::objects::SendMessage;
use crate::pattern::{
    captures_view, compile_pattern, first_captures, group_view, groups_view, pattern_captures,
    pattern_compiles, Pattern, PatternError,
};
use crate::pickle_jar::Row;
use crate::text::{int_decimal, lemma_int_decimal_injective, lemma_strip_prefix, str_eq, u64_to_decimal};

verus! {

/// How a registration message is written: `https://<host>:<port>, <macaroon>`.
pub const USER_INFO_PATTERN: &'static str = "https://(\\S+):(\\d+), (\\S+)";

/// The answer to `/start`: how to register a node.
pub const START_REPLY: &'static str = "Signup by sending:\n1) Address of your lighting node's REST api (can be tor or clearnet)\n2) Macaroon with the permissions to /getInfo endpoint\n    \nReply to this message with a tuple, ex:\n    https://<lightning REST API address>:<port>, <macaroon>\n \nNOTE: Please look at this bot's README for details on obtaining these values, & other instructions on setup, if these values are new to you. The bot's README can be found here: https://github.com/tee8z/llightning-sentinel/blob/main/README.md";

/// The answer to `/help`: the list of commands.
pub const HELP_REPLY: &'static str = "\nTo use this bot please use one of the following commands:\n    \n- /start - register node & start sentinel watching process\n- /help - list of commands\n- /status - status of registered node\n- /stop - deregister node sentinel and delete data\n            ";

/// The text that goes with `/status`, which itself asks the node.
pub const STATUS_REPLY: &'static str = "Status of your node:\nActive: {}\nChannels: \n            {}\n                       ";

/// The answer to `/stop`.
pub const STOP_REPLY: &'static str = "Your data has been removed and your sentinel has stood down";

/// The answer to a message that names no command.
pub const BAD_REPLY: &'static str = "Please try one of the available options, your message was not understood:\n- /start - register node\n- /help - list of commands\n- /status - status of registered node\n- /stop - deregister node sentinel and delete data";

/// The command that a message names, and the text that answers it.
pub open spec fn info_reply(action: Seq<char>) -> (Seq<char>, Seq<char>) {
    if action == "/start"@ {
        ("start"@, START_REPLY@)
    } else if action == "/help"@ {
        ("help"@, HELP_REPLY@)
    } else if action == "/status"@ {
        ("status"@, STATUS_REPLY@)
    } else if action == "/stop"@ {
        ("stop"@, STOP_REPLY@)
    } else {
        ("bad"@, BAD_REPLY@)
    }
}

/// Reads a message as one of the bot's commands: `/start`, `/help`,
/// `/status` or `/stop`, and `bad` for anything else, with the text that
/// answers it.
pub fn info_messages(action: String) -> (r: (String, String))
    ensures
        (r.0@, r.1@) == info_reply(action@),
{
    if str_eq(action.as_str(), "/start") {
        (String::from_str("start"), String::from_str(START_REPLY))
    } else if str_eq(action.as_str(), "/help") {
        (String::from_str("help"), String::from_str(HELP_REPLY))
    } else if str_eq(action.as_str(), "/status") {
        (String::from_str("status"), String::from_str(STATUS_REPLY))
    } else if str_eq(action.as_str(), "/stop") {
        (String::from_str("stop"), String::from_str(STOP_REPLY))
    } else {
        (String::from_str("bad"), String::from_str(BAD_REPLY))
    }
}

/// Compiles the pattern of registration messages.
pub fn user_info_pattern() -> (r: Result<Pattern, PatternError>)
    ensures
        r is Ok <==> pattern_compiles(USER_INFO_PATTERN@),
        r matches Ok(p) ==> p@ == USER_INFO_PATTERN@,
{
    match compile_pattern(USER_INFO_PATTERN) {
        Ok(p) => Ok(p),
        Err(_) => Err(PatternError::Rejected),
    }
}

/// The text of group `i` of a match, empty where the group is missing.
pub open spec fn group_text(groups: Seq<Option<Seq<char>>>, i: int) -> Seq<char> {
    if 0 <= i < groups.len() && groups[i] is Some {
        groups[i]->0
    } else {
        Seq::<char>::empty()
    }
}

/// The node address (`host:port`) and the macaroon that a match of
/// `USER_INFO_PATTERN` holds; two empty texts where there is no match.
pub open spec fn address_token(captures: Option<Seq<Option<Seq<char>>>>) -> (Seq<char>, Seq<char>) {
    match captures {
        Some(groups) => (group_text(groups, 1) + ":"@ + group_text(groups, 2), group_text(groups, 3)),
        None => (Seq::<char>::empty(), Seq::<char>::empty()),
    }
}

/// A message registers a node exactly when the registration pattern
/// matches it: the address of a match is never empty, since it holds the
/// colon between host and port.
pub proof fn law_registration_iff_match(captures: Option<Seq<Option<Seq<char>>>>)
    ensures
        address_token(captures).0.len() > 0 <==> captures is Some,
{
    reveal_strlit(":");
}

fn group_or_empty(groups: &Vec<Option<String>>, i: usize) -> (r: String)
    ensures
        r@ == group_text(groups_view(groups@), i as int),
{
    if i < groups.len() {
        match &groups[i] {
            Some(s) => {
                assert(groups_view(groups@)[i as int] == group_view(groups@[i as int]));
                s.clone()
            },
            None => {
                assert(groups_view(groups@)[i as int] == group_view(groups@[i as int]));
                String::new()
            },
        }
    } else {
        String::new()
    }
}

/// The node address and macaroon that the capture groups of a registration
/// message give: groups 1 and 2 joined by a colon, and group 3.
pub fn address_token_from_captures(captures: Option<Vec<Option<String>>>) -> (r: (String, String))
    ensures
        (r.0@, r.1@) == address_token(captures_view(captures)),
{
    match captures {
        Some(groups) => {
            let host = group_or_empty(&groups, 1);
            let port = group_or_empty(&groups, 2);
            let macaroon = group_or_empty(&groups, 3);
            let address = host.concat(":").concat(port.as_str());
            (address, macaroon)
        },
        None => (String::new(), String::new()),
    }
}

/// The node address and macaroon of a registration message, or two empty
/// texts where the message is no registration.
pub fn parse_address_token(user_info: &Pattern, message: &str) -> (r: (String, String))
    requires
        user_info@ == USER_INFO_PATTERN@,
    ensures
        (r.0@, r.1@) == address_token(pattern_captures(USER_INFO_PATTERN@, message@)),
{
    let captures = first_captures(user_info, message);
    address_token_from_captures(captures)
}

/// A request for the Lightning side on behalf of a chat.
pub fn build_message(chat_id: i64, node_url: String, macaroon: String, ln_command: String) -> (r: ChannelMessage)
    ensures
        r.channel_type == ChannelType::Ln,
        r.chat_id == chat_id,
        r.node_url@ == node_url@,
        r.macaroon@ == macaroon@,
        r.command@ == ln_command@,
        r.message@ == Seq::<char>::empty(),
{
    ChannelMessage {
        channel_type: ChannelType::Ln,
        chat_id,
        node_url,
        macaroon,
        command: ln_command,
        message: String::new(),
    }
}

/// What to do about one message from a chat.
pub struct MessagePlan {
    /// A record to store under the chat's key.
    pub register: Option<Row>,
    /// A request to hand to the Lightning side.
    pub forward: Option<ChannelMessage>,
    /// Whether to clear the watching flag of the chat's stored record.
    pub stop_watching: bool,
    /// A text to send back to the chat.
    pub reply: Option<SendMessage>,
}

/// Whether a message asks something of the user's node: it registers a
/// node, or it asks for the node's status.
pub open spec fn asks_node(message: Seq<char>) -> bool {
    address_token(pattern_captures(USER_INFO_PATTERN@, message)).0.len() > 0
        || info_reply(message).0 == "status"@
}

/// Decides what to do about a message from a chat. A registration stores a
/// watching record and starts a watch on the node; `/status` asks the node
/// once; every other message is answered with the text of its command, and
/// `/stop` also clears the watching flag.
pub fn plan_message(user_info: &Pattern, chat_id: i64, message: String) -> (r: MessagePlan)
    requires
        user_info@ == USER_INFO_PATTERN@,
    ensures
        r.forward is Some <==> r.reply is None,
        r.forward is Some <==> asks_node(message@),
        ({
            let token = address_token(pattern_captures(USER_INFO_PATTERN@, message@));
            let info = info_reply(message@);
            if asks_node(message@) {
                &&& !r.stop_watching
                &&& r.forward matches Some(f) && f.channel_type == ChannelType::Ln
                    && f.chat_id == chat_id && f.node_url@ == token.0 && f.macaroon@ == token.1
                    && f.message@ == Seq::<char>::empty()
                    && f.command@ == (if token.0.len() > 0 { "start"@ } else { "status"@ })
                &&& if token.0.len() > 0 {
                    r.register matches Some(row) && row.telegram_chat_id == chat_id
                        && row.node_url@ == token.0 && row.macaroon@ == token.1 && row.is_watching
                } else {
                    r.register is None
                }
            } else {
                &&& r.register is None
                &&& r.stop_watching == (info.0 == "stop"@)
                &&& r.reply matches Some(m) && m.chat_id == chat_id && m.text@ == info.1
            }
        }),
{
    let address_mac = parse_address_token(user_info, message.as_str());
    let parse = info_messages(message);
    let has_address = !address_mac.0.as_str().is_empty();
    if has_address || str_eq(parse.0.as_str(), "status") {
        let command = if has_address {
            String::from_str("start")
        } else {
            String::from_str("status")
        };
        let register = if has_address {
            Some(
                Row {
                    telegram_chat_id: chat_id,
                    node_url: address_mac.0.clone(),
                    macaroon: address_mac.1.clone(),
                    is_watching: true,
                },
            )
        } else {
            None
        };
        let forward = build_message(chat_id, address_mac.0, address_mac.1, command);
        MessagePlan { register, forward: Some(forward), stop_watching: false, reply: None }
    } else if str_eq(parse.0.as_str(), "help") || str_eq(parse.0.as_str(), "start") || str_eq(
        parse.0.as_str(),
        "bad",
    ) || str_eq(parse.0.as_str(), "stop") {
        let stop_watching = str_eq(parse.0.as_str(), "stop");
        MessagePlan {
            register: None,
            forward: None,
            stop_watching,
            reply: Some(SendMessage { chat_id, text: parse.1 }),
        }
    } else {
        MessagePlan { register: None, forward: None, stop_watching: false, reply: None }
    }
}

/// The stored record of a chat after `/stop`: the same, but no longer
/// watching.
pub fn stand_down(saved: Row) -> (r: Row)
    ensures
        r.telegram_chat_id == saved.telegram_chat_id,
        r.node_url@ == saved.node_url@,
        r.macaroon@ == saved.macaroon@,
        !r.is_watching,
{
    let mut row = saved;
    row.is_watching = false;
    row
}

/// The request for new updates: from just past the last update seen, or
/// from the start where none has been seen (offset 0).
pub open spec fn updates_command_text(last_update: u32) -> Seq<char> {
    if last_update > 0 {
        "/getUpdates?offset="@ + int_decimal(last_update + 1)
            + "&allowed_updates=[\"message\",\"callback_query\"]"@
    } else {
        "/getUpdates?allowed_updates=[\"message\",\"callback_query\"]"@
    }
}

/// The `getUpdates` request that asks for the messages after
/// `last_update`.
pub fn updates_command(last_update: u32) -> (r: String)
    requires
        last_update < u32::MAX,
    ensures
        r@ == updates_command_text(last_update),
{
    if last_update > 0 {
        let offset = u64_to_decimal(last_update as u64 + 1);
        let s = String::from_str("/getUpdates?offset=");
        s.concat(offset.as_str()).concat("&allowed_updates=[\"message\",\"callback_query\"]")
    } else {
        String::from_str("/getUpdates?allowed_updates=[\"message\",\"callback_query\"]")
    }
}

/// Past the first update, the request asks for the updates from the one
/// just after the last seen: its offset is the whole decimal of
/// `last_update + 1`.
pub proof fn law_offset_follows_last_update(last_update: u32)
    requires
        0 < last_update < u32::MAX,
    ensures
        updates_command_text(last_update) == "/getUpdates?offset="@ + int_decimal(last_update as int + 1)
            + "&allowed_updates=[\"message\",\"callback_query\"]"@,
{
}

/// Different last updates give different requests: no update id is
/// confused with another.
pub proof fn law_offsets_are_distinct(a: u32, b: u32)
    requires
        0 < a < u32::MAX,
        0 < b < u32::MAX,
        a != b,
    ensures
        updates_command_text(a) != updates_command_text(b),
{
    let p = "/getUpdates?offset="@;
    let q = "&allowed_updates=[\"message\",\"callback_query\"]"@;
    let da = int_decimal(a as int + 1);
    let db = int_decimal(b as int + 1);
    if updates_command_text(a) == updates_command_text(b) {
        assert(p + da + q =~= p + (da + q));
        assert(p + db + q =~= p + (db + q));
        lemma_strip_prefix(p, da + q, db + q);
        assert(da =~= (da + q).subrange(0, (da + q).len() - q.len()));
        assert(db =~= (db + q).subrange(0, (db + q).len() - q.len()));
        lemma_int_decimal_injective(a as int + 1, b as int + 1);
    }
}

/// Records `update_id` as the last update seen, if the record still holds
/// the value read just before; answers `Ok` with the value replaced, or
/// `Err` with the value found. Under exclusive access the record cannot
/// change between the read and the write, so the answer is always `Ok`.
pub fn set_update(last_update: &mut u32, update_id: u32) -> (r: Result<u32, u32>)
    ensures
        r == Ok::<u32, u32>(*old(last_update)),
        *final(last_update) == update_id,
{
    let cur = *last_update;
    if *last_update == cur {
        *last_update = update_id;
        Ok(cur)
    } else {
        Err(*last_update)
    }
}

/// The newest of a batch of update ids, `None` for an empty batch.
pub fn latest_update_id(update_ids: &Vec<u32>) -> (r: Option<u32>)
    ensures
        r is None <==> update_ids@.len() == 0,
        r matches Some(m) ==> update_ids@.contains(m)
            && forall|i: int| 0 <= i < update_ids@.len() ==> update_ids@[i] <= m,
{
    if update_ids.len() == 0 {
        return None;
    }
    let mut latest = update_ids[0];
    let mut i: usize = 1;
    assert(update_ids@.subrange(0, 1)[0] == latest);
    while i < update_ids.len()
        invariant
            1 <= i <= update_ids.len(),
            update_ids@.subrange(0, i as int).contains(latest),
            forall|j: int| 0 <= j < i ==> update_ids@[j] <= latest,
        decreases update_ids.len() - i,
    {
        if update_ids[i] > latest {
            latest = update_ids[i];
            assert(update_ids@.subrange(0, i + 1)[i as int] == latest);
        } else {
            proof {
                let k = choose|k: int| 0 <= k < i && update_ids@.subrange(0, i as int)[k] == latest;
                assert(update_ids@.subrange(0, i + 1)[k] == latest);
            }
        }
        i = i + 1;
    }
    proof {
        let k = choose|k: int| 0 <= k < i && update_ids@.subrange(0, i as int)[k] == latest;
        assert(update_ids@[k] == latest);
    }
    Some(latest)
}

/// The last update seen after a batch: the newest of the batch where it
/// is newer than what was seen before.
pub open spec fn next_offset(last_update: u32, update_ids: Seq<u32>) -> u32
    decreases update_ids.len(),
{
    if update_ids.len() == 0 {
        last_update
    } else {
        let before = next_offset(last_update, update_ids.drop_last());
        if update_ids.last() > before {
            update_ids.last()
        } else {
            before
        }
    }
}

/// `next_offset` is the largest of the last update seen and the batch.
pub proof fn lemma_next_offset_is_largest(last_update: u32, update_ids: Seq<u32>)
    ensures
        next_offset(last_update, update_ids) >= last_update,
        forall|i: int| 0 <= i < update_ids.len() ==> update_ids[i] <= next_offset(last_update, update_ids),
        next_offset(last_update, update_ids) == last_update
            || update_ids.contains(next_offset(last_update, update_ids)),
    decreases update_ids.len(),
{
    if update_ids.len() > 0 {
        let rest = update_ids.drop_last();
        lemma_next_offset_is_largest(last_update, rest);
        let n = next_offset(last_update, update_ids);
        assert forall|i: int| 0 <= i < update_ids.len() implies update_ids[i] <= n by {
            if i < rest.len() {
                assert(rest[i] == update_ids[i]);
            }
        }
        if n != last_update && n != update_ids.last() {
            let k = choose|k: int| 0 <= k < rest.len() && rest[k] == n;
            assert(update_ids[k] == n);
        } else if n == update_ids.last() {
            assert(update_ids[update_ids.len() - 1] == n);
        }
    }
}

/// After handling a batch of updates, moves the record of the last update
/// seen to the newest id of the batch where that is newer.
pub fn advance_update_offset(last_update: &mut u32, update_ids: &Vec<u32>)
    ensures
        *final(last_update) == next_offset(*old(last_update), update_ids@),
{
    proof { lemma_next_offset_is_largest(*last_update, update_ids@); }
    let ghost before = *last_update;
    let latest = match latest_update_id(update_ids) {
        Some(latest) => latest,
        None => {
            return;
        },
    };
    if latest > *last_update {
        let _ = set_update(last_update, latest);
    }
    proof {
        let n = next_offset(before, update_ids@);
        if n != before {
            let k = choose|k: int| 0 <= k < update_ids@.len() && update_ids@[k] == n;
            assert(update_ids@[k] <= latest);
        }
        let k2 = choose|k: int| 0 <= k < update_ids@.len() && update_ids@[k] == latest;
        assert(update_ids@[k2] <= n);
    }
}

/// The offset never moves back, and passes every update handled.
pub proof fn law_offset_is_monotone(last_update: u32, update_ids: Seq<u32>)
    ensures
        next_offset(last_update, update_ids) >= last_update,
        forall|i: int| 0 <= i < update_ids.len() ==> update_ids[i] <= next_offset(last_update, update_ids),
{
    lemma_next_offset_is_largest(last_update, update_ids);
}

/// Handling a batch again moves the offset no further.
pub proof fn law_offset_is_idempotent(last_update: u32, update_ids: Seq<u32>)
    ensures
        next_offset(next_offset(last_update, update_ids), update_ids) == next_offset(last_update, update_ids),
{
    let n = next_offset(last_update, update_ids);
    lemma_next_offset_is_largest(last_update, update_ids);
    lemma_next_offset_is_largest(n, update_ids);
    let m = next_offset(n, update_ids);
    if m != n {
        let k = choose|k: int| 0 <= k < update_ids.len() && update_ids[k] == m;
        assert(update_ids[k] <= n);
    }
}

/// Two batches in turn move the offset as far as the two handled at once.
pub proof fn law_offset_batches_compose(last_update: u32, first: Seq<u32>, second: Seq<u32>)
    ensures
        next_offset(next_offset(last_update, first), second) == next_offset(last_update, first + second),
    decreases second.len(),
{
    if second.len() == 0 {
        assert(first + second =~= first);
    } else {
        law_offset_batches_compose(last_update, first, second.drop_last());
        assert((first + second).drop_last() =~= first + second.drop_last());
        assert((first + second).last() == second.last());
    }
}

/// The address of the bot's API: the base URL and the bot id joined.
pub fn build_full_base(settings: &Settings) -> (r: String)
    ensures
        r@ == settings.telegram_base_url@ + settings.telegram_bot_id@,
{
    let s = String::from_str(settings.telegram_base_url.as_str());
    s.concat(settings.telegram_bot_id.as_str())
}

} // verus!
