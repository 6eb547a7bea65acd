//! How the bot watches a user's Lightning node and what it reports.

use vstd::prelude::*;
use crate::channels::{ChannelMessage, ChannelMessageView, ChannelType};
use crate::client_wrapper::build_url;
use crate::objects::LnGetInfo;
use crate::pickle_jar::{row_key, Row};
use crate::text::{
    i64_to_decimal, int_decimal, lemma_int_decimal_chars, lemma_int_decimal_injective, lemma_split_at_marker,
    lemma_strip_prefix, str_eq,
};

verus! {

/// The REST endpoint of LND that the bot polls.
pub const GET_INFO_COMMAND: &'static str = "/v1/getinfo";

/// The HTTP status of a successful answer.
pub const STATUS_OK: u16 = 200;

/// What the bot tells a user about a node that answered.
pub struct UserInfoLn {
    pub tor_api_url: String,
    pub num_pending_channels: i64,
    pub num_active_channels: i64,
    pub num_inactive_channels: i64,
    pub num_peers: i64,
}

/// The printed form of a node summary.
pub open spec fn user_info_ln_text(
    tor_api_url: Seq<char>,
    num_pending_channels: i64,
    num_active_channels: i64,
    num_inactive_channels: i64,
    num_peers: i64,
) -> Seq<char> {
    "(\n            'tor_api_url': '"@ + tor_api_url
        + "',\n            'num_pending_channels': '"@ + int_decimal(num_pending_channels as int)
        + "',\n            'num_active_channels': '"@ + int_decimal(num_active_channels as int)
        + "'\n            'num_inactive_channels': '"@ + int_decimal(num_inactive_channels as int)
        + "'\n            'num_peers': '"@ + int_decimal(num_peers as int)
        + "'\n        )"@
}

impl UserInfoLn {
    /// The printed form of the summary.
    pub fn to_display_string(&self) -> (r: String)
        ensures
            r@ == user_info_ln_text(
                self.tor_api_url@,
                self.num_pending_channels,
                self.num_active_channels,
                self.num_inactive_channels,
                self.num_peers,
            ),
    {
        let mut s = String::from_str("(\n            'tor_api_url': '");
        s.append(self.tor_api_url.as_str());
        s.append("',\n            'num_pending_channels': '");
        let n = i64_to_decimal(self.num_pending_channels);
        s.append(n.as_str());
        s.append("',\n            'num_active_channels': '");
        let n = i64_to_decimal(self.num_active_channels);
        s.append(n.as_str());
        s.append("'\n            'num_inactive_channels': '");
        let n = i64_to_decimal(self.num_inactive_channels);
        s.append(n.as_str());
        s.append("'\n            'num_peers': '");
        let n = i64_to_decimal(self.num_peers);
        s.append(n.as_str());
        s.append("'\n        )");
        s
    }
}

/// The text of a report on a node that could not be read.
pub open spec fn error_report_text(tor_api_url: Seq<char>, detail: Seq<char>) -> Seq<char> {
    "tor_api_url: "@ + tor_api_url + "\nerror: "@ + detail
}

/// A parse result with the error taken by its view.
pub open spec fn info_result_view(info: Result<LnGetInfo, String>) -> Result<LnGetInfo, Seq<char>> {
    match info {
        Ok(i) => Ok(i),
        Err(e) => Err(e@),
    }
}

/// The text of a report on a node that answered: its channel and peer
/// counts where its answer could be read, else the reading error.
pub open spec fn node_report_text(tor_api_url: Seq<char>, info: Result<LnGetInfo, Seq<char>>) -> Seq<char> {
    match info {
        Ok(i) => user_info_ln_text(
            tor_api_url,
            i.num_pending_channels,
            i.num_active_channels,
            i.num_inactive_channels,
            i.num_peers,
        ),
        Err(e) => error_report_text(tor_api_url, e),
    }
}

/// A report for the Telegram side.
pub open spec fn report_view(chat_id: i64, command: Seq<char>, text: Seq<char>) -> ChannelMessageView {
    ChannelMessageView {
        channel_type: ChannelType::Tel,
        chat_id,
        node_url: Seq::<char>::empty(),
        command,
        message: text,
        macaroon: Seq::<char>::empty(),
    }
}

fn report(chat_id: i64, command: &str, text: String) -> (r: ChannelMessage)
    ensures
        r@ == report_view(chat_id, command@, text@),
{
    ChannelMessage {
        channel_type: ChannelType::Tel,
        command: String::from_str(command),
        message: text,
        node_url: String::new(),
        chat_id,
        macaroon: String::new(),
    }
}

/// The report on a node that answered `command` with success: the node's
/// summary where its answer (`info`, read from the answer's text) could be
/// read, else the reading error.
pub fn handle_success_request(
    tor_api_url: String,
    info: Result<LnGetInfo, String>,
    chat_id: i64,
    command: &str,
) -> (r: ChannelMessage)
    ensures
        r@ == report_view(chat_id, command@, node_report_text(tor_api_url@, info_result_view(info))),
{
    let to_send = match info {
        Ok(ln_response) => {
            let summary = UserInfoLn {
                tor_api_url,
                num_pending_channels: ln_response.num_pending_channels,
                num_active_channels: ln_response.num_active_channels,
                num_inactive_channels: ln_response.num_inactive_channels,
                num_peers: ln_response.num_peers,
            };
            summary.to_display_string()
        },
        Err(error) => {
            let s = String::from_str("tor_api_url: ");
            s.concat(tor_api_url.as_str()).concat("\nerror: ").concat(error.as_str())
        },
    };
    report(chat_id, command, to_send)
}

/// The report on a node that answered `command` with a failure, quoting
/// the text of its answer.
pub fn handle_request_err(tor_api_url: String, body: String, chat_id: i64, command: &str) -> (r: ChannelMessage)
    ensures
        r@ == report_view(chat_id, command@, error_report_text(tor_api_url@, body@)),
{
    let s = String::from_str("tor_api_url: ");
    let text = s.concat(tor_api_url.as_str()).concat("\nerror: ").concat(body.as_str());
    report(chat_id, command, text)
}

/// The node a watch polls, and the record to store first where the chat
/// had none.
pub struct NodeTarget {
    pub node_url: String,
    pub macaroon: String,
    pub store: Option<Row>,
}

/// Chooses the node to watch for a request: the one stored for the chat,
/// or, where none is stored (no node address), the one in the request,
/// which is then stored as a watching record.
pub fn handle_check_service(stored: Row, ln_info: &ChannelMessage) -> (r: NodeTarget)
    ensures
        stored.node_url@.len() > 0 ==> {
            &&& r.node_url@ == stored.node_url@
            &&& r.macaroon@ == stored.macaroon@
            &&& r.store is None
        },
        stored.node_url@.len() == 0 ==> {
            &&& r.node_url@ == ln_info.node_url@
            &&& r.macaroon@ == ln_info.macaroon@
            &&& r.store matches Some(row) && row.telegram_chat_id == ln_info.chat_id
                && row.node_url@ == ln_info.node_url@ && row.macaroon@ == ln_info.macaroon@
                && row.is_watching
        },
{
    if stored.node_url.as_str().is_empty() {
        let row = Row {
            telegram_chat_id: ln_info.chat_id,
            node_url: ln_info.node_url.clone(),
            is_watching: true,
            macaroon: ln_info.macaroon.clone(),
        };
        NodeTarget {
            node_url: ln_info.node_url.clone(),
            macaroon: ln_info.macaroon.clone(),
            store: Some(row),
        }
    } else {
        NodeTarget { node_url: stored.node_url, macaroon: stored.macaroon, store: None }
    }
}

/// Where a watch is in its round: about to read the chat's record, waiting
/// for the node's answer, or over.
#[derive(Clone, Copy, Debug, PartialEq, Eq, Structural)]
pub enum WatchPhase {
    CheckRecord,
    AwaitReply,
    Stopped,
}

/// A watch on a user's node.
pub struct NodeWatch {
    pub chat_id: i64,
    /// The command that started the watch: `start` keeps watching,
    /// `status` asks once.
    pub command: String,
    pub node_url: String,
    pub macaroon: String,
    /// Whether a successful answer is still to be reported.
    pub send_status: bool,
    pub phase: WatchPhase,
}

/// What the app observed for a watch.
pub enum WatchEvent {
    /// The chat's record was read; `is_watching` is its flag.
    RecordRead { is_watching: bool },
    /// The node answered with HTTP `status` and the text `body`; `info` is
    /// `body` read as a `/v1/getinfo` answer, or the error of that reading.
    NodeAnswered { status: u16, body: String, info: Result<LnGetInfo, String> },
    /// The request did not reach the node.
    NodeUnreachable,
}

/// What the app is to do next for a watch.
pub enum WatchAction {
    /// Delete the record stored under `key`; the watch is over.
    RemoveRecord { key: String },
    /// Wait for the next tick of the polling interval, then ask the node.
    Poll { url: String, macaroon: String },
    /// Send this report to the Telegram side.
    Notify(ChannelMessage),
    /// Nothing.
    Nothing,
}

/// A watch with each text taken by its view.
pub struct NodeWatchView {
    pub chat_id: i64,
    pub command: Seq<char>,
    pub node_url: Seq<char>,
    pub macaroon: Seq<char>,
    pub send_status: bool,
    pub phase: WatchPhase,
}

/// An event with each text taken by its view.
pub enum WatchEventView {
    RecordRead { is_watching: bool },
    NodeAnswered { status: u16, body: Seq<char>, info: Result<LnGetInfo, Seq<char>> },
    NodeUnreachable,
}

/// An action with each text taken by its view.
pub enum WatchActionView {
    RemoveRecord { key: Seq<char> },
    Poll { url: Seq<char>, macaroon: Seq<char> },
    Notify(ChannelMessageView),
    Nothing,
}

impl View for NodeWatch {
    type V = NodeWatchView;

    open spec fn view(&self) -> NodeWatchView {
        NodeWatchView {
            chat_id: self.chat_id,
            command: self.command@,
            node_url: self.node_url@,
            macaroon: self.macaroon@,
            send_status: self.send_status,
            phase: self.phase,
        }
    }
}

impl View for WatchEvent {
    type V = WatchEventView;

    open spec fn view(&self) -> WatchEventView {
        match self {
            WatchEvent::RecordRead { is_watching } => WatchEventView::RecordRead { is_watching: *is_watching },
            WatchEvent::NodeAnswered { status, body, info } => WatchEventView::NodeAnswered {
                status: *status,
                body: body@,
                info: info_result_view(*info),
            },
            WatchEvent::NodeUnreachable => WatchEventView::NodeUnreachable,
        }
    }
}

impl View for WatchAction {
    type V = WatchActionView;

    open spec fn view(&self) -> WatchActionView {
        match self {
            WatchAction::RemoveRecord { key } => WatchActionView::RemoveRecord { key: key@ },
            WatchAction::Poll { url, macaroon } => WatchActionView::Poll { url: url@, macaroon: macaroon@ },
            WatchAction::Notify(m) => WatchActionView::Notify(m@),
            WatchAction::Nothing => WatchActionView::Nothing,
        }
    }
}

/// A watch as it begins: the node chosen for the request, a successful
/// answer to be reported where the request names a command, and the
/// chat's record to be read first.
pub open spec fn watch_start(ln_info: ChannelMessageView, node_url: Seq<char>, macaroon: Seq<char>) -> NodeWatchView {
    NodeWatchView {
        chat_id: ln_info.chat_id,
        command: ln_info.command,
        node_url,
        macaroon,
        send_status: ln_info.command.len() > 0,
        phase: WatchPhase::CheckRecord,
    }
}

/// A watch after the node's answer (or the failure to reach it): no more
/// success reports, and over where it only asked for the status.
pub open spec fn after_answer(s: NodeWatchView) -> NodeWatchView {
    NodeWatchView {
        chat_id: s.chat_id,
        command: s.command,
        node_url: s.node_url,
        macaroon: s.macaroon,
        send_status: false,
        phase: if s.command == "status"@ { WatchPhase::Stopped } else { WatchPhase::CheckRecord },
    }
}

/// A watch in another phase.
pub open spec fn with_phase(s: NodeWatchView, phase: WatchPhase) -> NodeWatchView {
    NodeWatchView {
        chat_id: s.chat_id,
        command: s.command,
        node_url: s.node_url,
        macaroon: s.macaroon,
        send_status: s.send_status,
        phase,
    }
}

/// The report, if any, on an answer of the node.
pub open spec fn answer_report(s: NodeWatchView, status: u16, body: Seq<char>, info: Result<LnGetInfo, Seq<char>>) -> WatchActionView {
    if status == STATUS_OK {
        if s.send_status {
            WatchActionView::Notify(report_view(s.chat_id, GET_INFO_COMMAND@, node_report_text(s.node_url, info)))
        } else {
            WatchActionView::Nothing
        }
    } else {
        WatchActionView::Notify(report_view(s.chat_id, GET_INFO_COMMAND@, error_report_text(s.node_url, body)))
    }
}

/// One step of a watch. A record that no longer asks for watching ends the
/// watch and is removed; otherwise the node is polled. A failed answer is
/// always reported; a successful one only while `send_status` holds, which
/// the first answer clears. A `status` watch ends after its first answer.
/// Events that do not fit the phase change nothing.
pub open spec fn watch_step(s: NodeWatchView, e: WatchEventView) -> (NodeWatchView, WatchActionView) {
    match s.phase {
        WatchPhase::CheckRecord => match e {
            WatchEventView::RecordRead { is_watching } => if is_watching {
                (
                    with_phase(s, WatchPhase::AwaitReply),
                    WatchActionView::Poll { url: s.node_url + GET_INFO_COMMAND@, macaroon: s.macaroon },
                )
            } else {
                (
                    with_phase(s, WatchPhase::Stopped),
                    WatchActionView::RemoveRecord { key: int_decimal(s.chat_id as int) },
                )
            },
            _ => (s, WatchActionView::Nothing),
        },
        WatchPhase::AwaitReply => match e {
            WatchEventView::NodeAnswered { status, body, info } => (after_answer(s), answer_report(s, status, body, info)),
            WatchEventView::NodeUnreachable => (after_answer(s), WatchActionView::Nothing),
            _ => (s, WatchActionView::Nothing),
        },
        WatchPhase::Stopped => (s, WatchActionView::Nothing),
    }
}

/// The watch after a sequence of events, and the actions taken on the way.
pub open spec fn watch_run(s: NodeWatchView, events: Seq<WatchEventView>) -> (NodeWatchView, Seq<WatchActionView>)
    decreases events.len(),
{
    if events.len() == 0 {
        (s, Seq::<WatchActionView>::empty())
    } else {
        let before = watch_run(s, events.drop_last());
        let last = watch_step(before.0, events.last());
        (last.0, before.1.push(last.1))
    }
}

/// Whether a step reported a successful answer of the node.
pub open spec fn is_success_report(e: WatchEventView, a: WatchActionView) -> bool {
    &&& e matches WatchEventView::NodeAnswered { status, .. } && status == STATUS_OK
    &&& a is Notify
}

/// How many successful answers a sequence of events reports.
pub open spec fn success_reports(s: NodeWatchView, events: Seq<WatchEventView>) -> nat
    decreases events.len(),
{
    if events.len() == 0 {
        0
    } else {
        let before = watch_run(s, events.drop_last()).0;
        let a = watch_step(before, events.last()).1;
        success_reports(s, events.drop_last()) + if is_success_report(events.last(), a) {
            1nat
        } else {
            0nat
        }
    }
}

/// How many polls of the node a sequence of events asks for.
pub open spec fn polls(s: NodeWatchView, events: Seq<WatchEventView>) -> nat
    decreases events.len(),
{
    if events.len() == 0 {
        0
    } else {
        let before = watch_run(s, events.drop_last()).0;
        let a = watch_step(before, events.last()).1;
        polls(s, events.drop_last()) + if a is Poll {
            1nat
        } else {
            0nat
        }
    }
}

/// A watch keeps its chat, command and node through every step.
pub proof fn lemma_step_keeps_identity(s: NodeWatchView, e: WatchEventView)
    ensures
        watch_step(s, e).0.chat_id == s.chat_id,
        watch_step(s, e).0.command == s.command,
        watch_step(s, e).0.node_url == s.node_url,
        watch_step(s, e).0.macaroon == s.macaroon,
        watch_step(s, e).0.send_status ==> s.send_status,
{
}

/// A watch keeps its chat, command and node through every run.
pub proof fn lemma_run_keeps_identity(s: NodeWatchView, events: Seq<WatchEventView>)
    ensures
        watch_run(s, events).0.chat_id == s.chat_id,
        watch_run(s, events).0.command == s.command,
        watch_run(s, events).0.node_url == s.node_url,
        watch_run(s, events).0.macaroon == s.macaroon,
        watch_run(s, events).0.send_status ==> s.send_status,
        watch_run(s, events).1.len() == events.len(),
    decreases events.len(),
{
    if events.len() > 0 {
        lemma_run_keeps_identity(s, events.drop_last());
        lemma_step_keeps_identity(watch_run(s, events.drop_last()).0, events.last());
    }
}

/// A watch reports at most one successful answer of its node, and none
/// where it began with nothing to report: the bot does not repeat a
/// healthy status every poll.
pub proof fn law_success_reported_at_most_once(s: NodeWatchView, events: Seq<WatchEventView>)
    ensures
        success_reports(s, events) <= (if s.send_status { 1nat } else { 0nat }),
        success_reports(s, events) + (if watch_run(s, events).0.send_status { 1nat } else { 0nat })
            <= (if s.send_status { 1nat } else { 0nat }),
    decreases events.len(),
{
    if events.len() > 0 {
        law_success_reported_at_most_once(s, events.drop_last());
        let before = watch_run(s, events.drop_last()).0;
        lemma_step_keeps_identity(before, events.last());
    }
}

/// A watch that only asks for the status polls its node at most once.
pub proof fn law_status_watch_polls_once(s: NodeWatchView, events: Seq<WatchEventView>)
    requires
        s.command == "status"@,
    ensures
        polls(s, events) <= 1,
        polls(s, events) + (if watch_run(s, events).0.phase == WatchPhase::CheckRecord { 1nat } else { 0nat })
            <= (if s.phase == WatchPhase::CheckRecord { 1nat } else { 0nat }),
    decreases events.len(),
{
    if events.len() > 0 {
        law_status_watch_polls_once(s, events.drop_last());
        lemma_run_keeps_identity(s, events.drop_last());
    }
}

/// A watch that is over stays over and does nothing more.
pub proof fn law_stopped_watch_stays_stopped(s: NodeWatchView, events: Seq<WatchEventView>)
    requires
        s.phase == WatchPhase::Stopped,
    ensures
        watch_run(s, events).0 == s,
        forall|i: int| 0 <= i < events.len() ==> #[trigger] watch_run(s, events).1[i] == WatchActionView::Nothing,
    decreases events.len(),
{
    if events.len() > 0 {
        law_stopped_watch_stays_stopped(s, events.drop_last());
        lemma_run_keeps_identity(s, events.drop_last());
        let before = watch_run(s, events.drop_last());
        assert forall|i: int| 0 <= i < events.len() implies #[trigger] watch_run(s, events).1[i]
            == WatchActionView::Nothing by {
            if i < events.len() - 1 {
                assert(watch_run(s, events).1[i] == before.1[i]);
            }
        }
    }
}

/// After `/stop` clears the watching flag, the watch of that chat ends at
/// its next look at the record, and removes the chat's record.
pub proof fn law_stand_down_ends_watch(s: NodeWatchView)
    requires
        s.phase == WatchPhase::CheckRecord,
    ensures
        watch_step(s, WatchEventView::RecordRead { is_watching: false }) == (
            with_phase(s, WatchPhase::Stopped),
            WatchActionView::RemoveRecord { key: int_decimal(s.chat_id as int) },
        ),
{
}

/// A watch begun by a registration polls the registered node with the
/// registered macaroon, and reports its first successful answer.
pub proof fn law_registered_node_is_polled(chat_id: i64, node_url: Seq<char>, macaroon: Seq<char>)
    ensures
        ({
            let request = ChannelMessageView {
                channel_type: ChannelType::Ln,
                chat_id,
                node_url,
                command: "start"@,
                message: Seq::<char>::empty(),
                macaroon,
            };
            let first = watch_step(watch_start(request, node_url, macaroon), WatchEventView::RecordRead { is_watching: true });
            &&& first.1 == WatchActionView::Poll { url: node_url + GET_INFO_COMMAND@, macaroon }
            &&& first.0.send_status
            &&& first.0.phase == WatchPhase::AwaitReply
        }),
{
    reveal_strlit("start");
}

/// The request that resumes the watch of a stored record when the bot
/// starts again. It names no command, so the watch reports no successful
/// answer, only failures.
pub fn resume_request(row: &Row) -> (r: ChannelMessage)
    ensures
        r@ == (ChannelMessageView {
            channel_type: ChannelType::Ln,
            chat_id: row.telegram_chat_id,
            node_url: row.node_url@,
            command: Seq::<char>::empty(),
            message: Seq::<char>::empty(),
            macaroon: row.macaroon@,
        }),
{
    ChannelMessage {
        channel_type: ChannelType::Ln,
        chat_id: row.telegram_chat_id,
        node_url: row.node_url.clone(),
        command: String::new(),
        message: String::new(),
        macaroon: row.macaroon.clone(),
    }
}

/// A watch resumed at start-up never reports a successful answer.
pub proof fn law_resumed_watch_is_quiet(
    request: ChannelMessageView,
    node_url: Seq<char>,
    macaroon: Seq<char>,
    events: Seq<WatchEventView>,
)
    requires
        request.command == Seq::<char>::empty(),
    ensures
        success_reports(watch_start(request, node_url, macaroon), events) == 0,
{
    law_success_reported_at_most_once(watch_start(request, node_url, macaroon), events);
}

/// A watch begun for a request polls the target chosen for it, not the
/// request's own address: a `/status` request carries no address, and its
/// watch still polls the node stored for the chat, with the stored
/// macaroon. It reports a successful answer exactly when the request names
/// a command.
pub proof fn law_watch_polls_chosen_target(request: ChannelMessageView, node_url: Seq<char>, macaroon: Seq<char>)
    ensures
        watch_start(request, node_url, macaroon).node_url == node_url,
        watch_start(request, node_url, macaroon).macaroon == macaroon,
        watch_start(request, node_url, macaroon).chat_id == request.chat_id,
        watch_start(request, node_url, macaroon).command == request.command,
        watch_start(request, node_url, macaroon).send_status <==> request.command.len() > 0,
        watch_start(request, node_url, macaroon).phase == WatchPhase::CheckRecord,
        watch_step(watch_start(request, node_url, macaroon), WatchEventView::RecordRead { is_watching: true }).1
            == (WatchActionView::Poll { url: node_url + "/v1/getinfo"@, macaroon }),
{
}

/// A watch that is not a `status` watch goes on after any answer of its
/// node, failed or not, and after failing to reach it: it reads the
/// chat's record again for the next round.
pub proof fn law_watch_survives_answers(s: NodeWatchView, e: WatchEventView)
    requires
        s.phase == WatchPhase::AwaitReply,
        s.command != "status"@,
        !(e is RecordRead),
    ensures
        watch_step(s, e).0.phase == WatchPhase::CheckRecord,
{
}

/// A watch ends only where the chat's record no longer asks for watching,
/// or after the answer to a `status` watch (and stays ended).
pub proof fn law_watch_ends_only_on_stop_or_status(s: NodeWatchView, e: WatchEventView)
    ensures
        watch_step(s, e).0.phase == WatchPhase::Stopped ==> {
            ||| s.phase == WatchPhase::Stopped
            ||| s.phase == WatchPhase::CheckRecord && e == (WatchEventView::RecordRead { is_watching: false })
            ||| s.phase == WatchPhase::AwaitReply && s.command == "status"@ && !(e is RecordRead)
        },
        s.phase == WatchPhase::AwaitReply && s.command == "status"@ && !(e is RecordRead)
            ==> watch_step(s, e).0.phase == WatchPhase::Stopped,
{
}

/// Every failed answer of the node, whatever its status, is reported to
/// the chat, quoting the node's address and the text of its answer.
pub proof fn law_failed_answer_is_reported(
    s: NodeWatchView,
    status: u16,
    body: Seq<char>,
    info: Result<LnGetInfo, Seq<char>>,
)
    requires
        s.phase == WatchPhase::AwaitReply,
        status != 200,
    ensures
        watch_step(s, WatchEventView::NodeAnswered { status, body, info }).1 == WatchActionView::Notify(
            ChannelMessageView {
                channel_type: ChannelType::Tel,
                chat_id: s.chat_id,
                node_url: Seq::<char>::empty(),
                command: "/v1/getinfo"@,
                message: "tor_api_url: "@ + s.node_url + "\nerror: "@ + body,
                macaroon: Seq::<char>::empty(),
            },
        ),
{
}

/// A successful answer, while still to be reported, is reported with the
/// report of the node's answer.
pub proof fn law_first_success_is_reported(
    s: NodeWatchView,
    body: Seq<char>,
    info: Result<LnGetInfo, Seq<char>>,
)
    requires
        s.phase == WatchPhase::AwaitReply,
        s.send_status,
    ensures
        watch_step(s, WatchEventView::NodeAnswered { status: 200, body, info }).1 == WatchActionView::Notify(
            ChannelMessageView {
                channel_type: ChannelType::Tel,
                chat_id: s.chat_id,
                node_url: Seq::<char>::empty(),
                command: "/v1/getinfo"@,
                message: node_report_text(s.node_url, info),
                macaroon: Seq::<char>::empty(),
            },
        ),
{
}

proof fn lemma_decimal_has_no_quote(n: int)
    ensures
        forall|i: int| 0 <= i < int_decimal(n).len() ==> int_decimal(n)[i] != '\'',
{
    lemma_int_decimal_chars(n);
}

spec fn no_quote(d: Seq<char>) -> bool {
    forall|k: int| 0 <= k < d.len() ==> d[k] != '\''
}

spec fn starts_with_quote(l: Seq<char>) -> bool {
    l.len() > 0 && l[0] == '\''
}

/// Four quote-free fields, each followed by a text that starts with a
/// quote, are read back from their join.
proof fn lemma_four_fields(
    d: (Seq<char>, Seq<char>, Seq<char>, Seq<char>),
    e: (Seq<char>, Seq<char>, Seq<char>, Seq<char>),
    l: (Seq<char>, Seq<char>, Seq<char>, Seq<char>),
)
    requires
        no_quote(d.0) && no_quote(d.1) && no_quote(d.2) && no_quote(d.3),
        no_quote(e.0) && no_quote(e.1) && no_quote(e.2) && no_quote(e.3),
        starts_with_quote(l.0) && starts_with_quote(l.1) && starts_with_quote(l.2) && starts_with_quote(l.3),
        d.0 + (l.0 + (d.1 + (l.1 + (d.2 + (l.2 + (d.3 + l.3)))))) == e.0 + (l.0 + (e.1 + (l.1 + (e.2 + (l.2
            + (e.3 + l.3)))))),
    ensures
        d == e,
{
    let rd3 = d.3 + l.3;
    let re3 = e.3 + l.3;
    let rd2 = d.2 + (l.2 + rd3);
    let re2 = e.2 + (l.2 + re3);
    let rd1 = d.1 + (l.1 + rd2);
    let re1 = e.1 + (l.1 + re2);
    lemma_split_at_marker(d.0, l.0 + rd1, e.0, l.0 + re1, '\'');
    lemma_strip_prefix(l.0, rd1, re1);
    lemma_split_at_marker(d.1, l.1 + rd2, e.1, l.1 + re2, '\'');
    lemma_strip_prefix(l.1, rd2, re2);
    lemma_split_at_marker(d.2, l.2 + rd3, e.2, l.2 + re3, '\'');
    lemma_strip_prefix(l.2, rd3, re3);
    lemma_split_at_marker(d.3, l.3, e.3, l.3, '\'');
}

/// The report on a readable answer prints the node's address and each of
/// its four counts whole, in decimal, in the order pending, active,
/// inactive channels and peers.
pub proof fn law_report_prints_counts(url: Seq<char>, i: LnGetInfo)
    ensures
        node_report_text(url, Ok(i)) == ("(\n            'tor_api_url': '"@ + url + "',\n            'num_pending_channels': '"@)
            + (int_decimal(i.num_pending_channels as int) + ("',\n            'num_active_channels': '"@
            + (int_decimal(i.num_active_channels as int) + ("'\n            'num_inactive_channels': '"@
            + (int_decimal(i.num_inactive_channels as int) + ("'\n            'num_peers': '"@
            + (int_decimal(i.num_peers as int) + "'\n        )"@))))))),
{
    let l0 = "(\n            'tor_api_url': '"@;
    let l1 = "',\n            'num_pending_channels': '"@;
    let l2 = "',\n            'num_active_channels': '"@;
    let l3 = "'\n            'num_inactive_channels': '"@;
    let l4 = "'\n            'num_peers': '"@;
    let l5 = "'\n        )"@;
    let d1 = int_decimal(i.num_pending_channels as int);
    let d2 = int_decimal(i.num_active_channels as int);
    let d3 = int_decimal(i.num_inactive_channels as int);
    let d4 = int_decimal(i.num_peers as int);
    assert(node_report_text(url, Ok(i)) == l0 + url + l1 + d1 + l2 + d2 + l3 + d3 + l4 + d4 + l5);
    assert(l0 + url + l1 + d1 + l2 + d2 + l3 + d3 + l4 + d4 + l5 =~= (l0 + url + l1) + (d1 + (l2 + (d2 + (l3
        + (d3 + (l4 + (d4 + l5))))))));
}

/// The report on a readable answer tells the node's counts apart: two
/// answers on the same node that give the same report have the same
/// pending, active and inactive channel counts and the same number of
/// peers. Each count is printed whole.
pub proof fn law_report_determines_counts(url: Seq<char>, i: LnGetInfo, j: LnGetInfo)
    requires
        node_report_text(url, Ok(i)) == node_report_text(url, Ok(j)),
    ensures
        i.num_pending_channels == j.num_pending_channels,
        i.num_active_channels == j.num_active_channels,
        i.num_inactive_channels == j.num_inactive_channels,
        i.num_peers == j.num_peers,
{
    reveal_strlit("',\n            'num_active_channels': '");
    reveal_strlit("'\n            'num_inactive_channels': '");
    reveal_strlit("'\n            'num_peers': '");
    reveal_strlit("'\n        )");
    let l2 = "',\n            'num_active_channels': '"@;
    let l3 = "'\n            'num_inactive_channels': '"@;
    let l4 = "'\n            'num_peers': '"@;
    let l5 = "'\n        )"@;
    let p = "(\n            'tor_api_url': '"@ + url + "',\n            'num_pending_channels': '"@;
    let d = (
        int_decimal(i.num_pending_channels as int),
        int_decimal(i.num_active_channels as int),
        int_decimal(i.num_inactive_channels as int),
        int_decimal(i.num_peers as int),
    );
    let e = (
        int_decimal(j.num_pending_channels as int),
        int_decimal(j.num_active_channels as int),
        int_decimal(j.num_inactive_channels as int),
        int_decimal(j.num_peers as int),
    );
    lemma_decimal_has_no_quote(i.num_pending_channels as int);
    lemma_decimal_has_no_quote(i.num_active_channels as int);
    lemma_decimal_has_no_quote(i.num_inactive_channels as int);
    lemma_decimal_has_no_quote(i.num_peers as int);
    lemma_decimal_has_no_quote(j.num_pending_channels as int);
    lemma_decimal_has_no_quote(j.num_active_channels as int);
    lemma_decimal_has_no_quote(j.num_inactive_channels as int);
    lemma_decimal_has_no_quote(j.num_peers as int);
    law_report_prints_counts(url, i);
    law_report_prints_counts(url, j);
    lemma_strip_prefix(
        p,
        d.0 + (l2 + (d.1 + (l3 + (d.2 + (l4 + (d.3 + l5)))))),
        e.0 + (l2 + (e.1 + (l3 + (e.2 + (l4 + (e.3 + l5)))))),
    );
    lemma_four_fields(d, e, (l2, l3, l4, l5));
    lemma_int_decimal_injective(i.num_pending_channels as int, j.num_pending_channels as int);
    lemma_int_decimal_injective(i.num_active_channels as int, j.num_active_channels as int);
    lemma_int_decimal_injective(i.num_inactive_channels as int, j.num_inactive_channels as int);
    lemma_int_decimal_injective(i.num_peers as int, j.num_peers as int);
}

impl NodeWatch {
    /// Begins a watch for a request, on the node that `handle_check_service`
    /// chose for it.
    pub fn start(ln_info: &ChannelMessage, target: NodeTarget) -> (r: NodeWatch)
        ensures
            r@ == watch_start(ln_info@, target.node_url@, target.macaroon@),
    {
        NodeWatch {
            chat_id: ln_info.chat_id,
            command: ln_info.command.clone(),
            node_url: target.node_url,
            macaroon: target.macaroon,
            send_status: !ln_info.command.as_str().is_empty(),
            phase: WatchPhase::CheckRecord,
        }
    }

    fn finish_answer(self) -> (r: NodeWatch)
        ensures
            r@ == after_answer(self@),
    {
        let stop = str_eq(self.command.as_str(), "status");
        NodeWatch {
            chat_id: self.chat_id,
            command: self.command,
            node_url: self.node_url,
            macaroon: self.macaroon,
            send_status: false,
            phase: if stop { WatchPhase::Stopped } else { WatchPhase::CheckRecord },
        }
    }

    /// Takes one step of the watch on what the app observed.
    pub fn step(self, event: WatchEvent) -> (r: (NodeWatch, WatchAction))
        ensures
            (r.0@, r.1@) == watch_step(self@, event@),
    {
        match self.phase {
            WatchPhase::CheckRecord => match event {
                WatchEvent::RecordRead { is_watching } => {
                    if is_watching {
                        let url = build_url(self.node_url.clone(), GET_INFO_COMMAND);
                        let macaroon = self.macaroon.clone();
                        let next = NodeWatch { phase: WatchPhase::AwaitReply, ..self };
                        (next, WatchAction::Poll { url, macaroon })
                    } else {
                        let key = row_key(self.chat_id);
                        let next = NodeWatch { phase: WatchPhase::Stopped, ..self };
                        (next, WatchAction::RemoveRecord { key })
                    }
                },
                _ => (self, WatchAction::Nothing),
            },
            WatchPhase::AwaitReply => match event {
                WatchEvent::NodeAnswered { status, body, info } => {
                    let action = if status == STATUS_OK {
                        if self.send_status {
                            WatchAction::Notify(
                                handle_success_request(self.node_url.clone(), info, self.chat_id, GET_INFO_COMMAND),
                            )
                        } else {
                            WatchAction::Nothing
                        }
                    } else {
                        WatchAction::Notify(
                            handle_request_err(self.node_url.clone(), body, self.chat_id, GET_INFO_COMMAND),
                        )
                    };
                    (self.finish_answer(), action)
                },
                WatchEvent::NodeUnreachable => (self.finish_answer(), WatchAction::Nothing),
                _ => (self, WatchAction::Nothing),
            },
            WatchPhase::Stopped => (self, WatchAction::Nothing),
        }
    }
}

} // verus!
