//! The first message shapes of the bot: a request for a node, and a
//! notice for a Telegram user.

use vstd::prelude::*;
use crate::text::{bool_text, bool_to_text};

verus! {

/// A request for a Lightning node.
pub struct LnInfo {
    pub node_url: String,
    pub command: String,
    pub is_active: bool,
    pub message: String,
}

/// A notice for a Telegram user.
pub struct TelInfo {
    pub user_id: String,
    pub command: String,
    pub is_active: bool,
    pub message: String,
}

/// The printed form of an `LnInfo`.
pub open spec fn ln_info_text(i: LnInfo) -> Seq<char> {
    "Node_URL: "@ + i.node_url@ + "\n\rIsActive: "@ + bool_text(i.is_active) + "\n\rCommand: "@
        + i.command@ + ",\n\rMessage: "@ + i.message@ + " "@
}

/// The printed form of a `TelInfo`.
pub open spec fn tel_info_text(i: TelInfo) -> Seq<char> {
    "User_Id: "@ + i.user_id@ + "\n\rIsActive: "@ + bool_text(i.is_active) + "\n\rCommand: "@
        + i.command@ + ",\n\rMessage: "@ + i.message@ + " "@
}

impl LnInfo {
    /// The printed form of the request.
    pub fn to_display_string(&self) -> (r: String)
        ensures
            r@ == ln_info_text(*self),
    {
        let mut s = String::from_str("Node_URL: ");
        s.append(self.node_url.as_str());
        s.append("\n\rIsActive: ");
        let active = bool_to_text(self.is_active);
        s.append(active.as_str());
        s.append("\n\rCommand: ");
        s.append(self.command.as_str());
        s.append(",\n\rMessage: ");
        s.append(self.message.as_str());
        s.append(" ");
        s
    }
}

impl TelInfo {
    /// The printed form of the notice.
    pub fn to_display_string(&self) -> (r: String)
        ensures
            r@ == tel_info_text(*self),
    {
        let mut s = String::from_str("User_Id: ");
        s.append(self.user_id.as_str());
        s.append("\n\rIsActive: ");
        let active = bool_to_text(self.is_active);
        s.append(active.as_str());
        s.append("\n\rCommand: ");
        s.append(self.command.as_str());
        s.append(",\n\rMessage: ");
        s.append(self.message.as_str());
        s.append(" ");
        s
    }
}

} // verus!
