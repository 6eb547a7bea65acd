//! The bot's settings.

use vstd::prelude::*;

verus! {

/// Where the Tor proxy listens, the node to check, and how to reach the
/// Telegram bot API.
pub struct Settings {
    pub sock_url_local: String,
    pub socks_port_local: u16,
    pub check_url: String,
    pub macaroon: String,
    pub telegram_bot_id: String,
    pub telegram_base_url: String,
}

impl Default for Settings {
    /// A local SOCKS proxy on port 9056, everything else empty.
    fn default() -> (r: Settings)
        ensures
            r.sock_url_local@ == "socks5h://127.0.0.1"@,
            r.socks_port_local == 9056,
            r.check_url@ == Seq::<char>::empty(),
            r.macaroon@ == Seq::<char>::empty(),
            r.telegram_bot_id@ == Seq::<char>::empty(),
            r.telegram_base_url@ == Seq::<char>::empty(),
    {
        Settings {
            sock_url_local: String::from_str("socks5h://127.0.0.1"),
            socks_port_local: 9056,
            check_url: String::new(),
            macaroon: String::new(),
            telegram_bot_id: String::new(),
            telegram_base_url: String::new(),
        }
    }
}

} // verus!
