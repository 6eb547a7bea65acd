//! The addresses that the HTTP clients use.

use vstd::prelude::*;
use crate::config_wrapper::Settings;
use crate::text::{int_decimal, u64_to_decimal};

verus! {

/// The proxy address: the SOCKS URL, a colon and the port.
pub open spec fn proxy_location(settings: Settings) -> Seq<char> {
    settings.sock_url_local@ + ":"@ + int_decimal(settings.socks_port_local as int)
}

/// The address of the Tor SOCKS proxy that every request goes through.
pub fn build_poxy_location(settings: &Settings) -> (r: String)
    ensures
        r@ == proxy_location(*settings),
{
    let port = u64_to_decimal(settings.socks_port_local as u64);
    let mut s = String::from_str(settings.sock_url_local.as_str());
    s.append(":");
    s.append(port.as_str());
    s
}

/// The URL of `command` on the server at `base_url`: the two joined.
pub fn build_url(base_url: String, command: &str) -> (r: String)
    ensures
        r@ == base_url@ + command@,
{
    base_url.concat(command)
}

} // verus!
