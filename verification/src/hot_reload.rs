//! Hot reload: where the engine listens for changed assets, and what it does
//! with what it hears.

use crate::text::{decimal, decimal_text, parse_u16, parsed_u16, same_text};
use vstd::prelude::*;

verus! {

/// The port of the development server where the page does not say.
pub const DEFAULT_HTTP_PORT: u16 = 5173;

/// The scheme of the notification socket for a page that was loaded over
/// `protocol`: secure for a secure page.
pub open spec fn ws_scheme(protocol: Seq<char>) -> Seq<char> {
    if protocol == "https:"@ {
        "wss"@
    } else {
        "ws"@
    }
}

/// The port of the page: what its text stands for, or 5173 where the text
/// is empty or stands for no port.
pub open spec fn http_port(port: Seq<char>) -> u16 {
    match parsed_u16(port) {
        Some(number) => number,
        None => 5173,
    }
}

/// The port of the notification socket: the one after the port of the
/// page, or the largest port where there is none after it.
pub open spec fn ws_port(port: Seq<char>) -> u16 {
    if http_port(port) == u16::MAX {
        u16::MAX
    } else {
        (http_port(port) + 1) as u16
    }
}

/// The address of the notification socket of a page.
pub open spec fn ws_url(protocol: Seq<char>, hostname: Seq<char>, port: Seq<char>) -> Seq<char> {
    ws_scheme(protocol) + "://"@ + hostname + ":"@ + decimal_text(ws_port(port) as nat) + "/ws"@
}

/// Computes the address of the notification socket from the location of
/// the page: `ws` or `wss` by the page's protocol, the page's host without
/// its port, and the port after the page's port, which is 5173 where the
/// page does not say.
pub fn compute_ws_url(protocol: &str, hostname: &str, port: &str) -> (r: String)
    ensures
        r@ == ws_url(protocol@, hostname@, port@),
{
    let scheme = if same_text(protocol, "https:") {
        "wss"
    } else {
        "ws"
    };
    let http_port: u16 = if port.is_empty() {
        proof {
            assert(parsed_u16(port@) is None);
        }
        DEFAULT_HTTP_PORT
    } else {
        match parse_u16(port) {
            Some(number) => number,
            None => DEFAULT_HTTP_PORT,
        }
    };
    let ws_port: u16 = http_port.saturating_add(1);
    let mut url = scheme.to_owned();
    url.append("://");
    url.append(hostname);
    url.append(":");
    url.append(decimal(ws_port).as_str());
    url.append("/ws");
    url
}

/// A notification of the development server.
#[derive(Debug)]
pub enum WsMessage {
    /// The asset at `url` has changed.
    AssetChanged { url: String },
    /// The server greets.
    Hello,
    /// Any notification of another kind.
    Unknown,
}

/// What the engine does with a notification.
#[derive(Debug)]
pub enum HotReloadAction {
    /// Tell the handler that the asset at this address has changed.
    Reload(String),
    /// Pass the notification over.
    Ignore,
}

/// Decides what to do with a notification: a changed asset is reported to
/// the handler, everything else is passed over.
pub fn hot_reload_action(message: WsMessage) -> (r: HotReloadAction)
    ensures
        r == (match message {
            WsMessage::AssetChanged { url } => HotReloadAction::Reload(url),
            _ => HotReloadAction::Ignore,
        }),
{
    match message {
        WsMessage::AssetChanged { url } => HotReloadAction::Reload(url),
        _ => HotReloadAction::Ignore,
    }
}

} // verus!
