//! Decisions of the development server: which file answers a request, with
//! which content type, and what the notification socket replies.

use crate::text::{begins_with, decimal, decimal_text, same_text, strip_prefix};
use vstd::prelude::*;

verus! {

/// Where the answer to a request is found.
#[derive(Debug)]
pub enum Route {
    /// The file at this path.
    File(String),
    /// The file at the path `rel` under the directory `base`, joined as
    /// paths are.
    Under { base: String, rel: String },
    /// Nowhere: the request is answered with `404 Not Found`.
    NotFound,
}

/// A [`Route`] with its texts as runs of characters.
pub enum RouteView {
    File(Seq<char>),
    Under { base: Seq<char>, rel: Seq<char> },
    NotFound,
}

impl View for Route {
    type V = RouteView;

    open spec fn view(&self) -> RouteView {
        match *self {
            Route::File(path) => RouteView::File(path@),
            Route::Under { base, rel } => RouteView::Under { base: base@, rel: rel@ },
            Route::NotFound => RouteView::NotFound,
        }
    }
}

/// Where the answer to a request is found.
///
/// A `GET` of `/` is answered with the page of the editor, and a `GET` of
/// `/favicon.ico` with its icon. Whatever the method, an address under
/// `/static/` is served from `web/static`, one under `/assets/` from
/// `assets`, and one under `/pkg/` from `web/engine-npm/dist`, each without
/// that prefix. Every other request finds nothing.
pub open spec fn routed(is_get: bool, url: Seq<char>) -> RouteView {
    if is_get && url == "/"@ {
        RouteView::File("apps/editor_web/index.html"@)
    } else if is_get && url == "/favicon.ico"@ {
        RouteView::File("apps/editor_web/favicon.ico"@)
    } else if begins_with(url, "/static/"@) {
        RouteView::Under { base: "web/static"@, rel: url.skip("/static/"@.len() as int) }
    } else if begins_with(url, "/assets/"@) {
        RouteView::Under { base: "assets"@, rel: url.skip("/assets/"@.len() as int) }
    } else if begins_with(url, "/pkg/"@) {
        RouteView::Under { base: "web/engine-npm/dist"@, rel: url.skip("/pkg/"@.len() as int) }
    } else {
        RouteView::NotFound
    }
}

/// Finds the file that answers a request.
pub fn route(is_get: bool, url: &str) -> (r: Route)
    ensures
        r@ == routed(is_get, url@),
{
    if is_get && same_text(url, "/") {
        return Route::File("apps/editor_web/index.html".to_owned());
    }
    if is_get && same_text(url, "/favicon.ico") {
        return Route::File("apps/editor_web/favicon.ico".to_owned());
    }
    match strip_prefix(url, "/static/") {
        Some(rel) => {
            return Route::Under { base: "web/static".to_owned(), rel: rel.to_owned() };
        },
        None => {},
    }
    match strip_prefix(url, "/assets/") {
        Some(rel) => {
            return Route::Under { base: "assets".to_owned(), rel: rel.to_owned() };
        },
        None => {},
    }
    match strip_prefix(url, "/pkg/") {
        Some(rel) => {
            return Route::Under { base: "web/engine-npm/dist".to_owned(), rel: rel.to_owned() };
        },
        None => {},
    }
    Route::NotFound
}

/// The header that names the content type of a file with the given
/// extension, for the extensions that the server knows.
pub open spec fn content_type_of(ext: Seq<char>) -> Option<Seq<char>> {
    if ext == "css"@ {
        Some("Content-Type: text/css"@)
    } else if ext == "js"@ {
        Some("Content-Type: application/javascript"@)
    } else if ext == "wasm"@ {
        Some("Content-Type: application/wasm"@)
    } else if ext == "html"@ {
        Some("Content-Type: text/html; charset=utf-8"@)
    } else if ext == "json"@ {
        Some("Content-Type: application/json"@)
    } else if ext == "ron"@ {
        Some("Content-Type: text/plain; charset=utf-8"@)
    } else {
        None
    }
}

/// Picks the header that names the content type of a file by its
/// extension. A file of unknown kind is served without one.
pub fn content_type_for(ext: &str) -> (r: Option<&'static str>)
    ensures
        r is Some <==> content_type_of(ext@) is Some,
        r matches Some(header) ==> Some(header@) == content_type_of(ext@),
{
    if same_text(ext, "css") {
        Some("Content-Type: text/css")
    } else if same_text(ext, "js") {
        Some("Content-Type: application/javascript")
    } else if same_text(ext, "wasm") {
        Some("Content-Type: application/wasm")
    } else if same_text(ext, "html") {
        Some("Content-Type: text/html; charset=utf-8")
    } else if same_text(ext, "json") {
        Some("Content-Type: application/json")
    } else if same_text(ext, "ron") {
        Some("Content-Type: text/plain; charset=utf-8")
    } else {
        None
    }
}

/// The address on which the notification socket listens, for a development
/// server on `port`: this machine, on the port after it.
pub fn ws_address(port: u16) -> (r: String)
    requires
        port < u16::MAX,
    ensures
        r@ == "127.0.0.1:"@ + decimal_text((port + 1) as nat),
{
    let mut address = "127.0.0.1:".to_owned();
    address.append(decimal(port + 1).as_str());
    address
}

/// The kinds of message that a notification socket receives.
#[derive(Clone, Copy, Debug, PartialEq, Eq, Structural)]
pub enum WsFrame {
    Text,
    Binary,
    Ping,
    Pong,
    Close,
    /// A raw frame.
    Frame,
}

/// What the notification socket does with a message.
#[derive(Clone, Copy, Debug, PartialEq, Eq, Structural)]
pub enum WsReply {
    /// Send the message back. Where that fails, the connection ends.
    Echo,
    /// Answer with a pong that carries what the ping carried.
    Pong,
    /// Send nothing.
    Nothing,
    /// Send the close back and end the connection.
    CloseAndStop,
}

/// Decides what the notification socket does with a message: text and
/// binary messages are echoed, a ping is answered, a close is answered and
/// ends the connection, and everything else is passed over.
pub fn ws_reply(frame: WsFrame) -> (r: WsReply)
    ensures
        r == (match frame {
            WsFrame::Text => WsReply::Echo,
            WsFrame::Binary => WsReply::Echo,
            WsFrame::Ping => WsReply::Pong,
            WsFrame::Pong => WsReply::Nothing,
            WsFrame::Close => WsReply::CloseAndStop,
            WsFrame::Frame => WsReply::Nothing,
        }),
{
    match frame {
        WsFrame::Text => WsReply::Echo,
        WsFrame::Binary => WsReply::Echo,
        WsFrame::Ping => WsReply::Pong,
        WsFrame::Pong => WsReply::Nothing,
        WsFrame::Close => WsReply::CloseAndStop,
        WsFrame::Frame => WsReply::Nothing,
    }
}

} // verus!
