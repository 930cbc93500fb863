//! The wire contract: which request is which, and what each is answered with.

use crate::page::BOOTSTRAP_PAGE;
use crate::report::LocationData;
use crate::text::same_text;
use vstd::prelude::*;
use vstd::utf8::is_ascii_chars;

verus! {

/// The method of a request.
#[derive(Clone, Copy, Debug, PartialEq, Eq, Structural)]
pub enum Method {
    Get,
    Head,
    Post,
    Put,
    Delete,
    Connect,
    Options,
    Trace,
    Patch,
    /// Any method that is not one of the nine above.
    Other,
}

/// What a request asks for.
#[derive(Clone, Copy, Debug, PartialEq, Eq, Structural)]
pub enum Route {
    /// `GET /`: the bootstrap page.
    Page,
    /// `POST /update`: a location report.
    Update,
    /// `OPTIONS /update`: the preflight that a browser sends ahead of a
    /// cross-origin post.
    Preflight,
    /// Everything else.
    NotFound,
}

/// The loopback address and port that the listener is bound to.
pub const LISTEN_ADDRESS: &'static str = "127.0.0.1:3030";

/// Where the bootstrap page is served.
pub const ROOT_PATH: &'static str = "/";

/// Where reports are posted.
pub const UPDATE_PATH: &'static str = "/update";

/// The route of a request. A path is matched as a whole and to the letter: a
/// query string or a trailing slash makes it another path.
pub open spec fn route_of(method: Method, path: Seq<char>) -> Route {
    if method == Method::Get && path == ROOT_PATH@ {
        Route::Page
    } else if method == Method::Post && path == UPDATE_PATH@ {
        Route::Update
    } else if method == Method::Options && path == UPDATE_PATH@ {
        Route::Preflight
    } else {
        Route::NotFound
    }
}

/// Finds the route of a request.
pub fn route(method: Method, path: &str) -> (found: Route)
    ensures
        found == route_of(method, path@),
{
    match method {
        Method::Get => {
            if same_text(path, ROOT_PATH) {
                Route::Page
            } else {
                Route::NotFound
            }
        },
        Method::Post => {
            if same_text(path, UPDATE_PATH) {
                Route::Update
            } else {
                Route::NotFound
            }
        },
        Method::Options => {
            if same_text(path, UPDATE_PATH) {
                Route::Preflight
            } else {
                Route::NotFound
            }
        },
        _ => Route::NotFound,
    }
}

/// One header line of a reply.
#[derive(Clone, Copy, Debug, PartialEq, Eq)]
pub struct Header {
    pub name: &'static str,
    pub value: &'static str,
}

/// A header line as text.
pub struct HeaderView {
    pub name: Seq<char>,
    pub value: Seq<char>,
}

impl View for Header {
    type V = HeaderView;

    open spec fn view(&self) -> HeaderView {
        HeaderView { name: self.name@, value: self.value@ }
    }
}

/// What is sent back for one request.
///
/// `headers` are the lines that the handshake asks for, in the order in which
/// they are to be set. `body` is `None` where the reply carries no content at
/// all, which is not the same as carrying an empty text.
#[derive(Debug, PartialEq, Eq)]
pub struct Reply {
    pub status: u16,
    pub headers: Vec<Header>,
    pub body: Option<&'static str>,
}

/// A reply as numbers and text.
pub struct ReplyView {
    pub status: u16,
    pub headers: Seq<HeaderView>,
    pub body: Option<Seq<char>>,
}

impl View for Reply {
    type V = ReplyView;

    open spec fn view(&self) -> ReplyView {
        ReplyView {
            status: self.status,
            headers: self.headers@.map_values(|h: Header| h@),
            body: match self.body {
                Some(text) => Some(text@),
                None => None,
            },
        }
    }
}

/// The answer that a request gets.
#[derive(Clone, Copy, Debug, PartialEq, Eq, Structural)]
pub enum Answer {
    /// The bootstrap page.
    Page,
    /// The report was taken: it is the one held here.
    Accepted(LocationData),
    /// The posted body was not a report.
    Rejected,
    /// Leave to post from another origin.
    Preflight,
    /// Nothing is served for this method and path.
    NotFound,
}

/// A header line made of a name and a value.
pub open spec fn line(name: Seq<char>, value: Seq<char>) -> HeaderView {
    HeaderView { name, value }
}

/// What each answer looks like on the wire.
///
/// The reply to an accepted report does not depend on what was reported.
pub open spec fn reply_of(answer: Answer) -> ReplyView {
    match answer {
        Answer::Page => ReplyView {
            status: 200,
            headers: seq![line("Content-Type"@, "text/html; charset=utf-8"@)],
            body: Some(BOOTSTRAP_PAGE@),
        },
        Answer::Accepted(_) => ReplyView {
            status: 200,
            headers: seq![
                line("Content-Type"@, "application/json"@),
                line("Access-Control-Allow-Origin"@, "*"@),
            ],
            body: Some("{\"status\":\"ok\"}"@),
        },
        Answer::Rejected => ReplyView {
            status: 400,
            headers: seq![],
            body: Some("Invalid JSON"@),
        },
        Answer::Preflight => ReplyView {
            status: 200,
            headers: seq![
                line("Access-Control-Allow-Origin"@, "*"@),
                line("Access-Control-Allow-Methods"@, "POST, OPTIONS"@),
                line("Access-Control-Allow-Headers"@, "Content-Type"@),
            ],
            body: None,
        },
        Answer::NotFound => ReplyView { status: 404, headers: seq![], body: Some("Not Found"@) },
    }
}

impl Answer {
    /// Writes the answer out as status, headers and body.
    pub fn reply(&self) -> (reply: Reply)
        ensures
            reply@ == reply_of(*self),
    {
        let mut headers: Vec<Header> = Vec::new();
        let reply = match self {
            Answer::Page => {
                headers.push(Header { name: "Content-Type", value: "text/html; charset=utf-8" });
                Reply { status: 200, headers, body: Some(BOOTSTRAP_PAGE) }
            },
            Answer::Accepted(_) => {
                headers.push(Header { name: "Content-Type", value: "application/json" });
                headers.push(Header { name: "Access-Control-Allow-Origin", value: "*" });
                Reply { status: 200, headers, body: Some("{\"status\":\"ok\"}") }
            },
            Answer::Rejected => Reply { status: 400, headers, body: Some("Invalid JSON") },
            Answer::Preflight => {
                headers.push(Header { name: "Access-Control-Allow-Origin", value: "*" });
                headers.push(
                    Header { name: "Access-Control-Allow-Methods", value: "POST, OPTIONS" },
                );
                headers.push(
                    Header { name: "Access-Control-Allow-Headers", value: "Content-Type" },
                );
                Reply { status: 200, headers, body: None }
            },
            Answer::NotFound => Reply { status: 404, headers, body: Some("Not Found") },
        };
        assert(reply@.headers =~= reply_of(*self).headers);
        reply
    }
}

/// Every header line of every answer is plain ASCII, name and value, so it
/// can be set on a reply as it stands.
pub proof fn law_headers_are_ascii(answer: Answer, i: int)
    requires
        0 <= i < reply_of(answer).headers.len(),
    ensures
        is_ascii_chars(reply_of(answer).headers[i].name),
        is_ascii_chars(reply_of(answer).headers[i].value),
{
    reveal_strlit("Content-Type");
    reveal_strlit("text/html; charset=utf-8");
    reveal_strlit("application/json");
    reveal_strlit("Access-Control-Allow-Origin");
    reveal_strlit("*");
    reveal_strlit("Access-Control-Allow-Methods");
    reveal_strlit("POST, OPTIONS");
    reveal_strlit("Access-Control-Allow-Headers");
}

} // verus!
