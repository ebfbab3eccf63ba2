//! Replies sent back to the browser, and the pages that the game renders.
use vstd::prelude::*;
use vstd::string::StringExecFns;
use crate::messages::Messages;

verus! {

/// The status of a reply.
#[derive(Clone, Copy, Debug, PartialEq, Eq, Structural)]
pub enum Status {
    Success,
    BadRequest,
    InternalServerError,
}

/// A reply: its status, extra headers in order, and body.
pub struct Reply {
    pub status: Status,
    pub headers: Vec<(String, String)>,
    pub body: String,
}

/// The headers of a reply, each name and value taken by its characters.
pub open spec fn header_views(headers: Seq<(String, String)>) -> Seq<(Seq<char>, Seq<char>)> {
    headers.map_values(|h: (String, String)| (h.0@, h.1@))
}

/// `r` has the given status, headers and body.
pub open spec fn reply_is(
    r: Reply,
    status: Status,
    headers: Seq<(Seq<char>, Seq<char>)>,
    body: Seq<char>,
) -> bool {
    &&& r.status == status
    &&& header_views(r.headers@) == headers
    &&& r.body@ == body
}

/// The body of every reply to a failure on the server's side.
pub open spec fn server_error_text() -> Seq<char> {
    "500 Internal Server Error"@
}

/// A reply with no extra header.
pub fn plain_reply(status: Status, body: String) -> (r: Reply)
    ensures
        reply_is(r, status, Seq::empty(), body@),
{
    let r = Reply { status, headers: Vec::new(), body };
    assert(header_views(r.headers@) =~= Seq::empty());
    r
}

/// The reply to a failure on the server's side.
pub fn server_error() -> (r: Reply)
    ensures
        reply_is(r, Status::InternalServerError, Seq::empty(), server_error_text()),
{
    plain_reply(Status::InternalServerError, String::from_str("500 Internal Server Error"))
}

/// The reply to a rendered page: the page itself, or a server error where
/// rendering failed.
pub fn parse_render<E>(render: Result<String, E>) -> (r: Reply)
    ensures
        match render {
            Ok(page) => reply_is(r, Status::Success, Seq::empty(), page@),
            Err(_) => reply_is(r, Status::InternalServerError, Seq::empty(), server_error_text()),
        },
{
    match render {
        Ok(page) => plain_reply(Status::Success, page),
        Err(_) => server_error(),
    }
}

/// The reply to a request to switch language: a refresh of the page where
/// the language's texts could be read, else a bad request.
pub fn change_lang<E>(messages: Result<Messages, E>) -> (r: Reply)
    ensures
        messages is Ok ==> reply_is(r, Status::Success, seq![("HX-Refresh"@, "true"@)], Seq::empty()),
        messages is Err ==> reply_is(
            r,
            Status::BadRequest,
            Seq::empty(),
            "400 Bad Request. Language not supported."@,
        ),
{
    if messages.is_ok() {
        let mut headers: Vec<(String, String)> = Vec::new();
        headers.push((String::from_str("HX-Refresh"), String::from_str("true")));
        let r = Reply { status: Status::Success, headers, body: String::new() };
        assert(header_views(r.headers@) =~= seq![("HX-Refresh"@, "true"@)]);
        r
    } else {
        plain_reply(Status::BadRequest, String::from_str("400 Bad Request. Language not supported."))
    }
}

/// The language of the interface texts: the one chosen in the session, else
/// English.
pub fn template_language(lang: Option<String>) -> (l: String)
    ensures
        l@ == (match lang {
            Some(chosen) => chosen@,
            None => "en"@,
        }),
{
    match lang {
        Some(chosen) => chosen,
        None => String::from_str("en"),
    }
}

} // verus!
