//! What the service answers.

use vstd::prelude::*;
use vstd::string::*;
use crate::link::LinkView;

verus! {

/// One link as the listing and the statistics show it.
#[derive(Debug)]
pub struct LinkEntry {
    pub slug: String,
    pub redirect_url: String,
    pub hits: u64,
}

/// A shown link as a mathematical value.
pub struct EntryView {
    pub slug: Seq<char>,
    pub redirect_url: Seq<char>,
    pub hits: u64,
}

impl View for LinkEntry {
    type V = EntryView;

    open spec fn view(&self) -> EntryView {
        EntryView { slug: self.slug@, redirect_url: self.redirect_url@, hits: self.hits }
    }
}

/// The entry that shows `link` under `slug`.
pub open spec fn entry_of(slug: Seq<char>, link: LinkView) -> EntryView {
    EntryView { slug, redirect_url: link.redirect_url, hits: link.hits }
}

/// The views of a run of entries.
pub open spec fn entry_views(entries: Seq<LinkEntry>) -> Seq<EntryView> {
    entries.map_values(|e: LinkEntry| e@)
}

/// An answer to the client.
#[derive(Debug)]
pub enum Response {
    /// A redirect to `location`.
    Redirect { location: String },
    /// Success, with one link.
    Link { entry: LinkEntry },
    /// Success, with the links of a host.
    Links { entries: Vec<LinkEntry> },
    /// Success, with the address of the link just created.
    Created { message: String, short_url: String },
    /// A failure, with its status and a short message.
    Error { status: u16, message: String },
}

/// An answer as a mathematical value.
pub enum ResponseView {
    Redirect { location: Seq<char> },
    Link { entry: EntryView },
    Links { entries: Seq<EntryView> },
    Created { message: Seq<char>, short_url: Seq<char> },
    Error { status: u16, message: Seq<char> },
}

impl View for Response {
    type V = ResponseView;

    open spec fn view(&self) -> ResponseView {
        match self {
            Response::Redirect { location } => ResponseView::Redirect { location: location@ },
            Response::Link { entry } => ResponseView::Link { entry: entry@ },
            Response::Links { entries } => ResponseView::Links { entries: entry_views(entries@) },
            Response::Created { message, short_url } => ResponseView::Created {
                message: message@,
                short_url: short_url@,
            },
            Response::Error { status, message } => ResponseView::Error {
                status: *status,
                message: message@,
            },
        }
    }
}

/// The answer 404 for a method and path, or a reserved slug, that serves nothing.
pub open spec fn not_found() -> ResponseView {
    ResponseView::Error { status: 404, message: "Not Found"@ }
}

/// The answer 404 for a slug that the host has no link for.
pub open spec fn no_such_link() -> ResponseView {
    ResponseView::Error { status: 404, message: "Short link not found"@ }
}

/// The answer 500 for a failure of the backend or a record it cannot read.
pub open spec fn server_error() -> ResponseView {
    ResponseView::Error { status: 500, message: "Internal server error"@ }
}

/// The answer 400 with a message.
pub open spec fn bad_request(message: Seq<char>) -> ResponseView {
    ResponseView::Error { status: 400, message }
}

/// The answer to a creation that was stored.
pub open spec fn created(short_url: Seq<char>) -> ResponseView {
    ResponseView::Created { message: "Short link created successfully"@, short_url }
}

/// The status code of an answer: 302 for a redirect, 200 for a success, and
/// the failure's own.
pub open spec fn status_of(response: ResponseView) -> u16 {
    match response {
        ResponseView::Redirect { .. } => 302,
        ResponseView::Error { status, .. } => status,
        _ => 200,
    }
}

impl Response {
    /// The status code of the answer.
    pub fn status(&self) -> (r: u16)
        ensures
            r == status_of(self@),
    {
        match self {
            Response::Redirect { .. } => 302,
            Response::Error { status, .. } => *status,
            _ => 200,
        }
    }

    /// Builds the answer 404 "Not Found".
    pub fn not_found() -> (r: Response)
        ensures
            r@ == not_found(),
    {
        Response::Error { status: 404, message: String::from_str("Not Found") }
    }

    /// Builds the answer 404 "Short link not found".
    pub fn no_such_link() -> (r: Response)
        ensures
            r@ == no_such_link(),
    {
        Response::Error { status: 404, message: String::from_str("Short link not found") }
    }

    /// Builds the answer 500 "Internal server error".
    pub fn server_error() -> (r: Response)
        ensures
            r@ == server_error(),
    {
        Response::Error { status: 500, message: String::from_str("Internal server error") }
    }
}

} // verus!
