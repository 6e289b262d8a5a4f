//! The record of a link as the backend keeps it: a JSON object with the
//! address under `redirectUrl` and the counter under `hits`.

use vstd::prelude::*;
use vstd::string::*;
use crate::json::{count_member, json_members, only, parse_document, string_member, write_document};
use crate::link::{LinkView, ShortLink};
use crate::machine::{Fetched, FetchedView};
use crate::text::text_view;

verus! {

/// The name of the member that holds the address.
pub open spec fn url_member() -> Seq<char> {
    "redirectUrl"@
}

/// The name of the member that holds the counter.
pub open spec fn hits_member() -> Seq<char> {
    "hits"@
}

/// The link that two members make: both must be there.
pub open spec fn link_from(url: Option<Seq<char>>, hits: Option<u64>) -> Option<LinkView> {
    match (url, hits) {
        (Some(redirect_url), Some(hits)) => Some(LinkView { redirect_url, hits }),
        _ => None,
    }
}

/// The link that a parsed text records: it must be a JSON document with a
/// string under `redirectUrl` and a count under `hits`.
pub open spec fn record_in(
    parsed: Option<(Map<Seq<char>, Seq<char>>, Map<Seq<char>, u64>)>,
) -> Option<LinkView> {
    match parsed {
        None => None,
        Some(members) => link_from(
            if members.0.contains_key(url_member()) {
                Some(members.0[url_member()])
            } else {
                None
            },
            if members.1.contains_key(hits_member()) {
                Some(members.1[hits_member()])
            } else {
                None
            },
        ),
    }
}

/// What a stored text stands for: a link, or something corrupt.
pub open spec fn decoded(text: Seq<char>) -> FetchedView {
    match record_in(json_members(text)) {
        Some(link) => FetchedView::Found(link),
        None => FetchedView::Corrupt,
    }
}

/// The view of an optional link.
pub open spec fn link_view(link: Option<ShortLink>) -> Option<LinkView> {
    match link {
        Some(link) => Some(link@),
        None => None,
    }
}

/// Makes a link of the two members read from a record.
pub fn link_of_members(url: Option<String>, hits: Option<u64>) -> (r: Option<ShortLink>)
    ensures
        link_view(r) == link_from(text_view(url), hits),
{
    match (url, hits) {
        (Some(redirect_url), Some(hits)) => Some(ShortLink { redirect_url, hits }),
        _ => None,
    }
}

/// Reads a link out of a stored text; `None` where the text is no record.
pub fn decode_record(text: &str) -> (r: Option<ShortLink>)
    ensures
        link_view(r) == record_in(json_members(text@)),
{
    match parse_document(text) {
        Ok(doc) => {
            let url = string_member(&doc, "redirectUrl");
            let hits = count_member(&doc, "hits");
            link_of_members(url, hits)
        },
        Err(_) => None,
    }
}

/// Writes the record of a link. What is written reads back as the same link.
pub fn encode_record(link: &ShortLink) -> (r: String)
    ensures
        json_members(r@) == Some(
            (only(url_member(), link@.redirect_url), only(hits_member(), link@.hits)),
        ),
        record_in(json_members(r@)) == Some(link@),
        decoded(r@) == FetchedView::Found(link@),
{
    proof {
        reveal_strlit("redirectUrl");
        reveal_strlit("hits");
        assert("redirectUrl"@.len() != "hits"@.len());
    }
    write_document("redirectUrl", link.redirect_url.as_str(), "hits", link.hits)
}

/// What the backend gave for a key, as the machine takes it: nothing, a
/// link, or a text that is no record.
pub fn fetched(stored: Option<&str>) -> (r: Fetched)
    ensures
        r@ == match stored {
            None => FetchedView::Absent,
            Some(text) => decoded(text@),
        },
{
    match stored {
        None => Fetched::Absent,
        Some(text) => match decode_record(text) {
            Some(link) => Fetched::Found(link),
            None => Fetched::Corrupt,
        },
    }
}

} // verus!
