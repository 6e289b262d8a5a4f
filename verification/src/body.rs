//! The body of a request that creates a link.

use vstd::prelude::*;
use vstd::string::*;
use crate::json::{json_members, parse_document, string_member};
use crate::text::text_view;

verus! {

/// Why a body does not describe a link to create.
#[derive(Debug, Clone, Copy, PartialEq, Eq, Structural)]
pub enum BodyError {
    /// The body is not a JSON document.
    InvalidJson,
    /// The slug or the address is missing, is no string, or is empty.
    MissingFields,
}

/// The link that a body asks for.
#[derive(Debug)]
pub struct CreateRequest {
    pub slug: String,
    pub url: String,
}

/// The two fields of a creation as mathematical values.
pub struct CreateView {
    pub slug: Seq<char>,
    pub url: Seq<char>,
}

impl View for CreateRequest {
    type V = CreateView;

    open spec fn view(&self) -> CreateView {
        CreateView { slug: self.slug@, url: self.url@ }
    }
}

/// A field that is absent counts as empty.
pub open spec fn or_empty(field: Option<Seq<char>>) -> Seq<char> {
    match field {
        Some(text) => text,
        None => Seq::empty(),
    }
}

/// The verdict on the two fields of a body: both must be present and not empty.
pub open spec fn fields_verdict(slug: Option<Seq<char>>, url: Option<Seq<char>>) -> Result<
    CreateView,
    BodyError,
> {
    if or_empty(slug).len() == 0 || or_empty(url).len() == 0 {
        Err(BodyError::MissingFields)
    } else {
        Ok(CreateView { slug: or_empty(slug), url: or_empty(url) })
    }
}

/// The member `name` of a document's string members, if there is one.
pub open spec fn member(members: Map<Seq<char>, Seq<char>>, name: Seq<char>) -> Option<Seq<char>> {
    if members.contains_key(name) {
        Some(members[name])
    } else {
        None
    }
}

/// The verdict on a body, given what the JSON parser makes of it.
pub open spec fn body_verdict(
    parsed: Option<(Map<Seq<char>, Seq<char>>, Map<Seq<char>, u64>)>,
) -> Result<CreateView, BodyError> {
    match parsed {
        None => Err(BodyError::InvalidJson),
        Some(members) => fields_verdict(member(members.0, "slug"@), member(members.0, "url"@)),
    }
}

/// A result of reading a body, as a mathematical value.
pub open spec fn verdict_view(r: Result<CreateRequest, BodyError>) -> Result<CreateView, BodyError> {
    match r {
        Ok(request) => Ok(request@),
        Err(error) => Err(error),
    }
}

/// Judges the two fields read from a body.
pub fn check_fields(slug: Option<String>, url: Option<String>) -> (r: Result<
    CreateRequest,
    BodyError,
>)
    ensures
        verdict_view(r) == fields_verdict(text_view(slug), text_view(url)),
{
    match (slug, url) {
        (Some(slug), Some(url)) => {
            if slug.as_str().is_empty() || url.as_str().is_empty() {
                Err(BodyError::MissingFields)
            } else {
                Ok(CreateRequest { slug, url })
            }
        },
        _ => Err(BodyError::MissingFields),
    }
}

/// Reads the link to create out of a request body.
pub fn parse_create_body(body: &str) -> (r: Result<CreateRequest, BodyError>)
    ensures
        verdict_view(r) == body_verdict(json_members(body@)),
{
    match parse_document(body) {
        Ok(doc) => {
            let slug = string_member(&doc, "slug");
            let url = string_member(&doc, "url");
            check_fields(slug, url)
        },
        Err(_) => Err(BodyError::InvalidJson),
    }
}

impl BodyError {
    /// The message that the client is given.
    pub fn message(&self) -> (r: String)
        ensures
            r@ == body_error_text(*self),
    {
        match self {
            BodyError::InvalidJson => String::from_str("Invalid JSON body"),
            BodyError::MissingFields => String::from_str(
                "Missing required fields: 'slug' and 'url' are required",
            ),
        }
    }
}

/// The message that goes with each error.
pub open spec fn body_error_text(error: BodyError) -> Seq<char> {
    match error {
        BodyError::InvalidJson => "Invalid JSON body"@,
        BodyError::MissingFields => "Missing required fields: 'slug' and 'url' are required"@,
    }
}

} // verus!
