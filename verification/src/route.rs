//! From method and path to the operation that a request asks for.

use vstd::prelude::*;
use vstd::string::*;
use crate::text::{has_prefix, same_text, strip_prefix};

verus! {

/// The method of a request, as far as the service tells methods apart.
#[derive(Debug, Clone, Copy, PartialEq, Eq, Structural)]
pub enum Method {
    Get,
    Post,
    Other,
}

/// The operation that a request asks for.
#[derive(Debug)]
pub enum Route {
    /// Send the client to the apex domain.
    Root,
    /// List the links of the host.
    List,
    /// Show one link and its counter.
    Stats { slug: String },
    /// Create a link from the body.
    Create,
    /// Follow a link.
    Resolve { slug: String },
    /// Nothing is served under this method and path.
    NotFound,
}

/// A route as a mathematical value.
pub enum RouteView {
    Root,
    List,
    Stats { slug: Seq<char> },
    Create,
    Resolve { slug: Seq<char> },
    NotFound,
}

impl View for Route {
    type V = RouteView;

    open spec fn view(&self) -> RouteView {
        match self {
            Route::Root => RouteView::Root,
            Route::List => RouteView::List,
            Route::Stats { slug } => RouteView::Stats { slug: slug@ },
            Route::Create => RouteView::Create,
            Route::Resolve { slug } => RouteView::Resolve { slug: slug@ },
            Route::NotFound => RouteView::NotFound,
        }
    }
}

/// What is left of `path` behind `prefix`.
pub open spec fn behind(path: Seq<char>, prefix: Seq<char>) -> Seq<char> {
    path.subrange(prefix.len() as int, path.len() as int)
}

/// The route of a request. The cases are tried in this order: the root, the
/// listing, the statistics of a slug, the creation, and at last any other GET,
/// whose slug is the path behind its leading slash.
pub open spec fn route_of(method: Method, path: Seq<char>) -> RouteView {
    if method == Method::Get && path == "/"@ {
        RouteView::Root
    } else if method == Method::Get && path == "/list"@ {
        RouteView::List
    } else if method == Method::Get && has_prefix(path, "/stats/"@) {
        RouteView::Stats { slug: behind(path, "/stats/"@) }
    } else if method == Method::Post && path == "/create"@ {
        RouteView::Create
    } else if method == Method::Get && has_prefix(path, "/"@) {
        RouteView::Resolve { slug: behind(path, "/"@) }
    } else {
        RouteView::NotFound
    }
}

/// The slugs that name operations of the service and never a link.
pub open spec fn reserved(slug: Seq<char>) -> bool {
    slug == "create"@ || slug == "stats"@ || slug == "list"@
}

/// Classifies a request by its method and path.
pub fn classify(method: Method, path: &str) -> (r: Route)
    ensures
        r@ == route_of(method, path@),
{
    match method {
        Method::Get => {
            if same_text(path, "/") {
                Route::Root
            } else if same_text(path, "/list") {
                Route::List
            } else {
                match strip_prefix(path, "/stats/") {
                    Some(slug) => Route::Stats { slug },
                    None => match strip_prefix(path, "/") {
                        Some(slug) => Route::Resolve { slug },
                        None => Route::NotFound,
                    },
                }
            }
        },
        Method::Post => {
            if same_text(path, "/create") {
                Route::Create
            } else {
                Route::NotFound
            }
        },
        Method::Other => Route::NotFound,
    }
}

/// Whether a slug is one of the reserved words.
pub fn is_reserved(slug: &str) -> (r: bool)
    ensures
        r == reserved(slug@),
{
    same_text(slug, "create") || same_text(slug, "stats") || same_text(slug, "list")
}

} // verus!
