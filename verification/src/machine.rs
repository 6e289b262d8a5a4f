//! The service as a machine: each request begins with a step, and every
//! outcome of the backend leads to the next, until an answer is due.
//!
//! A listing fails as a whole when one of its records cannot be read; a
//! record that has vanished since its key was listed is left out.

use vstd::prelude::*;
use vstd::string::*;
use crate::apex::{root_location, root_target};
use crate::body::{
    body_error_text, body_verdict, parse_create_body, verdict_view, BodyError, CreateRequest,
    CreateView,
};
use crate::json::json_members;
use crate::link::{
    fresh_link, key_of, list_prefix, prefix_of, slug_in, slug_of_key, storage_key, visited,
    LinkView, ShortLink,
};
use crate::response::{
    bad_request, created, entry_of, entry_views, no_such_link, not_found, server_error, EntryView,
    LinkEntry, Response, ResponseView,
};
use crate::route::{classify, is_reserved, reserved, route_of, Method, Route, RouteView};

verus! {

/// What the backend holds under a key.
#[derive(Debug)]
pub enum Fetched {
    /// Nothing.
    Absent,
    /// Something that is not a record of a link.
    Corrupt,
    /// A link.
    Found(ShortLink),
}

/// The outcome of a read as a mathematical value.
pub enum FetchedView {
    Absent,
    Corrupt,
    Found(LinkView),
}

impl View for Fetched {
    type V = FetchedView;

    open spec fn view(&self) -> FetchedView {
        match self {
            Fetched::Absent => FetchedView::Absent,
            Fetched::Corrupt => FetchedView::Corrupt,
            Fetched::Found(link) => FetchedView::Found(link@),
        }
    }
}

/// The views of a run of strings.
pub open spec fn texts(items: Seq<String>) -> Seq<Seq<char>> {
    items.map_values(|s: String| s@)
}

/// The views of a run of reads.
pub open spec fn fetched_views(items: Seq<Fetched>) -> Seq<FetchedView> {
    items.map_values(|f: Fetched| f@)
}

/// What the caller is to do next.
#[derive(Debug)]
pub enum Action {
    /// Send the answer; the request is done.
    Respond(Response),
    /// Read the record under `key`.
    Get { key: String },
    /// Read the record under each of `keys`, in this order.
    GetAll { keys: Vec<String> },
    /// Write `link` under `key`, over whatever stands there.
    Put { key: String, link: ShortLink },
    /// List the keys that begin with `prefix`.
    ListKeys { prefix: String },
}

/// An action as a mathematical value.
pub enum ActionView {
    Respond(ResponseView),
    Get { key: Seq<char> },
    GetAll { keys: Seq<Seq<char>> },
    Put { key: Seq<char>, link: LinkView },
    ListKeys { prefix: Seq<char> },
}

impl View for Action {
    type V = ActionView;

    open spec fn view(&self) -> ActionView {
        match self {
            Action::Respond(response) => ActionView::Respond(response@),
            Action::Get { key } => ActionView::Get { key: key@ },
            Action::GetAll { keys } => ActionView::GetAll { keys: texts(keys@) },
            Action::Put { key, link } => ActionView::Put { key: key@, link: link@ },
            Action::ListKeys { prefix } => ActionView::ListKeys { prefix: prefix@ },
        }
    }
}

/// What came of the last action.
#[derive(Debug)]
pub enum Event {
    /// The outcome of a `Get`.
    Record(Fetched),
    /// The outcomes of a `GetAll`, one for each key, in the order of the keys.
    Records(Vec<Fetched>),
    /// The keys that a `ListKeys` found, in the order of the backend.
    Keys(Vec<String>),
    /// A `Put` was carried out.
    Stored,
    /// The backend failed.
    Failed,
}

/// An event as a mathematical value.
pub enum EventView {
    Record(FetchedView),
    Records(Seq<FetchedView>),
    Keys(Seq<Seq<char>>),
    Stored,
    Failed,
}

impl View for Event {
    type V = EventView;

    open spec fn view(&self) -> EventView {
        match self {
            Event::Record(fetched) => EventView::Record(fetched@),
            Event::Records(records) => EventView::Records(fetched_views(records@)),
            Event::Keys(keys) => EventView::Keys(texts(keys@)),
            Event::Stored => EventView::Stored,
            Event::Failed => EventView::Failed,
        }
    }
}

/// Where a request stands between two actions.
#[derive(Debug)]
pub enum State {
    /// The answer was given.
    Done,
    /// The statistics of `slug` wait for its record.
    AwaitStats { slug: String },
    /// A listing of `host` waits for its keys.
    AwaitKeys { host: String },
    /// A listing of `host` waits for the records under `keys`.
    AwaitRecords { host: String, keys: Vec<String> },
    /// A creation waits for its write.
    AwaitCreated { short_url: String },
    /// A visit waits for the record under `key`.
    AwaitLink { key: String },
    /// A visit waits for the write of its counter.
    AwaitCounted { location: String },
}

/// A state as a mathematical value.
pub enum StateView {
    Done,
    AwaitStats { slug: Seq<char> },
    AwaitKeys { host: Seq<char> },
    AwaitRecords { host: Seq<char>, keys: Seq<Seq<char>> },
    AwaitCreated { short_url: Seq<char> },
    AwaitLink { key: Seq<char> },
    AwaitCounted { location: Seq<char> },
}

impl View for State {
    type V = StateView;

    open spec fn view(&self) -> StateView {
        match self {
            State::Done => StateView::Done,
            State::AwaitStats { slug } => StateView::AwaitStats { slug: slug@ },
            State::AwaitKeys { host } => StateView::AwaitKeys { host: host@ },
            State::AwaitRecords { host, keys } => StateView::AwaitRecords {
                host: host@,
                keys: texts(keys@),
            },
            State::AwaitCreated { short_url } => StateView::AwaitCreated { short_url: short_url@ },
            State::AwaitLink { key } => StateView::AwaitLink { key: key@ },
            State::AwaitCounted { location } => StateView::AwaitCounted { location: location@ },
        }
    }
}

/// One step: the state from now on and the action to carry out.
#[derive(Debug)]
pub struct Step {
    pub state: State,
    pub action: Action,
}

/// A step as a mathematical value.
pub struct StepView {
    pub state: StateView,
    pub action: ActionView,
}

impl View for Step {
    type V = StepView;

    open spec fn view(&self) -> StepView {
        StepView { state: self.state@, action: self.action@ }
    }
}

/// A request, as the transport hands it over.
#[derive(Debug)]
pub struct Request {
    pub method: Method,
    pub path: String,
    pub host: String,
    pub body: String,
}

/// The step that ends a request with an answer.
pub open spec fn answer(response: ResponseView) -> StepView {
    StepView { state: StateView::Done, action: ActionView::Respond(response) }
}

/// The public address of the link `slug` of `host`.
pub open spec fn short_url_of(host: Seq<char>, slug: Seq<char>) -> Seq<char> {
    "https://"@ + host + "/"@ + slug
}

/// The first step of a creation, given the verdict on its body: a refusal
/// with the verdict's message, or the write of a link without hits.
pub open spec fn create_first(host: Seq<char>, verdict: Result<CreateView, BodyError>) -> StepView {
    match verdict {
        Err(error) => answer(bad_request(body_error_text(error))),
        Ok(wanted) => StepView {
            state: StateView::AwaitCreated { short_url: short_url_of(host, wanted.slug) },
            action: ActionView::Put {
                key: key_of(host, wanted.slug),
                link: fresh_link(wanted.url),
            },
        },
    }
}

/// The first step of a request, given its route and the verdict on its body.
pub open spec fn first_step(
    route: RouteView,
    host: Seq<char>,
    verdict: Result<CreateView, BodyError>,
) -> StepView {
    match route {
        RouteView::Root => answer(ResponseView::Redirect { location: root_target(host) }),
        RouteView::List => StepView {
            state: StateView::AwaitKeys { host },
            action: ActionView::ListKeys { prefix: prefix_of(host) },
        },
        RouteView::Stats { slug } => StepView {
            state: StateView::AwaitStats { slug },
            action: ActionView::Get { key: key_of(host, slug) },
        },
        RouteView::Create => create_first(host, verdict),
        RouteView::Resolve { slug } => if reserved(slug) {
            answer(not_found())
        } else {
            StepView {
                state: StateView::AwaitLink { key: key_of(host, slug) },
                action: ActionView::Get { key: key_of(host, slug) },
            }
        },
        RouteView::NotFound => answer(not_found()),
    }
}

/// The entries of a listing of `host`, from the keys and what was read under
/// each: a key without a record is left out, the slug of every other is what
/// stands in its key behind the host's prefix, and the order is that of the
/// keys. `None` where a record is corrupt, or where keys and reads do not
/// pair up.
pub open spec fn listed(
    host: Seq<char>,
    keys: Seq<Seq<char>>,
    records: Seq<FetchedView>,
) -> Option<Seq<EntryView>>
    decreases records.len(),
{
    if keys.len() != records.len() {
        None
    } else if records.len() == 0 {
        Some(Seq::empty())
    } else {
        match (listed(host, keys.drop_last(), records.drop_last()), records.last()) {
            (Some(entries), FetchedView::Found(link)) => Some(
                entries.push(entry_of(slug_in(host, keys.last()), link)),
            ),
            (Some(entries), FetchedView::Absent) => Some(entries),
            _ => None,
        }
    }
}

/// The step that follows `event` in `state`. An event that the state does
/// not wait for, a failure of the backend and a corrupt record all end the
/// request with the answer 500.
pub open spec fn next_step(state: StateView, event: EventView) -> StepView {
    match (state, event) {
        (StateView::AwaitStats { slug }, EventView::Record(FetchedView::Found(link))) => answer(
            ResponseView::Link { entry: entry_of(slug, link) },
        ),
        (StateView::AwaitStats { .. }, EventView::Record(FetchedView::Absent)) => answer(
            no_such_link(),
        ),
        (StateView::AwaitKeys { host }, EventView::Keys(keys)) => StepView {
            state: StateView::AwaitRecords { host, keys },
            action: ActionView::GetAll { keys },
        },
        (StateView::AwaitRecords { host, keys }, EventView::Records(records)) => match listed(
            host,
            keys,
            records,
        ) {
            Some(entries) => answer(ResponseView::Links { entries }),
            None => answer(server_error()),
        },
        (StateView::AwaitCreated { short_url }, EventView::Stored) => answer(created(short_url)),
        (StateView::AwaitLink { key }, EventView::Record(FetchedView::Found(link))) => StepView {
            state: StateView::AwaitCounted { location: link.redirect_url },
            action: ActionView::Put { key, link: visited(link) },
        },
        (StateView::AwaitLink { .. }, EventView::Record(FetchedView::Absent)) => answer(
            no_such_link(),
        ),
        (StateView::AwaitCounted { location }, EventView::Stored) => answer(
            ResponseView::Redirect { location },
        ),
        _ => answer(server_error()),
    }
}

/// A listing that fails on some of its keys fails on all of them.
pub proof fn lemma_listed_fails_on(
    host: Seq<char>,
    keys: Seq<Seq<char>>,
    records: Seq<FetchedView>,
    n: int,
)
    requires
        keys.len() == records.len(),
        0 <= n <= records.len(),
        listed(host, keys.take(n), records.take(n)) is None,
    ensures
        listed(host, keys, records) is None,
    decreases records.len() - n,
{
    if n == records.len() {
        assert(keys.take(n) =~= keys);
        assert(records.take(n) =~= records);
    } else {
        assert(keys.take(n + 1).drop_last() =~= keys.take(n));
        assert(records.take(n + 1).drop_last() =~= records.take(n));
        lemma_listed_fails_on(host, keys, records, n + 1);
    }
}

/// Ends a request with `response`.
fn finish(response: Response) -> (r: Step)
    ensures
        r@ == answer(response@),
{
    Step { state: State::Done, action: Action::Respond(response) }
}

/// Builds the entries of a listing of `host` from the keys and what was read
/// under each.
pub fn list_entries(host: &str, keys: &Vec<String>, records: &Vec<Fetched>) -> (r: Option<
    Vec<LinkEntry>,
>)
    ensures
        match r {
            Some(entries) => listed(host@, texts(keys@), fetched_views(records@)) == Some(
                entry_views(entries@),
            ),
            None => listed(host@, texts(keys@), fetched_views(records@)) is None,
        },
{
    let n: usize = records.len();
    if keys.len() != n {
        return None;
    }
    let ghost ks = texts(keys@);
    let ghost rs = fetched_views(records@);
    let mut entries: Vec<LinkEntry> = Vec::new();
    let mut i: usize = 0;
    proof {
        assert(entry_views(entries@) =~= Seq::empty());
    }
    while i < n
        invariant
            n == records.len(),
            n == keys.len(),
            ks == texts(keys@),
            rs == fetched_views(records@),
            0 <= i <= n,
            listed(host@, ks.take(i as int), rs.take(i as int)) == Some(entry_views(entries@)),
        decreases n - i,
    {
        proof {
            assert(ks.take(i + 1).drop_last() =~= ks.take(i as int));
            assert(rs.take(i + 1).drop_last() =~= rs.take(i as int));
            assert(ks.take(i + 1).last() == keys@[i as int]@);
            assert(rs.take(i + 1).last() == records@[i as int]@);
        }
        match &records[i] {
            Fetched::Found(link) => {
                let ghost before = entries@;
                let entry = LinkEntry {
                    slug: slug_of_key(host, keys[i].as_str()),
                    redirect_url: link.redirect_url.clone(),
                    hits: link.hits,
                };
                entries.push(entry);
                proof {
                    assert(entry_views(entries@) =~= entry_views(before).push(
                        entry_of(slug_in(host@, keys@[i as int]@), link@),
                    ));
                }
            },
            Fetched::Absent => {},
            Fetched::Corrupt => {
                proof {
                    lemma_listed_fails_on(host@, ks, rs, i + 1);
                }
                return None;
            },
        }
        i += 1;
    }
    proof {
        assert(ks.take(n as int) =~= ks);
        assert(rs.take(n as int) =~= rs);
    }
    Some(entries)
}

/// The first step of a creation, given the verdict on its body.
pub fn create_step(host: &str, verdict: Result<CreateRequest, BodyError>) -> (r: Step)
    ensures
        r@ == create_first(host@, verdict_view(verdict)),
{
    match verdict {
        Err(error) => finish(Response::Error { status: 400, message: error.message() }),
        Ok(wanted) => {
            let key = storage_key(host, wanted.slug.as_str());
            let short_url = String::from_str("https://").concat(host).concat("/").concat(
                wanted.slug.as_str(),
            );
            Step {
                state: State::AwaitCreated { short_url },
                action: Action::Put { key, link: ShortLink::new(wanted.url.as_str()) },
            }
        },
    }
}

/// The first step of a request.
pub fn begin(request: &Request) -> (r: Step)
    ensures
        r@ == first_step(
            route_of(request.method, request.path@),
            request.host@,
            body_verdict(json_members(request.body@)),
        ),
{
    let host = request.host.as_str();
    match classify(request.method, request.path.as_str()) {
        Route::Root => finish(Response::Redirect { location: root_location(host) }),
        Route::List => Step {
            state: State::AwaitKeys { host: request.host.clone() },
            action: Action::ListKeys { prefix: list_prefix(host) },
        },
        Route::Stats { slug } => {
            let key = storage_key(host, slug.as_str());
            Step { state: State::AwaitStats { slug }, action: Action::Get { key } }
        },
        Route::Create => create_step(host, parse_create_body(request.body.as_str())),
        Route::Resolve { slug } => {
            if is_reserved(slug.as_str()) {
                finish(Response::not_found())
            } else {
                let key = storage_key(host, slug.as_str());
                let again = key.clone();
                Step { state: State::AwaitLink { key }, action: Action::Get { key: again } }
            }
        },
        Route::NotFound => finish(Response::not_found()),
    }
}

/// The step that follows an event.
pub fn advance(state: State, event: Event) -> (r: Step)
    ensures
        r@ == next_step(state@, event@),
{
    match state {
        State::AwaitStats { slug } => match event {
            Event::Record(Fetched::Found(link)) => finish(
                Response::Link {
                    entry: LinkEntry { slug, redirect_url: link.redirect_url, hits: link.hits },
                },
            ),
            Event::Record(Fetched::Absent) => finish(Response::no_such_link()),
            _ => finish(Response::server_error()),
        },
        State::AwaitKeys { host } => match event {
            Event::Keys(keys) => {
                let mut again: Vec<String> = Vec::new();
                let mut i: usize = 0;
                while i < keys.len()
                    invariant
                        0 <= i <= keys.len(),
                        texts(again@) == texts(keys@).take(i as int),
                    decreases keys.len() - i,
                {
                    let ghost before = again@;
                    again.push(keys[i].clone());
                    proof {
                        assert(texts(again@) =~= texts(before).push(keys@[i as int]@));
                        assert(texts(keys@).take(i + 1) =~= texts(keys@).take(i as int).push(
                            keys@[i as int]@,
                        ));
                    }
                    i += 1;
                }
                proof {
                    assert(texts(keys@).take(keys.len() as int) =~= texts(keys@));
                }
                Step {
                    state: State::AwaitRecords { host, keys },
                    action: Action::GetAll { keys: again },
                }
            },
            _ => finish(Response::server_error()),
        },
        State::AwaitRecords { host, keys } => match event {
            Event::Records(records) => match list_entries(host.as_str(), &keys, &records) {
                Some(entries) => finish(Response::Links { entries }),
                None => finish(Response::server_error()),
            },
            _ => finish(Response::server_error()),
        },
        State::AwaitCreated { short_url } => match event {
            Event::Stored => finish(
                Response::Created {
                    message: String::from_str("Short link created successfully"),
                    short_url,
                },
            ),
            _ => finish(Response::server_error()),
        },
        State::AwaitLink { key } => match event {
            Event::Record(Fetched::Found(link)) => {
                let location = link.redirect_url.clone();
                let mut counted = link;
                counted.record_hit();
                Step {
                    state: State::AwaitCounted { location },
                    action: Action::Put { key, link: counted },
                }
            },
            Event::Record(Fetched::Absent) => finish(Response::no_such_link()),
            _ => finish(Response::server_error()),
        },
        State::AwaitCounted { location } => match event {
            Event::Stored => finish(Response::Redirect { location }),
            _ => finish(Response::server_error()),
        },
        State::Done => finish(Response::server_error()),
    }
}

} // verus!
