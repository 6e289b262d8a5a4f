//! What holds of the service when requests are served one after another by a
//! backend that keeps what it is given.

use vstd::prelude::*;
use crate::apex::root_target;
use crate::body::{body_error_text, fields_verdict, BodyError, CreateView};
use crate::link::{
    fresh_link, key_of, lemma_key_has_prefix, lemma_key_rebuilt, lemma_key_tells_slug,
    lemma_prefix_tells_host, lemma_slug_read_back, prefix_of, separator, slug_in, visited,
    LinkView,
};
use crate::machine::{
    first_step, listed, next_step, short_url_of, ActionView, EventView, FetchedView,
    StepView,
};
use crate::response::{
    bad_request, created, entry_of, no_such_link, not_found, server_error, status_of, EntryView,
    ResponseView,
};
use crate::route::{reserved, RouteView};
use crate::text::has_prefix;

verus! {

/// What a faithful backend holds under `key`.
pub open spec fn read(store: Map<Seq<char>, LinkView>, key: Seq<char>) -> FetchedView {
    if store.contains_key(key) {
        FetchedView::Found(store[key])
    } else {
        FetchedView::Absent
    }
}

/// What a faithful backend holds under each of `keys`.
pub open spec fn reads(store: Map<Seq<char>, LinkView>, keys: Seq<Seq<char>>) -> Seq<FetchedView> {
    Seq::new(keys.len(), |i: int| read(store, keys[i]))
}

/// The entries that show the records under `keys` in a listing of `host`.
pub open spec fn shown(
    store: Map<Seq<char>, LinkView>,
    host: Seq<char>,
    keys: Seq<Seq<char>>,
) -> Seq<EntryView> {
    Seq::new(keys.len(), |i: int| entry_of(slug_in(host, keys[i]), store[keys[i]]))
}

/// `order` names each key that the store holds under `prefix`, once.
pub open spec fn enumerates(
    order: Seq<Seq<char>>,
    store: Map<Seq<char>, LinkView>,
    prefix: Seq<char>,
) -> bool {
    &&& order.no_duplicates()
    &&& forall|k: Seq<char>| #[trigger]
        order.contains(k) <==> store.contains_key(k) && has_prefix(k, prefix)
}

/// A faithful backend carries out `action` on `store`: what it holds
/// afterwards and what it reports. It lists keys in the order `order`.
pub open spec fn carry_out(
    store: Map<Seq<char>, LinkView>,
    action: ActionView,
    order: Seq<Seq<char>>,
) -> (Map<Seq<char>, LinkView>, EventView) {
    match action {
        ActionView::Get { key } => (store, EventView::Record(read(store, key))),
        ActionView::GetAll { keys } => (store, EventView::Records(reads(store, keys))),
        ActionView::Put { key, link } => (store.insert(key, link), EventView::Stored),
        ActionView::ListKeys { .. } => (store, EventView::Keys(order)),
        ActionView::Respond(_) => (store, EventView::Failed),
    }
}

/// Runs a request from `step` to its answer against a faithful backend, for
/// at most `fuel` actions.
pub open spec fn run(
    store: Map<Seq<char>, LinkView>,
    step: StepView,
    order: Seq<Seq<char>>,
    fuel: nat,
) -> (Map<Seq<char>, LinkView>, ResponseView)
    decreases fuel,
{
    match step.action {
        ActionView::Respond(response) => (store, response),
        _ => if fuel == 0 {
            (store, server_error())
        } else {
            let done = carry_out(store, step.action, order);
            run(done.0, next_step(step.state, done.1), order, (fuel - 1) as nat)
        },
    }
}

/// Serves one request: the store afterwards and the answer. No request takes
/// more than two actions before its answer.
pub open spec fn serve(
    store: Map<Seq<char>, LinkView>,
    route: RouteView,
    host: Seq<char>,
    verdict: Result<CreateView, BodyError>,
    order: Seq<Seq<char>>,
) -> (Map<Seq<char>, LinkView>, ResponseView) {
    run(store, first_step(route, host, verdict), order, 2)
}

/// Serves the creation of the link `slug` to `url`.
pub open spec fn serve_create(
    store: Map<Seq<char>, LinkView>,
    host: Seq<char>,
    slug: Seq<char>,
    url: Seq<char>,
) -> (Map<Seq<char>, LinkView>, ResponseView) {
    serve(store, RouteView::Create, host, fields_verdict(Some(slug), Some(url)), Seq::empty())
}

/// Serves the statistics of `slug`.
pub open spec fn serve_stats(store: Map<Seq<char>, LinkView>, host: Seq<char>, slug: Seq<char>) -> (
    Map<Seq<char>, LinkView>,
    ResponseView,
) {
    serve(store, RouteView::Stats { slug }, host, Err(BodyError::InvalidJson), Seq::empty())
}

/// Serves a visit of `slug`.
pub open spec fn serve_visit(store: Map<Seq<char>, LinkView>, host: Seq<char>, slug: Seq<char>) -> (
    Map<Seq<char>, LinkView>,
    ResponseView,
) {
    serve(store, RouteView::Resolve { slug }, host, Err(BodyError::InvalidJson), Seq::empty())
}

/// Serves the listing of `host`, with the backend listing keys as `order`.
pub open spec fn serve_list(
    store: Map<Seq<char>, LinkView>,
    host: Seq<char>,
    order: Seq<Seq<char>>,
) -> (Map<Seq<char>, LinkView>, ResponseView) {
    serve(store, RouteView::List, host, Err(BodyError::InvalidJson), order)
}

/// A request for the root is redirected to the apex domain of its host and
/// never touches the store.
pub proof fn law_root_leaves_the_store(
    store: Map<Seq<char>, LinkView>,
    host: Seq<char>,
    verdict: Result<CreateView, BodyError>,
    order: Seq<Seq<char>>,
)
    ensures
        serve(store, RouteView::Root, host, verdict, order) == (
            store,
            ResponseView::Redirect { location: root_target(host) },
        ),
        first_step(RouteView::Root, host, verdict).action is Respond,
{
    reveal_with_fuel(run, 3);
}

/// A creation with a slug and an address that are not empty stores a link
/// without hits and answers with its public address; the statistics then show
/// that address and no hits.
pub proof fn law_created_link_is_shown(
    store: Map<Seq<char>, LinkView>,
    host: Seq<char>,
    slug: Seq<char>,
    url: Seq<char>,
)
    requires
        slug.len() > 0,
        url.len() > 0,
    ensures
        serve_create(store, host, slug, url) == (
            store.insert(key_of(host, slug), fresh_link(url)),
            created(short_url_of(host, slug)),
        ),
        serve_stats(serve_create(store, host, slug, url).0, host, slug) == (
            serve_create(store, host, slug, url).0,
            ResponseView::Link { entry: EntryView { slug, redirect_url: url, hits: 0 } },
        ),
{
    reveal_with_fuel(run, 3);
}

/// A creation whose slug or address is empty is refused with the status 400
/// and stores nothing.
pub proof fn law_empty_field_is_refused(
    store: Map<Seq<char>, LinkView>,
    host: Seq<char>,
    slug: Seq<char>,
    url: Seq<char>,
)
    requires
        slug.len() == 0 || url.len() == 0,
    ensures
        serve_create(store, host, slug, url) == (
            store,
            bad_request(body_error_text(BodyError::MissingFields)),
        ),
        status_of(serve_create(store, host, slug, url).1) == 400,
{
    reveal_with_fuel(run, 3);
}

/// Of two creations under one slug the second wins: the statistics show its
/// address, and no hits.
pub proof fn law_second_creation_wins(
    store: Map<Seq<char>, LinkView>,
    host: Seq<char>,
    slug: Seq<char>,
    first: Seq<char>,
    second: Seq<char>,
)
    requires
        slug.len() > 0,
        first.len() > 0,
        second.len() > 0,
    ensures
        serve_stats(
            serve_create(serve_create(store, host, slug, first).0, host, slug, second).0,
            host,
            slug,
        ).1 == (ResponseView::Link { entry: EntryView { slug, redirect_url: second, hits: 0 } }),
{
    law_created_link_is_shown(store, host, slug, first);
    law_created_link_is_shown(serve_create(store, host, slug, first).0, host, slug, second);
}

/// A visit of a link redirects to its address and counts exactly one hit,
/// which the statistics then show. The counter must have room for it.
pub proof fn law_visit_counts_once(
    store: Map<Seq<char>, LinkView>,
    host: Seq<char>,
    slug: Seq<char>,
)
    requires
        !reserved(slug),
        store.contains_key(key_of(host, slug)),
        store[key_of(host, slug)].hits < u64::MAX,
    ensures
        serve_visit(store, host, slug) == (
            store.insert(key_of(host, slug), visited(store[key_of(host, slug)])),
            ResponseView::Redirect { location: store[key_of(host, slug)].redirect_url },
        ),
        serve_visit(store, host, slug).0[key_of(host, slug)].hits == store[key_of(
            host,
            slug,
        )].hits + 1,
        serve_stats(serve_visit(store, host, slug).0, host, slug).1 == (ResponseView::Link {
            entry: EntryView {
                slug,
                redirect_url: store[key_of(host, slug)].redirect_url,
                hits: (store[key_of(host, slug)].hits + 1) as u64,
            },
        }),
{
    reveal_with_fuel(run, 3);
}

/// A visit of a slug that the host has no link for is answered with 404
/// "Short link not found" and changes nothing.
pub proof fn law_missing_link_is_not_found(
    store: Map<Seq<char>, LinkView>,
    host: Seq<char>,
    slug: Seq<char>,
)
    requires
        !reserved(slug),
        !store.contains_key(key_of(host, slug)),
    ensures
        serve_visit(store, host, slug) == (store, no_such_link()),
        status_of(no_such_link()) == 404,
{
    reveal_with_fuel(run, 3);
}

/// A visit of a reserved word is answered with 404 "Not Found", whatever the
/// store holds under its key, and changes nothing.
pub proof fn law_reserved_word_is_not_found(
    store: Map<Seq<char>, LinkView>,
    host: Seq<char>,
    slug: Seq<char>,
)
    requires
        reserved(slug),
    ensures
        serve_visit(store, host, slug) == (store, not_found()),
        status_of(not_found()) == 404,
{
    reveal_with_fuel(run, 3);
}

/// Only a creation writes a record anew, and only a visit touches a counter:
/// every other request leaves the store as it was, and a visit keeps every
/// key and address and lowers no counter.
pub proof fn law_counters_never_fall(
    store: Map<Seq<char>, LinkView>,
    route: RouteView,
    host: Seq<char>,
    verdict: Result<CreateView, BodyError>,
    order: Seq<Seq<char>>,
    key: Seq<char>,
)
    requires
        !(route is Create),
        store.contains_key(key),
    ensures
        !(route is Resolve) ==> serve(store, route, host, verdict, order).0 == store,
        serve(store, route, host, verdict, order).0.contains_key(key),
        serve(store, route, host, verdict, order).0[key].hits >= store[key].hits,
        serve(store, route, host, verdict, order).0[key].redirect_url == store[key].redirect_url,
{
    reveal_with_fuel(run, 3);
}

/// The keys under which the links `links` of `host` are stored, in their order.
pub open spec fn keys_of(host: Seq<char>, links: Seq<(Seq<char>, Seq<char>)>) -> Seq<Seq<char>> {
    Seq::new(links.len(), |i: int| key_of(host, links[i].0))
}

/// The store after one creation for each of `links`, a slug and an address
/// each, in their order.
pub open spec fn serve_creations(
    store: Map<Seq<char>, LinkView>,
    host: Seq<char>,
    links: Seq<(Seq<char>, Seq<char>)>,
) -> Map<Seq<char>, LinkView>
    decreases links.len(),
{
    if links.len() == 0 {
        store
    } else {
        serve_create(
            serve_creations(store, host, links.drop_last()),
            host,
            links.last().0,
            links.last().1,
        ).0
    }
}

/// Slugs and addresses that a creation accepts, with slugs that differ from
/// one another.
pub open spec fn distinct_links(links: Seq<(Seq<char>, Seq<char>)>) -> bool {
    &&& forall|i: int|
        0 <= i < links.len() ==> (#[trigger] links[i]).0.len() > 0 && links[i].1.len() > 0
    &&& forall|i: int, j: int|
        0 <= i < links.len() && 0 <= j < links.len() && i != j ==> (#[trigger] links[i]).0 != (
        #[trigger] links[j]).0
}

/// Where every key has its record, a listing of those keys shows each.
pub proof fn lemma_listed_of_present(
    store: Map<Seq<char>, LinkView>,
    host: Seq<char>,
    keys: Seq<Seq<char>>,
)
    requires
        forall|i: int| 0 <= i < keys.len() ==> store.contains_key(#[trigger] keys[i]),
    ensures
        listed(host, keys, reads(store, keys)) == Some(shown(store, host, keys)),
    decreases keys.len(),
{
    if keys.len() == 0 {
        assert(shown(store, host, keys) =~= Seq::empty());
    } else {
        let fewer = keys.drop_last();
        assert forall|i: int| 0 <= i < fewer.len() implies store.contains_key(
            #[trigger] fewer[i],
        ) by {
            assert(fewer[i] == keys[i]);
        }
        lemma_listed_of_present(store, host, fewer);
        assert(reads(store, keys).drop_last() =~= reads(store, fewer));
        assert(store.contains_key(keys[keys.len() - 1]));
        assert(shown(store, host, keys) =~= shown(store, host, fewer).push(
            entry_of(slug_in(host, keys.last()), store[keys.last()]),
        ));
    }
}

/// A listing shows one entry for each key that the store holds under the
/// host's prefix, in the order of the backend: the slug is the key without
/// that prefix, address and hits are those of the record. It changes nothing.
pub proof fn law_listing_shows_what_is_stored(
    store: Map<Seq<char>, LinkView>,
    host: Seq<char>,
    order: Seq<Seq<char>>,
)
    requires
        enumerates(order, store, prefix_of(host)),
    ensures
        serve_list(store, host, order) == (
            store,
            ResponseView::Links { entries: shown(store, host, order) },
        ),
        shown(store, host, order).len() == order.len(),
        forall|j: int|
            0 <= j < order.len() ==> order[j] == key_of(
                host,
                (#[trigger] shown(store, host, order)[j]).slug,
            ),
{
    reveal_with_fuel(run, 3);
    assert forall|i: int| 0 <= i < order.len() implies store.contains_key(#[trigger] order[i]) by {
        assert(order.contains(order[i]));
    }
    lemma_listed_of_present(store, host, order);
    assert forall|j: int| 0 <= j < order.len() implies order[j] == key_of(
        host,
        (#[trigger] shown(store, host, order)[j]).slug,
    ) by {
        assert(order.contains(order[j]));
        lemma_key_rebuilt(host, order[j]);
    }
}

/// Listing and statistics agree: the statistics of each listed slug show the
/// listed entry, and every slug that the host has a link for is listed at
/// exactly one place.
pub proof fn law_listing_and_stats_agree(
    store: Map<Seq<char>, LinkView>,
    host: Seq<char>,
    order: Seq<Seq<char>>,
)
    requires
        enumerates(order, store, prefix_of(host)),
    ensures
        forall|j: int|
            0 <= j < order.len() ==> serve_stats(
                store,
                host,
                (#[trigger] shown(store, host, order)[j]).slug,
            ) == (store, ResponseView::Link { entry: shown(store, host, order)[j] }),
        forall|slug: Seq<char>|
            store.contains_key(#[trigger] key_of(host, slug)) ==> exists|j: int|
                0 <= j < order.len() && (#[trigger] shown(store, host, order)[j]).slug == slug,
        forall|i: int, j: int|
            0 <= i < order.len() && 0 <= j < order.len() && (#[trigger] shown(
                store,
                host,
                order,
            )[i]).slug == (#[trigger] shown(store, host, order)[j]).slug ==> i == j,
{
    reveal_with_fuel(run, 3);
    law_listing_shows_what_is_stored(store, host, order);
    let entries = shown(store, host, order);
    assert forall|j: int| 0 <= j < order.len() implies serve_stats(
        store,
        host,
        (#[trigger] entries[j]).slug,
    ) == (store, ResponseView::Link { entry: entries[j] }) by {
        assert(order.contains(order[j]));
    }
    assert forall|slug: Seq<char>| store.contains_key(#[trigger] key_of(host, slug)) implies exists|
        j: int,
    |
        0 <= j < order.len() && (#[trigger] entries[j]).slug == slug by {
        lemma_key_has_prefix(host, slug);
        assert(order.contains(key_of(host, slug)));
        let j = choose|j: int| 0 <= j < order.len() && order[j] == key_of(host, slug);
        lemma_slug_read_back(host, slug);
        assert(entries[j].slug == slug);
    }
}

/// What the store holds after a run of creations: what it held before, and
/// under the key of each created link that link, without hits.
pub proof fn lemma_creations_are_stored(
    store: Map<Seq<char>, LinkView>,
    host: Seq<char>,
    links: Seq<(Seq<char>, Seq<char>)>,
)
    requires
        distinct_links(links),
    ensures
        forall|k: Seq<char>| #[trigger]
            serve_creations(store, host, links).contains_key(k) <==> store.contains_key(k)
                || keys_of(host, links).contains(k),
        forall|i: int|
            0 <= i < links.len() ==> serve_creations(store, host, links)[#[trigger] keys_of(
                host,
                links,
            )[i]] == fresh_link(links[i].1),
        keys_of(host, links).no_duplicates(),
    decreases links.len(),
{
    let keys = keys_of(host, links);
    if links.len() > 0 {
        let fewer = links.drop_last();
        let last = links.last();
        assert(last == links[links.len() - 1]);
        assert forall|i: int| 0 <= i < fewer.len() implies fewer[i] == links[i] by {}
        assert(distinct_links(fewer));
        lemma_creations_are_stored(store, host, fewer);
        let before = serve_creations(store, host, fewer);
        law_created_link_is_shown(before, host, last.0, last.1);
        let after = serve_creations(store, host, links);
        assert(after == before.insert(key_of(host, last.0), fresh_link(last.1)));
        assert(keys =~= keys_of(host, fewer).push(key_of(host, last.0)));
        assert forall|i: int| 0 <= i < fewer.len() implies keys[i] != key_of(host, last.0) by {
            if keys[i] == key_of(host, last.0) {
                lemma_key_tells_slug(host, links[i].0, last.0);
            }
        }
        assert forall|k: Seq<char>| #[trigger]
            after.contains_key(k) <==> store.contains_key(k) || keys.contains(k) by {
            if keys_of(host, fewer).contains(k) {
                let i = choose|i: int| 0 <= i < fewer.len() && keys_of(host, fewer)[i] == k;
                assert(keys[i] == k);
            }
            if keys.contains(k) {
                let i = choose|i: int| 0 <= i < keys.len() && keys[i] == k;
                if i < fewer.len() {
                    assert(keys_of(host, fewer)[i] == k);
                }
            }
            assert(keys[links.len() - 1] == key_of(host, last.0));
        }
        assert forall|i: int| 0 <= i < links.len() implies after[#[trigger] keys[i]] == fresh_link(
            links[i].1,
        ) by {
            if i < fewer.len() {
                assert(keys_of(host, fewer)[i] == keys[i]);
            }
        }
        assert forall|i: int, j: int| 0 <= i < keys.len() && 0 <= j < keys.len() && i
            != j implies keys[i] != keys[j] by {
            if keys[i] == keys[j] {
                lemma_key_tells_slug(host, links[i].0, links[j].0);
            }
        }
    }
}

/// After one creation for each of `links` under a host that had no link, the
/// listing of that host has exactly as many entries as links were created,
/// each entry shows one of them without hits, and each of them is shown.
pub proof fn law_listing_after_creations(
    store: Map<Seq<char>, LinkView>,
    host: Seq<char>,
    links: Seq<(Seq<char>, Seq<char>)>,
    order: Seq<Seq<char>>,
)
    requires
        distinct_links(links),
        forall|k: Seq<char>| store.contains_key(k) ==> !has_prefix(k, prefix_of(host)),
        enumerates(order, serve_creations(store, host, links), prefix_of(host)),
    ensures
        serve_list(serve_creations(store, host, links), host, order).1 == (ResponseView::Links {
            entries: shown(serve_creations(store, host, links), host, order),
        }),
        shown(serve_creations(store, host, links), host, order).len() == links.len(),
        forall|j: int|
            0 <= j < order.len() ==> exists|i: int|
                0 <= i < links.len() && #[trigger] shown(
                    serve_creations(store, host, links),
                    host,
                    order,
                )[j] == entry_of(#[trigger] links[i].0, fresh_link(links[i].1)),
        forall|i: int|
            0 <= i < links.len() ==> exists|j: int|
                0 <= j < order.len() && #[trigger] shown(
                    serve_creations(store, host, links),
                    host,
                    order,
                )[j] == entry_of(#[trigger] links[i].0, fresh_link(links[i].1)),
{
    let after = serve_creations(store, host, links);
    let keys = keys_of(host, links);
    let entries = shown(after, host, order);
    law_listing_shows_what_is_stored(after, host, order);
    lemma_creations_are_stored(store, host, links);
    assert forall|k: Seq<char>| order.contains(k) <==> keys.contains(k) by {
        if keys.contains(k) {
            let i = choose|i: int| 0 <= i < keys.len() && keys[i] == k;
            lemma_key_has_prefix(host, links[i].0);
        }
    }
    assert(order.to_set() =~= keys.to_set());
    order.unique_seq_to_set();
    keys.unique_seq_to_set();
    assert forall|j: int| 0 <= j < order.len() implies exists|i: int|
        0 <= i < links.len() && #[trigger] entries[j] == entry_of(
            #[trigger] links[i].0,
            fresh_link(links[i].1),
        ) by {
        assert(order.contains(order[j]));
        let i = choose|i: int| 0 <= i < keys.len() && keys[i] == order[j];
        lemma_slug_read_back(host, links[i].0);
        assert(entries[j] == entry_of(links[i].0, fresh_link(links[i].1)));
    }
    assert forall|i: int| 0 <= i < links.len() implies exists|j: int|
        0 <= j < order.len() && #[trigger] entries[j] == entry_of(
            #[trigger] links[i].0,
            fresh_link(links[i].1),
        ) by {
        assert(keys.contains(keys[i]));
        let j = choose|j: int| 0 <= j < order.len() && order[j] == keys[i];
        lemma_slug_read_back(host, links[i].0);
        assert(entries[j] == entry_of(links[i].0, fresh_link(links[i].1)));
    }
}

/// A request that may write: the creation of a link, or a visit of one.
pub enum Change {
    Create { slug: Seq<char>, url: Seq<char> },
    Visit { slug: Seq<char> },
}

impl Change {
    /// The slug that the change is about.
    pub open spec fn slug(self) -> Seq<char> {
        match self {
            Change::Create { slug, .. } => slug,
            Change::Visit { slug } => slug,
        }
    }
}

/// The store after `change` was served under `host`.
pub open spec fn serve_change(
    store: Map<Seq<char>, LinkView>,
    host: Seq<char>,
    change: Change,
) -> Map<Seq<char>, LinkView> {
    match change {
        Change::Create { slug, url } => serve_create(store, host, slug, url).0,
        Change::Visit { slug } => serve_visit(store, host, slug).0,
    }
}

/// The store after each of `changes` was served under `host`, in their order.
pub open spec fn serve_changes(
    store: Map<Seq<char>, LinkView>,
    host: Seq<char>,
    changes: Seq<Change>,
) -> Map<Seq<char>, LinkView>
    decreases changes.len(),
{
    if changes.len() == 0 {
        store
    } else {
        serve_change(serve_changes(store, host, changes.drop_last()), host, changes.last())
    }
}

/// A creation or a visit under one host changes nothing for another whose
/// prefix the written key does not begin with: the other host's keys and its
/// listing stay as they were.
pub proof fn law_change_leaves_other_host(
    store: Map<Seq<char>, LinkView>,
    host: Seq<char>,
    other: Seq<char>,
    change: Change,
    order: Seq<Seq<char>>,
)
    requires
        !has_prefix(key_of(host, change.slug()), prefix_of(other)),
        enumerates(order, store, prefix_of(other)),
    ensures
        enumerates(order, serve_change(store, host, change), prefix_of(other)),
        serve_list(serve_change(store, host, change), other, order).1 == serve_list(
            store,
            other,
            order,
        ).1,
{
    reveal_with_fuel(run, 3);
    let after = serve_change(store, host, change);
    assert(after == store || exists|link: LinkView|
        after == store.insert(key_of(host, change.slug()), link));
    assert(enumerates(order, after, prefix_of(other)));
    law_listing_shows_what_is_stored(store, other, order);
    law_listing_shows_what_is_stored(after, other, order);
    assert forall|i: int| 0 <= i < order.len() implies shown(after, other, order)[i] == shown(
        store,
        other,
        order,
    )[i] by {
        assert(order.contains(order[i]));
    }
    assert(shown(after, other, order) =~= shown(store, other, order));
}

/// Namespace isolation: whatever creations and visits are served under one
/// host, the listing of another stays as it was, as long as no key written
/// begins with the other host's prefix.
pub proof fn law_other_hosts_are_untouched(
    store: Map<Seq<char>, LinkView>,
    host: Seq<char>,
    other: Seq<char>,
    changes: Seq<Change>,
    order: Seq<Seq<char>>,
)
    requires
        forall|i: int|
            0 <= i < changes.len() ==> !has_prefix(
                key_of(host, (#[trigger] changes[i]).slug()),
                prefix_of(other),
            ),
        enumerates(order, store, prefix_of(other)),
    ensures
        enumerates(order, serve_changes(store, host, changes), prefix_of(other)),
        serve_list(serve_changes(store, host, changes), other, order).1 == serve_list(
            store,
            other,
            order,
        ).1,
    decreases changes.len(),
{
    if changes.len() > 0 {
        let fewer = changes.drop_last();
        assert forall|i: int| 0 <= i < fewer.len() implies !has_prefix(
            key_of(host, (#[trigger] fewer[i]).slug()),
            prefix_of(other),
        ) by {
            assert(fewer[i] == changes[i]);
        }
        law_other_hosts_are_untouched(store, host, other, fewer, order);
        assert(changes.last() == changes[changes.len() - 1]);
        law_change_leaves_other_host(
            serve_changes(store, host, fewer),
            host,
            other,
            changes.last(),
            order,
        );
    }
}

/// Two different hosts that hold no separator are always apart: whatever is
/// created or visited under one, the listing of the other stays as it was.
pub proof fn law_plain_hosts_are_apart(
    store: Map<Seq<char>, LinkView>,
    host: Seq<char>,
    other: Seq<char>,
    changes: Seq<Change>,
    order: Seq<Seq<char>>,
)
    requires
        !host.contains(separator()),
        !other.contains(separator()),
        host != other,
        enumerates(order, store, prefix_of(other)),
    ensures
        enumerates(order, serve_changes(store, host, changes), prefix_of(other)),
        serve_list(serve_changes(store, host, changes), other, order).1 == serve_list(
            store,
            other,
            order,
        ).1,
{
    assert forall|i: int| 0 <= i < changes.len() implies !has_prefix(
        key_of(host, (#[trigger] changes[i]).slug()),
        prefix_of(other),
    ) by {
        if has_prefix(key_of(host, changes[i].slug()), prefix_of(other)) {
            lemma_prefix_tells_host(other, host, changes[i].slug());
        }
    }
    law_other_hosts_are_untouched(store, host, other, changes, order);
}

/// Every request is answered after two actions at most, whatever the
/// backend reports, and a step holds an answer exactly when its state is the
/// final one.
pub proof fn law_two_actions_suffice(
    route: RouteView,
    host: Seq<char>,
    verdict: Result<CreateView, BodyError>,
    first: EventView,
    second: EventView,
)
    ensures
        ({
            let begun = first_step(route, host, verdict);
            let then = next_step(begun.state, first);
            let last = next_step(then.state, second);
            &&& begun.action is Respond || then.action is Respond || last.action is Respond
            &&& begun.action is Respond <==> begun.state is Done
            &&& then.action is Respond <==> then.state is Done
            &&& last.action is Respond <==> last.state is Done
        }),
{
}

} // verus!
