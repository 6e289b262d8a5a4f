use std::collections::BTreeMap;

use shortlink::body::{check_fields, parse_create_body, BodyError};
use shortlink::link::ShortLink;
use shortlink::machine::{
    advance, begin, create_step, list_entries, Action, Event, Fetched, Request, State,
};
use shortlink::record::{decode_record, encode_record, fetched, link_of_members};
use shortlink::response::{LinkEntry, Response};
use shortlink::route::Method;

fn request(method: Method, host: &str, path: &str, body: &str) -> Request {
    Request {
        method,
        path: String::from(path),
        host: String::from(host),
        body: String::from(body),
    }
}

fn serve(store: &mut BTreeMap<String, String>, request: Request) -> Response {
    let mut step = begin(&request);
    loop {
        let event = match step.action {
            Action::Respond(response) => return response,
            Action::Get { key } => Event::Record(fetched(store.get(&key).map(|t| t.as_str()))),
            Action::GetAll { keys } => Event::Records(
                keys.iter().map(|k| fetched(store.get(k).map(|t| t.as_str()))).collect(),
            ),
            Action::Put { key, link } => {
                store.insert(key, encode_record(&link));
                Event::Stored
            }
            Action::ListKeys { prefix } => {
                Event::Keys(store.keys().filter(|k| k.starts_with(&prefix)).cloned().collect())
            }
        };
        step = advance(step.state, event);
    }
}

fn create(store: &mut BTreeMap<String, String>, host: &str, slug: &str, url: &str) -> Response {
    let mut members = serde_json::Map::new();
    members.insert(String::from("slug"), serde_json::Value::from(slug));
    members.insert(String::from("url"), serde_json::Value::from(url));
    let body = serde_json::Value::Object(members).to_string();
    serve(store, request(Method::Post, host, "/create", &body))
}

fn stats(store: &mut BTreeMap<String, String>, host: &str, slug: &str) -> Response {
    serve(store, request(Method::Get, host, &format!("/stats/{}", slug), ""))
}

fn visit(store: &mut BTreeMap<String, String>, host: &str, slug: &str) -> Response {
    serve(store, request(Method::Get, host, &format!("/{}", slug), ""))
}

fn list(store: &mut BTreeMap<String, String>, host: &str) -> Vec<LinkEntry> {
    match serve(store, request(Method::Get, host, "/list", "")) {
        Response::Links { entries } => entries,
        other => panic!("unexpected answer {:?}", other),
    }
}

fn expect_entry(response: Response, slug: &str, url: &str, hits: u64) {
    assert_eq!(response.status(), 200);
    match response {
        Response::Link { entry } => {
            assert_eq!(entry.slug, slug);
            assert_eq!(entry.redirect_url, url);
            assert_eq!(entry.hits, hits);
        }
        other => panic!("unexpected answer {:?}", other),
    }
}

fn expect_error(response: Response, status: u16, message: &str) {
    assert_eq!(response.status(), status);
    match response {
        Response::Error { status: s, message: m } => {
            assert_eq!(s, status);
            assert_eq!(m, message);
        }
        other => panic!("unexpected answer {:?}", other),
    }
}

fn expect_redirect(response: Response, location: &str) {
    assert_eq!(response.status(), 302);
    match response {
        Response::Redirect { location: l } => assert_eq!(l, location),
        other => panic!("unexpected answer {:?}", other),
    }
}

#[test]
fn created_link_shows_its_address_and_no_hits() {
    let mut store = BTreeMap::new();
    let answer = create(&mut store, "h.test", "s", "https://a.test/x");
    assert_eq!(answer.status(), 200);
    expect_entry(stats(&mut store, "h.test", "s"), "s", "https://a.test/x", 0);
}

#[test]
fn visit_counts_exactly_one_hit() {
    let mut store = BTreeMap::new();
    create(&mut store, "h.test", "s", "https://a.test/x");
    expect_redirect(visit(&mut store, "h.test", "s"), "https://a.test/x");
    expect_entry(stats(&mut store, "h.test", "s"), "s", "https://a.test/x", 1);
    expect_redirect(visit(&mut store, "h.test", "s"), "https://a.test/x");
    expect_redirect(visit(&mut store, "h.test", "s"), "https://a.test/x");
    expect_entry(stats(&mut store, "h.test", "s"), "s", "https://a.test/x", 3);
}

#[test]
fn visit_at_the_largest_count_still_redirects() {
    let mut store = BTreeMap::new();
    let full = ShortLink { redirect_url: String::from("https://a.test"), hits: u64::MAX };
    store.insert(String::from("h:s"), encode_record(&full));
    expect_redirect(visit(&mut store, "h", "s"), "https://a.test");
    expect_entry(stats(&mut store, "h", "s"), "s", "https://a.test", u64::MAX);
}

#[test]
fn listing_shows_each_created_link_of_the_host() {
    let mut store = BTreeMap::new();
    create(&mut store, "h.test", "one", "https://a.test/1");
    create(&mut store, "h.test", "two", "https://a.test/2");
    create(&mut store, "h.test", "three", "https://a.test/3");
    create(&mut store, "other.test", "one", "https://b.test/1");
    let entries = list(&mut store, "h.test");
    assert_eq!(entries.len(), 3);
    for (slug, url) in [("one", "https://a.test/1"), ("two", "https://a.test/2"), ("three", "https://a.test/3")] {
        let found: Vec<&LinkEntry> = entries.iter().filter(|e| e.slug == slug).collect();
        assert_eq!(found.len(), 1);
        assert_eq!(found[0].redirect_url, url);
        assert_eq!(found[0].hits, 0);
    }
    let others = list(&mut store, "other.test");
    assert_eq!(others.len(), 1);
    assert_eq!(others[0].slug, "one");
    assert_eq!(others[0].redirect_url, "https://b.test/1");
}

#[test]
fn listing_of_a_host_with_a_port_shows_the_slug() {
    let mut store = BTreeMap::new();
    store.insert(
        String::from("localhost:8787:abc"),
        String::from("{\"redirectUrl\":\"https://target.test\",\"hits\":0}"),
    );
    let entries = list(&mut store, "localhost:8787");
    assert_eq!(entries.len(), 1);
    assert_eq!(entries[0].slug, "abc");
    assert_eq!(entries[0].redirect_url, "https://target.test");
    assert_eq!(entries[0].hits, 0);
    expect_entry(stats(&mut store, "localhost:8787", "abc"), "abc", "https://target.test", 0);
    expect_error(stats(&mut store, "localhost:8787", "8787"), 404, "Short link not found");
}

#[test]
fn listing_shows_a_slug_with_a_colon_whole() {
    let mut store = BTreeMap::new();
    create(&mut store, "h.test", "a:b", "https://a.test/1");
    let entries = list(&mut store, "h.test");
    assert_eq!(entries.len(), 1);
    assert_eq!(entries[0].slug, "a:b");
    expect_entry(stats(&mut store, "h.test", "a:b"), "a:b", "https://a.test/1", 0);
}

#[test]
fn listing_and_statistics_agree() {
    let mut store = BTreeMap::new();
    for (host, slug, url) in [
        ("localhost:8787", "one", "https://a.test/1"),
        ("localhost:8787", "two:2", "https://a.test/2"),
        ("localhost", "three", "https://a.test/3"),
    ] {
        create(&mut store, host, slug, url);
    }
    visit(&mut store, "localhost:8787", "one");
    for host in ["localhost:8787", "localhost"] {
        for entry in list(&mut store, host) {
            let slug = entry.slug.clone();
            expect_entry(stats(&mut store, host, &slug), &slug, &entry.redirect_url, entry.hits);
        }
    }
    assert_eq!(list(&mut store, "localhost:8787").len(), 2);
}

#[test]
fn visits_and_creations_leave_another_host_alone() {
    let mut store = BTreeMap::new();
    create(&mut store, "b.test:80", "s", "https://b.test/1");
    let before: Vec<(String, String, u64)> = list(&mut store, "b.test:80")
        .into_iter()
        .map(|e| (e.slug, e.redirect_url, e.hits))
        .collect();
    create(&mut store, "a.test:80", "s", "https://a.test/1");
    visit(&mut store, "a.test:80", "s");
    create(&mut store, "a.test:80", "t", "https://a.test/2");
    visit(&mut store, "a.test:80", "s");
    let after: Vec<(String, String, u64)> = list(&mut store, "b.test:80")
        .into_iter()
        .map(|e| (e.slug, e.redirect_url, e.hits))
        .collect();
    assert_eq!(before, after);
    assert_eq!(after, vec![(String::from("s"), String::from("https://b.test/1"), 0)]);
}

#[test]
fn hosts_that_share_a_prefix_share_keys() {
    let mut store = BTreeMap::new();
    create(&mut store, "a", "b:c", "https://a.test/1");
    let entries = list(&mut store, "a:b");
    assert_eq!(entries.len(), 1);
    assert_eq!(entries[0].slug, "c");
    expect_entry(stats(&mut store, "a:b", "c"), "c", "https://a.test/1", 0);
}

#[test]
fn listing_of_a_host_without_links_is_empty() {
    let mut store = BTreeMap::new();
    create(&mut store, "h.test", "one", "https://a.test/1");
    assert_eq!(list(&mut store, "nobody.test").len(), 0);
    let answer = serve(&mut store, request(Method::Get, "nobody.test", "/list", ""));
    assert_eq!(answer.status(), 200);
}

#[test]
fn creation_under_one_host_leaves_another_alone() {
    let mut store = BTreeMap::new();
    create(&mut store, "a.test", "s", "https://a.test/1");
    visit(&mut store, "a.test", "s");
    create(&mut store, "b.test", "s", "https://b.test/1");
    expect_entry(stats(&mut store, "a.test", "s"), "s", "https://a.test/1", 1);
    expect_entry(stats(&mut store, "b.test", "s"), "s", "https://b.test/1", 0);
    assert_eq!(list(&mut store, "a.test").len(), 1);
}

#[test]
fn hosts_are_told_apart_by_case() {
    let mut store = BTreeMap::new();
    create(&mut store, "a.test", "s", "https://a.test/1");
    expect_error(stats(&mut store, "A.test", "s"), 404, "Short link not found");
}

#[test]
fn creation_with_an_empty_field_is_refused() {
    let mut store = BTreeMap::new();
    let message = "Missing required fields: 'slug' and 'url' are required";
    expect_error(create(&mut store, "h", "", "https://a.test"), 400, message);
    expect_error(create(&mut store, "h", "s", ""), 400, message);
    expect_error(create(&mut store, "h", "", ""), 400, message);
    assert!(store.is_empty());
}

#[test]
fn creation_with_a_missing_or_wrong_field_is_refused() {
    let mut store = BTreeMap::new();
    let message = "Missing required fields: 'slug' and 'url' are required";
    for body in ["{}", "{\"slug\":\"s\"}", "{\"url\":\"u\"}", "{\"slug\":5,\"url\":\"u\"}", "{\"slug\":\"s\",\"url\":null}", "[]", "\"text\"", "7"] {
        expect_error(serve(&mut store, request(Method::Post, "h", "/create", body)), 400, message);
    }
    assert!(store.is_empty());
}

#[test]
fn creation_with_a_body_that_is_no_json_is_refused() {
    let mut store = BTreeMap::new();
    for body in ["", "{", "slug=s", "{\"slug\":\"s\",\"url\":\"u\"} trailing"] {
        expect_error(
            serve(&mut store, request(Method::Post, "h", "/create", body)),
            400,
            "Invalid JSON body",
        );
    }
    assert!(store.is_empty());
}

#[test]
fn second_creation_overwrites_the_first() {
    let mut store = BTreeMap::new();
    create(&mut store, "h", "s", "https://first.test");
    visit(&mut store, "h", "s");
    create(&mut store, "h", "s", "https://second.test");
    expect_entry(stats(&mut store, "h", "s"), "s", "https://second.test", 0);
    assert_eq!(list(&mut store, "h").len(), 1);
}

#[test]
fn visit_of_a_missing_slug_is_not_found() {
    let mut store = BTreeMap::new();
    expect_error(visit(&mut store, "h", "nothing"), 404, "Short link not found");
    expect_error(stats(&mut store, "h", "nothing"), 404, "Short link not found");
    assert!(store.is_empty());
}

#[test]
fn visit_of_a_reserved_word_is_not_found_even_with_a_record() {
    let mut store = BTreeMap::new();
    for word in ["create", "stats", "list"] {
        create(&mut store, "h", word, "https://a.test");
    }
    expect_error(visit(&mut store, "h", "create"), 404, "Not Found");
    expect_error(visit(&mut store, "h", "stats"), 404, "Not Found");
    expect_entry(stats(&mut store, "h", "create"), "create", "https://a.test", 0);
    expect_entry(stats(&mut store, "h", "stats"), "stats", "https://a.test", 0);
}

#[test]
fn get_list_is_the_listing_and_no_visit() {
    let mut store = BTreeMap::new();
    create(&mut store, "h", "list", "https://a.test");
    let entries = list(&mut store, "h");
    assert_eq!(entries.len(), 1);
    assert_eq!(entries[0].hits, 0);
}

#[test]
fn root_redirects_to_the_apex_domain() {
    let mut store = BTreeMap::new();
    expect_redirect(
        serve(&mut store, request(Method::Get, "sub.example.com", "/", "")),
        "https://example.com/",
    );
    expect_redirect(
        serve(&mut store, request(Method::Get, "localhost", "/", "")),
        "https://localhost/",
    );
    assert!(store.is_empty());
}

#[test]
fn unknown_method_or_path_is_not_found() {
    let mut store = BTreeMap::new();
    expect_error(serve(&mut store, request(Method::Post, "h", "/", "")), 404, "Not Found");
    expect_error(serve(&mut store, request(Method::Other, "h", "/abc", "")), 404, "Not Found");
    expect_error(serve(&mut store, request(Method::Post, "h", "/abc", "{}")), 404, "Not Found");
}

#[test]
fn create_then_visit_then_stats() {
    let mut store = BTreeMap::new();
    let answer = serve(
        &mut store,
        request(
            Method::Post,
            "go.example",
            "/create",
            "{\"slug\":\"abc\",\"url\":\"https://target.test\"}",
        ),
    );
    assert_eq!(answer.status(), 200);
    match answer {
        Response::Created { message, short_url } => {
            assert_eq!(short_url, "https://go.example/abc");
            assert_eq!(message, "Short link created successfully");
        }
        other => panic!("unexpected answer {:?}", other),
    }
    expect_redirect(visit(&mut store, "go.example", "abc"), "https://target.test");
    expect_entry(stats(&mut store, "go.example", "abc"), "abc", "https://target.test", 1);
}

#[test]
fn corrupt_record_is_a_server_error() {
    let mut store = BTreeMap::new();
    store.insert(String::from("h:bad"), String::from("not a record"));
    expect_error(stats(&mut store, "h", "bad"), 500, "Internal server error");
    expect_error(visit(&mut store, "h", "bad"), 500, "Internal server error");
    assert_eq!(store.get("h:bad").map(|t| t.as_str()), Some("not a record"));
}

#[test]
fn listing_fails_as_a_whole_on_a_corrupt_record() {
    let mut store = BTreeMap::new();
    create(&mut store, "h", "good", "https://a.test");
    store.insert(String::from("h:bad"), String::from("{\"hits\":1}"));
    expect_error(
        serve(&mut store, request(Method::Get, "h", "/list", "")),
        500,
        "Internal server error",
    );
}

#[test]
fn backend_failure_is_a_server_error() {
    let states = vec![
        State::AwaitStats { slug: String::from("s") },
        State::AwaitKeys { host: String::from("h") },
        State::AwaitRecords { host: String::from("h"), keys: vec![String::from("h:s")] },
        State::AwaitCreated { short_url: String::from("https://h/s") },
        State::AwaitLink { key: String::from("h:s") },
        State::AwaitCounted { location: String::from("https://a.test") },
        State::Done,
    ];
    for state in states {
        let step = advance(state, Event::Failed);
        assert!(matches!(step.state, State::Done));
        match step.action {
            Action::Respond(response) => expect_error(response, 500, "Internal server error"),
            other => panic!("unexpected action {:?}", other),
        }
    }
}

#[test]
fn unexpected_event_is_a_server_error() {
    let step = advance(State::AwaitKeys { host: String::from("h") }, Event::Stored);
    match step.action {
        Action::Respond(response) => expect_error(response, 500, "Internal server error"),
        other => panic!("unexpected action {:?}", other),
    }
    let step = advance(
        State::AwaitRecords {
            host: String::from("h"),
            keys: vec![String::from("h:a"), String::from("h:b")],
        },
        Event::Records(vec![Fetched::Absent]),
    );
    match step.action {
        Action::Respond(response) => expect_error(response, 500, "Internal server error"),
        other => panic!("unexpected action {:?}", other),
    }
}

#[test]
fn first_steps_name_the_right_keys() {
    let step = begin(&request(Method::Get, "go.example", "/stats/abc", ""));
    assert!(matches!(step.state, State::AwaitStats { ref slug } if slug == "abc"));
    assert!(matches!(step.action, Action::Get { ref key } if key == "go.example:abc"));
    let step = begin(&request(Method::Get, "go.example", "/abc", ""));
    assert!(matches!(step.state, State::AwaitLink { ref key } if key == "go.example:abc"));
    assert!(matches!(step.action, Action::Get { ref key } if key == "go.example:abc"));
    let step = begin(&request(Method::Get, "go.example", "/list", ""));
    assert!(matches!(step.state, State::AwaitKeys { ref host } if host == "go.example"));
    assert!(matches!(step.action, Action::ListKeys { ref prefix } if prefix == "go.example:"));
}

#[test]
fn visit_writes_the_counted_link_back() {
    let found = Fetched::Found(ShortLink { redirect_url: String::from("https://a.test"), hits: 41 });
    let step = advance(State::AwaitLink { key: String::from("h:s") }, Event::Record(found));
    assert!(matches!(step.state, State::AwaitCounted { ref location } if location == "https://a.test"));
    match step.action {
        Action::Put { key, link } => {
            assert_eq!(key, "h:s");
            assert_eq!(link.redirect_url, "https://a.test");
            assert_eq!(link.hits, 42);
        }
        other => panic!("unexpected action {:?}", other),
    }
}

#[test]
fn keys_are_fetched_in_the_order_listed() {
    let keys = vec![String::from("h:b"), String::from("h:a")];
    let step = advance(State::AwaitKeys { host: String::from("h") }, Event::Keys(keys));
    assert!(matches!(
        step.state,
        State::AwaitRecords { ref host, ref keys } if host == "h" && keys == &["h:b", "h:a"]
    ));
    assert!(matches!(step.action, Action::GetAll { ref keys } if keys == &["h:b", "h:a"]));
}

#[test]
fn list_entries_skip_what_has_vanished() {
    let keys = vec![String::from("h:b"), String::from("h:gone"), String::from("h:a")];
    let records = vec![
        Fetched::Found(ShortLink { redirect_url: String::from("https://b.test"), hits: 2 }),
        Fetched::Absent,
        Fetched::Found(ShortLink { redirect_url: String::from("https://a.test"), hits: 1 }),
    ];
    let entries = list_entries("h", &keys, &records).expect("a listing");
    assert_eq!(entries.len(), 2);
    assert_eq!(entries[0].slug, "b");
    assert_eq!(entries[0].redirect_url, "https://b.test");
    assert_eq!(entries[0].hits, 2);
    assert_eq!(entries[1].slug, "a");
    assert_eq!(entries[1].hits, 1);
    assert!(list_entries("h", &keys, &vec![Fetched::Absent]).is_none());
    assert!(
        list_entries("h", &keys, &vec![Fetched::Absent, Fetched::Corrupt, Fetched::Absent])
            .is_none()
    );
}

#[test]
fn create_step_for_each_verdict() {
    let step = create_step("h", Err(BodyError::InvalidJson));
    match step.action {
        Action::Respond(response) => expect_error(response, 400, "Invalid JSON body"),
        other => panic!("unexpected action {:?}", other),
    }
    let wanted = check_fields(Some(String::from("s")), Some(String::from("https://a.test")));
    let step = create_step("h", wanted);
    assert!(matches!(step.state, State::AwaitCreated { ref short_url } if short_url == "https://h/s"));
    match step.action {
        Action::Put { key, link } => {
            assert_eq!(key, "h:s");
            assert_eq!(link.redirect_url, "https://a.test");
            assert_eq!(link.hits, 0);
        }
        other => panic!("unexpected action {:?}", other),
    }
}

#[test]
fn check_fields_wants_both() {
    assert!(matches!(check_fields(None, None), Err(BodyError::MissingFields)));
    assert!(matches!(check_fields(Some(String::from("s")), None), Err(BodyError::MissingFields)));
    assert!(matches!(check_fields(None, Some(String::from("u"))), Err(BodyError::MissingFields)));
    assert!(matches!(
        check_fields(Some(String::new()), Some(String::from("u"))),
        Err(BodyError::MissingFields)
    ));
    let wanted = check_fields(Some(String::from("s")), Some(String::from("u"))).expect("a request");
    assert_eq!(wanted.slug, "s");
    assert_eq!(wanted.url, "u");
}

#[test]
fn body_is_parsed_as_json() {
    let wanted = parse_create_body("{\"url\":\"https://a.test/\\u00e9\",\"slug\":\"s\",\"x\":1}")
        .expect("a request");
    assert_eq!(wanted.slug, "s");
    assert_eq!(wanted.url, "https://a.test/\u{e9}");
    assert!(matches!(parse_create_body("{\"slug\""), Err(BodyError::InvalidJson)));
    assert_eq!(BodyError::InvalidJson.message(), "Invalid JSON body");
    assert_eq!(
        BodyError::MissingFields.message(),
        "Missing required fields: 'slug' and 'url' are required"
    );
}

#[test]
fn record_is_written_as_a_json_object() {
    let link = ShortLink { redirect_url: String::from("https://a.test/\"q\"?x=\u{e9}\n"), hits: 12 };
    let text = encode_record(&link);
    let doc: serde_json::Value = serde_json::from_str(&text).expect("a document");
    assert_eq!(doc["redirectUrl"].as_str(), Some("https://a.test/\"q\"?x=\u{e9}\n"));
    assert_eq!(doc["hits"].as_u64(), Some(12));
    assert_eq!(doc.as_object().map(|o| o.len()), Some(2));
    assert_eq!(
        encode_record(&ShortLink::new("https://target.test")),
        "{\"hits\":0,\"redirectUrl\":\"https://target.test\"}"
    );
}

#[test]
fn record_reads_back_as_written() {
    for hits in [0, 1, 4096, u64::MAX] {
        let link = ShortLink { redirect_url: String::from("https://a.test/\\path \"x\""), hits };
        let back = decode_record(&encode_record(&link)).expect("a link");
        assert_eq!(back.redirect_url, link.redirect_url);
        assert_eq!(back.hits, hits);
    }
}

#[test]
fn record_decoding() {
    let link = decode_record("{\"redirectUrl\":\"https://a.test\",\"hits\":5,\"more\":true}")
        .expect("a link");
    assert_eq!(link.redirect_url, "https://a.test");
    assert_eq!(link.hits, 5);
    assert!(decode_record("{\"redirectUrl\":\"https://a.test\"}").is_none());
    assert!(decode_record("{\"hits\":5}").is_none());
    assert!(decode_record("{\"redirectUrl\":\"u\",\"hits\":-1}").is_none());
    assert!(decode_record("{\"redirectUrl\":\"u\",\"hits\":1.5}").is_none());
    assert!(decode_record("{\"redirectUrl\":\"u\",\"hits\":\"5\"}").is_none());
    assert!(decode_record("{\"redirectUrl\":7,\"hits\":5}").is_none());
    assert!(decode_record("[\"u\",5]").is_none());
    assert!(decode_record("").is_none());
    assert!(decode_record("{").is_none());
}

#[test]
fn members_make_a_link_only_together() {
    assert!(link_of_members(None, None).is_none());
    assert!(link_of_members(Some(String::from("u")), None).is_none());
    assert!(link_of_members(None, Some(3)).is_none());
    let link = link_of_members(Some(String::from("u")), Some(3)).expect("a link");
    assert_eq!(link.redirect_url, "u");
    assert_eq!(link.hits, 3);
}

#[test]
fn fetched_tells_absent_corrupt_and_found() {
    assert!(matches!(fetched(None), Fetched::Absent));
    assert!(matches!(fetched(Some("nonsense")), Fetched::Corrupt));
    assert!(matches!(
        fetched(Some("{\"redirectUrl\":\"u\",\"hits\":2}")),
        Fetched::Found(ShortLink { ref redirect_url, hits: 2 }) if redirect_url == "u"
    ));
}
