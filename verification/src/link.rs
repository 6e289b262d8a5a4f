//! The short link and the key under which the backend holds it.

use vstd::prelude::*;
use vstd::string::*;
use crate::text::{has_prefix, strip_prefix};

verus! {

/// A short link: where it leads and how often it has been followed.
#[derive(Debug)]
pub struct ShortLink {
    pub redirect_url: String,
    pub hits: u64,
}

/// A short link as a mathematical value.
pub struct LinkView {
    pub redirect_url: Seq<char>,
    pub hits: u64,
}

impl View for ShortLink {
    type V = LinkView;

    open spec fn view(&self) -> LinkView {
        LinkView { redirect_url: self.redirect_url@, hits: self.hits }
    }
}

/// The link that a creation stores: it leads to `url` and has no hits.
pub open spec fn fresh_link(url: Seq<char>) -> LinkView {
    LinkView { redirect_url: url, hits: 0 }
}

/// The link after one more visit. The counter stops at the largest value
/// it can hold, so it never decreases.
pub open spec fn visited(link: LinkView) -> LinkView {
    LinkView {
        redirect_url: link.redirect_url,
        hits: if link.hits < u64::MAX {
            (link.hits + 1) as u64
        } else {
            link.hits
        },
    }
}

impl ShortLink {
    /// A link to `url` that nobody has followed yet.
    pub fn new(url: &str) -> (r: ShortLink)
        ensures
            r@ == fresh_link(url@),
    {
        ShortLink { redirect_url: String::from_str(url), hits: 0 }
    }

    /// Counts one visit.
    pub fn record_hit(&mut self)
        ensures
            final(self)@ == visited(old(self)@),
            final(self).hits >= old(self).hits,
    {
        if self.hits < u64::MAX {
            self.hits = self.hits + 1;
        }
    }

    /// A copy of the link.
    pub fn duplicate(&self) -> (r: ShortLink)
        ensures
            r@ == self@,
    {
        ShortLink { redirect_url: self.redirect_url.clone(), hits: self.hits }
    }
}

/// The character that parts host and slug in a key.
pub open spec fn separator() -> char {
    ':'
}

/// The backend key of the link `slug` of `host`: host, separator, slug.
pub open spec fn key_of(host: Seq<char>, slug: Seq<char>) -> Seq<char> {
    host + seq![separator()] + slug
}

/// The prefix that the keys of `host` share: host, separator.
pub open spec fn prefix_of(host: Seq<char>) -> Seq<char> {
    host + seq![separator()]
}

/// The slug that a listing of `host` reads out of a key: what stands behind
/// the host's prefix; empty where the key does not begin with that prefix.
pub open spec fn slug_in(host: Seq<char>, key: Seq<char>) -> Seq<char> {
    if has_prefix(key, prefix_of(host)) {
        key.subrange(prefix_of(host).len() as int, key.len() as int)
    } else {
        Seq::empty()
    }
}

/// Builds the backend key of a link.
pub fn storage_key(host: &str, slug: &str) -> (r: String)
    ensures
        r@ == key_of(host@, slug@),
{
    proof {
        reveal_strlit(":");
        assert(":"@ =~= seq![separator()]);
    }
    String::from_str(host).concat(":").concat(slug)
}

/// Builds the prefix under which the keys of a host are listed.
pub fn list_prefix(host: &str) -> (r: String)
    ensures
        r@ == prefix_of(host@),
{
    proof {
        reveal_strlit(":");
        assert(":"@ =~= seq![separator()]);
    }
    String::from_str(host).concat(":")
}

/// Reads the slug out of a key that a listing of `host` returned.
pub fn slug_of_key(host: &str, key: &str) -> (r: String)
    ensures
        r@ == slug_in(host@, key@),
{
    let prefix = list_prefix(host);
    match strip_prefix(key, prefix.as_str()) {
        Some(slug) => slug,
        None => String::new(),
    }
}

/// Every key of a host begins with the host's prefix.
pub proof fn lemma_key_has_prefix(host: Seq<char>, slug: Seq<char>)
    ensures
        has_prefix(key_of(host, slug), prefix_of(host)),
{
    assert(key_of(host, slug).subrange(0, prefix_of(host).len() as int) =~= prefix_of(host));
}

/// A listing reads back the slug that a key was built from.
pub proof fn lemma_slug_read_back(host: Seq<char>, slug: Seq<char>)
    ensures
        slug_in(host, key_of(host, slug)) == slug,
{
    lemma_key_has_prefix(host, slug);
    assert(key_of(host, slug).subrange(
        prefix_of(host).len() as int,
        key_of(host, slug).len() as int,
    ) =~= slug);
}

/// A key that begins with the prefix of a host is the key of the slug that a
/// listing of that host reads out of it.
pub proof fn lemma_key_rebuilt(host: Seq<char>, key: Seq<char>)
    requires
        has_prefix(key, prefix_of(host)),
    ensures
        key_of(host, slug_in(host, key)) == key,
{
    assert(key_of(host, slug_in(host, key)) =~= key.subrange(0, prefix_of(host).len() as int)
        + key.subrange(prefix_of(host).len() as int, key.len() as int));
    assert(key_of(host, slug_in(host, key)) =~= key);
}

/// Under one host, two links have the same key only if they have the same slug.
pub proof fn lemma_key_tells_slug(host: Seq<char>, slug_a: Seq<char>, slug_b: Seq<char>)
    requires
        key_of(host, slug_a) == key_of(host, slug_b),
    ensures
        slug_a == slug_b,
{
    lemma_slug_read_back(host, slug_a);
    lemma_slug_read_back(host, slug_b);
}

/// A key of one host never begins with the prefix of another, where neither
/// host holds a separator.
pub proof fn lemma_prefix_tells_host(host: Seq<char>, other: Seq<char>, slug: Seq<char>)
    requires
        !host.contains(separator()),
        !other.contains(separator()),
        has_prefix(key_of(other, slug), prefix_of(host)),
    ensures
        host == other,
{
    let key = key_of(other, slug);
    let p = prefix_of(host);
    assert(key.subrange(0, p.len() as int)[host.len() as int] == p[host.len() as int]);
    assert(key[host.len() as int] == separator());
    if host.len() < other.len() {
        assert(key[host.len() as int] == other[host.len() as int]);
        assert(other.contains(other[host.len() as int]));
    } else if host.len() > other.len() {
        assert(key.subrange(0, p.len() as int)[other.len() as int] == p[other.len() as int]);
        assert(p[other.len() as int] == host[other.len() as int]);
        assert(key[other.len() as int] == separator());
        assert(host.contains(host[other.len() as int]));
    } else {
        assert(key.subrange(0, host.len() as int) =~= other);
        assert(p.subrange(0, host.len() as int) =~= host);
        assert(key.subrange(0, p.len() as int).subrange(0, host.len() as int) =~= key.subrange(
            0,
            host.len() as int,
        ));
    }
}

} // verus!
