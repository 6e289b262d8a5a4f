//! The apex domain of a host, and where a request for the root is sent.

use vstd::prelude::*;
use vstd::string::*;
use crate::text::text_view;

verus! {

/// The pattern that strips the leftmost label of a host: a run of characters
/// other than a dot, a dot, and the rest, which is captured.
pub open spec fn label_pattern() -> Seq<char> {
    "^[^.]+\\.(.+)$"@
}

/// What follows the leftmost label of `host` and its dot: the label is not
/// empty, and the rest is not empty and holds no line feed. `None` for a host
/// of any other shape.
pub open spec fn without_first_label(host: Seq<char>) -> Option<Seq<char>> {
    match host.index_of_first('.') {
        Some(i) => {
            let rest = host.subrange(i + 1, host.len() as int);
            if 1 <= i && rest.len() >= 1 && !rest.contains('\n') {
                Some(rest)
            } else {
                None
            }
        },
        None => None,
    }
}

/// The apex domain of `host`: the host without its leftmost label, or the
/// host unchanged where it has no such label.
pub open spec fn apex_of(host: Seq<char>) -> Seq<char> {
    match without_first_label(host) {
        Some(rest) => rest,
        None => host,
    }
}

/// The address to which a request for the root of `host` is redirected.
pub open spec fn root_target(host: Seq<char>) -> Seq<char> {
    "https://"@ + apex_of(host) + "/"@
}

/// Calls `regex::Regex::new` on `pattern` and `Regex::captures` on `text`, and
/// hands back the text of the first capture group. Trusted, and only for the
/// one pattern above. By the syntax that `regex` documents, `^` and `$` are
/// the two ends of the text, `[^.]` is any character but a dot, and `.` is any
/// character but a line feed. So the pattern matches exactly the texts made
/// of a non-empty run without a dot, the first dot, and a non-empty rest
/// without a line feed, and its group is that rest.
#[verifier::external_body]
fn first_group(pattern: &str, text: &str) -> (r: Option<String>)
    requires
        pattern@ == label_pattern(),
    ensures
        text_view(r) == without_first_label(text@),
{
    match regex::Regex::new(pattern) {
        Ok(re) => match re.captures(text).and_then(|found| found.get(1)) {
            Some(group) => Some(group.as_str().to_string()),
            None => None,
        },
        Err(_) => None,
    }
}

/// The apex domain of a host.
pub fn apex_domain(host: &str) -> (r: String)
    ensures
        r@ == apex_of(host@),
{
    match first_group("^[^.]+\\.(.+)$", host) {
        Some(rest) => rest,
        None => String::from_str(host),
    }
}

/// Where a request for the root of `host` is redirected: the apex domain,
/// over https.
pub fn root_location(host: &str) -> (r: String)
    ensures
        r@ == root_target(host@),
{
    let apex = apex_domain(host);
    String::from_str("https://").concat(apex.as_str()).concat("/")
}

} // verus!
