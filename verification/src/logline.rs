//! The line that is logged for each request.

use vstd::prelude::*;
use vstd::string::*;

verus! {

/// The region that is logged where none is known.
pub open spec fn unknown_region() -> Seq<char> {
    "unknown region"@
}

/// The line logged for a request: the time, the path in square brackets,
/// where the client is, and the region it is in.
pub open spec fn log_line(
    time: Seq<char>,
    path: Seq<char>,
    coordinates: Seq<char>,
    region: Option<Seq<char>>,
) -> Seq<char> {
    time + " - ["@ + path + "], located at: "@ + coordinates + ", within: "@ + match region {
        Some(name) => name,
        None => unknown_region(),
    }
}

/// Composes the line that is logged for a request. The caller gives the time
/// and the coordinates as it wants them printed, and writes the line out.
pub fn log_request(time: &str, path: &str, coordinates: &str, region: Option<&str>) -> (r: String)
    ensures
        r@ == log_line(
            time@,
            path@,
            coordinates@,
            match region {
                Some(name) => Some(name@),
                None => None,
            },
        ),
{
    let within: &str = match region {
        Some(name) => name,
        None => "unknown region",
    };
    String::from_str(time).concat(" - [").concat(path).concat("], located at: ").concat(
        coordinates,
    ).concat(", within: ").concat(within)
}

} // verus!
