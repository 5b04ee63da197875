//! Turns user-supplied URLs into source identifiers and back.

use vstd::prelude::*;
use vstd::string::StringExecFns;

verus! {

/// The URL shapes that name a video: an optional scheme, an optional `www.` or
/// `m.` host prefix, one of the two hosts, a path lead-in, and then the
/// identifier itself as the fifth group.
pub const YOUTUBE_REGEX: &'static str =
    r"^((?:https?:)?//)?((?:www|m)\.)?((?:youtube\.com|youtu.be))(/(?:[\w\-]+\?v=|embed/|v/)?)([\w\-]+)(\S+)?$";

/// What a fetchable URL starts with; the identifier follows it.
pub const YOUTUBE_PREFIX: &'static str = "https://www.youtube.com/watch?v=";

/// The capture group that holds the identifier.
pub const ID_GROUP: usize = 5;

/// The text that capture group `group` covers in the leftmost match of the
/// regular expression `pattern` in `haystack`. `None` where `pattern` is not a
/// valid expression, where it matches nowhere, and where the group took no
/// part in the match.
pub uninterp spec fn regex_capture(pattern: Seq<char>, haystack: Seq<char>, group: nat) -> Option<
    Seq<char>,
>;

/// Compiles `pattern` with `regex::Regex::new`, searches `haystack` with
/// `Regex::captures` and copies out the text of `Captures::get(group)`.
///
/// Trusted: the result is `regex_capture` of the three arguments. A pattern
/// that does not compile gives `None`, as does a search without a match.
#[verifier::external_body]
fn capture_group(pattern: &str, haystack: &str, group: usize) -> (r: Option<String>)
    ensures
        r.deep_view() == regex_capture(pattern@, haystack@, group as nat),
{
    match regex::Regex::new(pattern) {
        Ok(re) => re.captures(haystack).and_then(|c| c.get(group)).map(|m| m.as_str().to_string()),
        Err(_) => None,
    }
}

/// The identifier that `url` names, if it has one of the accepted shapes.
pub open spec fn source_id_of(url: Seq<char>) -> Option<Seq<char>> {
    regex_capture(YOUTUBE_REGEX@, url, ID_GROUP as nat)
}

/// The fetchable URL of the source `id`.
pub open spec fn canonical_url(id: Seq<char>) -> Seq<char> {
    YOUTUBE_PREFIX@ + id
}

/// Resolves a raw input string to the identifier of the video it names.
///
/// Any string is accepted; one that has none of the accepted shapes gives
/// `None`.
pub fn url_checker(url: &str) -> (id: Option<String>)
    ensures
        id.deep_view() == source_id_of(url@),
{
    capture_group(YOUTUBE_REGEX, url, ID_GROUP)
}

/// Rebuilds a fetchable URL from an identifier.
pub fn to_canonical_url(id: &str) -> (url: String)
    ensures
        url@ == canonical_url(id@),
{
    String::from_str(YOUTUBE_PREFIX).concat(id)
}

} // verus!
