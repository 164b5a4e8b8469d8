//! The release feed: the answer to a request for the published releases,
//! read down to the version of the newest one.
use vstd::prelude::*;
use crate::version::{strip_v, strip_version_prefix};

verus! {

/// The release index of the tracked project, newest release first.
pub const RELEASES_URL: &'static str = "https://api.github.com/repos/Trenclik/KOK/releases";

/// The text of `[0].tag_name` as `serde_json` reads it from a body, if the
/// body is a JSON array whose first element has a string member of that name.
pub uninterp spec fn first_release_tag(body: Seq<char>) -> Option<Seq<char>>;

/// Relies on serde_json::from_str into a `serde_json::Value`, then
/// `Value::get` with the index 0 and with the key `tag_name`, then
/// `Value::as_str`: the result depends on the body text alone.
#[verifier::external_body]
fn first_tag_in(body: &str) -> (r: Option<String>)
    ensures
        r.deep_view() == first_release_tag(body@),
{
    let value: serde_json::Value = serde_json::from_str(body).ok()?;
    let tag = value.get(0)?.get("tag_name")?.as_str()?;
    Some(tag.to_string())
}

/// The HTTP status codes that count as success (the 2xx class).
pub open spec fn is_success_status(code: u16) -> bool {
    200 <= code && code < 300
}

/// Whether an HTTP status code is a success (in `200..300`).
pub fn is_success(code: u16) -> (r: bool)
    ensures
        r == is_success_status(code),
{
    200 <= code && code < 300
}

/// What the feed client answers, from the status of the response and the tag
/// found in its body: the tag without its `v`, or nothing.
pub open spec fn remote_version_spec(status: u16, tag: Option<Seq<char>>) -> Option<Seq<char>> {
    if is_success_status(status) && tag is Some {
        Some(strip_v(tag->0))
    } else {
        None
    }
}

/// The answer of the release feed to one request.
pub struct FeedResponse {
    pub status: u16,
    pub body: String,
}

/// The version offered by the feed, from the status of its response and the
/// tag that its body names, if any. Any failure is "no version".
pub fn remote_version(status: u16, tag: Option<String>) -> (r: Option<String>)
    ensures
        r.deep_view() == remote_version_spec(status, tag.deep_view()),
{
    if is_success(status) {
        match tag {
            Some(t) => Some(strip_version_prefix(t.as_str())),
            None => None,
        }
    } else {
        None
    }
}

/// The `tag_name` of the first element of a JSON array of releases, if the
/// body is such an array and that member is a string.
pub fn release_tag(body: &str) -> (r: Option<String>)
    ensures
        r.deep_view() == first_release_tag(body@),
{
    first_tag_in(body)
}

/// The version that the feed offers, or `None` when the request failed, the
/// status is not a success, or the body does not name a tag. Every such
/// failure counts as "no update" and none is raised.
pub fn check_for_updates(response: Option<FeedResponse>) -> (r: Option<String>)
    ensures
        response is None ==> r is None,
        response matches Some(resp) ==> r.deep_view() == remote_version_spec(
            resp.status,
            first_release_tag(resp.body@),
        ),
{
    match response {
        Some(resp) => {
            let tag = release_tag(resp.body.as_str());
            remote_version(resp.status, tag)
        },
        None => None,
    }
}

} // verus!
