use vstd::prelude::*;
use vstd::string::*;

use crate::versions::{limit_versions, version_limit};

verus! {

/// Whether a release-feed body parses as a JSON array of release entries.
pub uninterp spec fn is_release_array(s: Seq<char>) -> bool;

/// The `tag_name` of each entry of a release-feed body, in feed order:
/// the tag's text, or nothing for an entry without a `tag_name` string.
pub uninterp spec fn release_tags_of(s: Seq<char>) -> Seq<Option<Seq<char>>>;

/// Relies on serde_json::from_str, Value::get and Value::as_str: parses the
/// release-feed body into a JSON array and reads each entry's `tag_name`
/// string. The result depends on the body alone; a body that is no JSON
/// array yields nothing.
#[verifier::external_body]
fn parse_release_tags(body: &str) -> (r: Option<Vec<Option<String>>>)
    ensures
        r is Some <==> is_release_array(body@),
        r matches Some(ts) ==> ts.deep_view() == release_tags_of(body@),
{
    let releases: Vec<serde_json::Value> = match serde_json::from_str(body) {
        Ok(rs) => rs,
        Err(_) => return None,
    };
    Some(
        releases
            .iter()
            .map(|v| v.get("tag_name").and_then(serde_json::Value::as_str).map(str::to_string))
            .collect(),
    )
}

/// A missing or non-string tag is listed under a placeholder.
pub open spec fn tag_or_unknown(t: Option<Seq<char>>) -> Seq<char> {
    match t {
        Some(s) => s,
        None => "unknown"@,
    }
}

/// The tag of each entry of the body, placeholders filled in, in feed order.
pub open spec fn tags_with_fallback(s: Seq<char>) -> Seq<Seq<char>> {
    release_tags_of(s).map_values(|t: Option<Seq<char>>| tag_or_unknown(t))
}

/// The listing a release-feed body yields: every entry's tag unless `all`
/// is off, then at most the first five, in feed order either way.
pub open spec fn release_listing_v(s: Seq<char>, all: bool) -> Seq<Seq<char>> {
    let tags = tags_with_fallback(s);
    if all {
        tags
    } else if tags.len() < version_limit() {
        tags
    } else {
        tags.take(version_limit())
    }
}

/// The version listing held in a release-feed response body: one tag per
/// release entry, in feed order, truncated to the five most recent unless
/// `all` is asked for; nothing exactly when the body is no JSON release array.
pub fn versions_from_response(body: &str, all: bool) -> (r: Option<Vec<String>>)
    ensures
        r is Some <==> is_release_array(body@),
        r matches Some(versions) ==> versions.deep_view() == release_listing_v(body@, all),
{
    match parse_release_tags(body) {
        None => None,
        Some(ts) => {
            let mut tags: Vec<String> = Vec::new();
            proof {
                assert(tags.deep_view() =~= tags_with_fallback(body@).take(0));
            }
            let mut i: usize = 0;
            while i < ts.len()
                invariant
                    i <= ts.len(),
                    ts.deep_view() == release_tags_of(body@),
                    tags@.len() == i as int,
                    tags.deep_view() == tags_with_fallback(body@).take(i as int),
                decreases ts.len() - i,
            {
                let ghost prevs = tags@;
                let ghost prevd = tags.deep_view();
                let t = &ts[i];
                let tag = match t.as_ref() {
                    Some(s) => s.clone(),
                    None => String::from_str("unknown"),
                };
                proof {
                    assert(ts.deep_view()[i as int] == ts@[i as int].deep_view());
                    assert(tag@ == tag_or_unknown(release_tags_of(body@)[i as int]));
                }
                tags.push(tag);
                proof {
                    let full = tags_with_fallback(body@);
                    assert(full[i as int] == tag_or_unknown(release_tags_of(body@)[i as int]));
                    assert(tags@.len() == i + 1);
                    assert forall|j: int| 0 <= j <= i implies tags.deep_view()[j] == full.take(
                        i as int + 1,
                    )[j] by {
                        assert(tags.deep_view()[j] == tags@[j]@);
                        if j < i {
                            assert(tags@[j] == prevs[j]);
                            assert(prevd[j] == prevs[j]@);
                        }
                    }
                    assert(tags.deep_view() =~= full.take(i as int + 1));
                }
                i = i + 1;
            }
            let limited = limit_versions(tags, all);
            proof {
                let full = tags_with_fallback(body@);
                assert(full.take(full.len() as int) =~= full);
                assert(limited.deep_view() =~= release_listing_v(body@, all));
            }
            Some(limited)
        },
    }
}

} // verus!
