//! Public addresses of stored objects.

use vstd::prelude::*;
use crate::text::{
    contains_text, replaced_text, str_contains, str_replace, trim_end_matches, without_trailing,
};

verus! {

/// The public address of the object `key` in `bucket`, for a base address.
///
/// Slashes at the end of the base do not count. A base that holds `{bucket}`
/// or `{key}` is a template: both are replaced. A base that already names the
/// bucket is followed by the key alone, any other base by the bucket and the
/// key.
pub open spec fn public_url(base: Seq<char>, bucket: Seq<char>, key: Seq<char>) -> Seq<char> {
    let trimmed = without_trailing(base, '/');
    if contains_text(trimmed, "{bucket}"@) || contains_text(trimmed, "{key}"@) {
        replaced_text(replaced_text(trimmed, "{bucket}"@, bucket), "{key}"@, key)
    } else if contains_text(trimmed, bucket) {
        trimmed + "/"@ + key
    } else {
        trimmed + "/"@ + bucket + "/"@ + key
    }
}

/// Builds the public address of the object `key` in `bucket`.
pub fn build_public_url(base: &str, bucket: &str, key: &str) -> (url: String)
    ensures
        url@ == public_url(base@, bucket@, key@),
{
    let trimmed = trim_end_matches(base, '/');
    if str_contains(trimmed.as_str(), "{bucket}") || str_contains(trimmed.as_str(), "{key}") {
        let with_bucket = str_replace(trimmed.as_str(), "{bucket}", bucket);
        return str_replace(with_bucket.as_str(), "{key}", key);
    }
    let mut url = trimmed.clone();
    if str_contains(trimmed.as_str(), bucket) {
        url.append("/");
        url.append(key);
    } else {
        url.append("/");
        url.append(bucket);
        url.append("/");
        url.append(key);
    }
    url
}

} // verus!
