//! Object storage addressing.
use vstd::prelude::*;

verus! {

/// The URL of an object: `<base>/<bucket>/<key>`.
pub open spec fn object_url_of(base_url: Seq<char>, bucket: Seq<char>, key: Seq<char>) -> Seq<char> {
    base_url + "/"@ + bucket + "/"@ + key
}

/// The URL under which an uploaded object is served.
pub fn object_url(base_url: &str, bucket: &str, key: &str) -> (r: String)
    ensures
        r@ == object_url_of(base_url@, bucket@, key@),
{
    let mut url = base_url.to_string();
    url.append("/");
    url.append(bucket);
    url.append("/");
    url.append(key);
    url
}

} // verus!
