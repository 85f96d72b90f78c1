//! Choices the photo-service client makes between its requests.

use vstd::prelude::*;

verus! {

/// Relies on `rand::seq::IndexedRandom::choose` with the thread-local
/// generator: `None` exactly for an empty slice, else one of its items.
#[verifier::external_body]
fn choose_random(items: &Vec<String>) -> (r: Option<String>)
    ensures
        r is None <==> items@.len() == 0,
        r matches Some(s) ==> exists|i: int| 0 <= i < items@.len() && #[trigger] items@[i]@ == s@,
{
    rand::seq::IndexedRandom::choose(items.as_slice(), &mut rand::rng()).cloned()
}

/// Picks one of the favourite time buckets at random; `None` when there
/// is none.
pub fn choose_bucket(buckets: &Vec<String>) -> (r: Option<String>)
    ensures
        r is None <==> buckets@.len() == 0,
        r matches Some(s) ==> exists|i: int| 0 <= i < buckets@.len() && #[trigger] buckets@[i]@ == s@,
{
    choose_random(buckets)
}

/// The first thumbnail of a bucket; `None` when the bucket lists none.
pub fn first_thumbnail(ids: &Vec<String>) -> (r: Option<String>)
    ensures
        ids@.len() == 0 ==> r is None,
        ids@.len() > 0 ==> (r matches Some(s) && s@ == ids@[0]@),
{
    if ids.len() == 0 {
        None
    } else {
        Some(ids[0].clone())
    }
}

/// `base` followed by `path`.
fn join(base: &str, path: &str) -> (r: String)
    ensures
        r@ == base@ + path@,
{
    let mut s = String::from_str(base);
    s.append(path);
    s
}

/// Address of the list of time buckets.
pub fn buckets_url(base: &str) -> (r: String)
    ensures
        r@ == base@ + "/api/timeline/buckets"@,
{
    join(base, "/api/timeline/buckets")
}

/// Address of the assets of one time bucket.
pub fn bucket_url(base: &str) -> (r: String)
    ensures
        r@ == base@ + "/api/timeline/bucket"@,
{
    join(base, "/api/timeline/bucket")
}

/// Address of the preview-size thumbnail of an asset.
pub fn thumbnail_url(base: &str, id: &str) -> (r: String)
    ensures
        r@ == base@ + "/api/assets/"@ + id@ + "/thumbnail?size=preview"@,
{
    let mut s = join(base, "/api/assets/");
    s.append(id);
    s.append("/thumbnail?size=preview");
    s
}

} // verus!
