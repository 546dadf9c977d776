//! Implementation of ElasticSearch Delete Index operation

use vstd::prelude::*;

use super::{Method, Request};

verus! {

/// `DELETE /{index}/`
pub open spec fn delete_index_url(index: Seq<char>) -> Seq<char> {
    "/"@ + index + "/"@
}

/// The request that deletes the given index.
pub fn delete_index(index: &str) -> (r: Request)
    ensures
        r.method == Method::Delete,
        r.url@ == delete_index_url(index@),
        r.body is None,
{
    let mut url = "/".to_owned();
    url.append(index);
    url.append("/");
    Request { method: Method::Delete, url, body: None }
}

} // verus!
