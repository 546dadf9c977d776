//! Refresh an Index

use vstd::prelude::*;

use super::{format_multi, multi_text, names_v, Method, Request};

verus! {

/// Refreshes indexes.
#[derive(Debug)]
pub struct RefreshOperation<'b> {
    pub indexes: &'b [&'b str],
}

impl<'b> RefreshOperation<'b> {
    pub fn new() -> (r: Self)
        ensures
            r.indexes@.len() == 0,
    {
        RefreshOperation { indexes: &[] }
    }

    pub fn with_indexes(self, indexes: &'b [&'b str]) -> (r: Self)
        ensures
            r.indexes == indexes,
    {
        RefreshOperation { indexes }
    }

    /// `POST /{indexes}/_refresh`
    pub open spec fn url_v(&self) -> Seq<char> {
        "/"@ + multi_text(names_v(self.indexes@)) + "/_refresh"@
    }

    pub fn request(&self) -> (r: Request)
        ensures
            r.method == Method::Post,
            r.url@ == self.url_v(),
            r.body is None,
    {
        let mut url = "/".to_owned();
        let m = format_multi(self.indexes);
        url.append(m.as_str());
        url.append("/_refresh");
        assert(url@ =~= self.url_v());
        Request { method: Method::Post, url, body: None }
    }
}

/// Result of a refresh request
#[derive(Debug, Clone, Copy)]
pub struct RefreshResult {
    pub shards: super::ShardCountResult,
}

} // verus!
