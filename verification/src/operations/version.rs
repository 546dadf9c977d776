//! Fetch ElasticSearch version information

use vstd::prelude::*;

use super::{Method, Request};

verus! {

/// Calls the base path, which answers with version information.
#[derive(Debug)]
pub struct VersionOperation;

impl VersionOperation {
    pub fn new() -> (r: Self) {
        VersionOperation
    }

    /// `GET /`
    pub fn request(&self) -> (r: Request)
        ensures
            r.method == Method::Get,
            r.url@ == "/"@,
            r.body is None,
    {
        Request { method: Method::Get, url: "/".to_owned(), body: None }
    }
}

#[derive(Debug, Clone)]
pub struct Version {
    pub number: String,
    pub build_hash: String,
    pub build_timestamp: String,
    pub build_snapshot: bool,
    pub lucene_version: String,
}

#[derive(Debug, Clone)]
pub struct VersionResult {
    pub name: String,
    pub cluster_name: String,
    pub version: Version,
    pub tagline: String,
}

} // verus!
