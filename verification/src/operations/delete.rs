//! Implementation of delete operations

use vstd::prelude::*;

use super::common::{options_text, Options, ToOptionVal};
use super::{Method, Request};

verus! {

/// Deletes a document.
#[derive(Debug)]
pub struct DeleteOperation<'b> {
    pub index: &'b str,
    pub doc_type: &'b str,
    pub id: &'b str,
    pub options: Options<'b>,
}

impl<'b> DeleteOperation<'b> {
    pub open spec fn keeps(self, other: Self) -> bool {
        self.index == other.index && self.doc_type == other.doc_type && self.id == other.id
    }

    pub fn new(index: &'b str, doc_type: &'b str, id: &'b str) -> (r: Self)
        ensures
            r.index == index,
            r.doc_type == doc_type,
            r.id == id,
            r.options.view_v().len() == 0,
    {
        DeleteOperation { index, doc_type, id, options: Options::new() }
    }

    /// Adds a query-string option.
    pub fn with_option<T: ToOptionVal>(self, key: &'b str, val: T) -> (r: Self)
        ensures
            r.options.view_v() == self.options.view_v().push((key@, val.option_text())),
            r.keeps(self),
    {
        let mut s = self;
        s.options.push(key, val);
        s
    }

    pub fn with_version<T: ToOptionVal>(self, val: T) -> (r: Self)
        ensures
            r.options.view_v() == self.options.view_v().push(("version"@, val.option_text())),
            r.keeps(self),
    {
        self.with_option("version", val)
    }

    pub fn with_version_type<T: ToOptionVal>(self, val: T) -> (r: Self)
        ensures
            r.options.view_v() == self.options.view_v().push(("version_type"@, val.option_text())),
            r.keeps(self),
    {
        self.with_option("version_type", val)
    }

    pub fn with_routing<T: ToOptionVal>(self, val: T) -> (r: Self)
        ensures
            r.options.view_v() == self.options.view_v().push(("routing"@, val.option_text())),
            r.keeps(self),
    {
        self.with_option("routing", val)
    }

    pub fn with_parent<T: ToOptionVal>(self, val: T) -> (r: Self)
        ensures
            r.options.view_v() == self.options.view_v().push(("parent"@, val.option_text())),
            r.keeps(self),
    {
        self.with_option("parent", val)
    }

    pub fn with_consistency<T: ToOptionVal>(self, val: T) -> (r: Self)
        ensures
            r.options.view_v() == self.options.view_v().push(("consistency"@, val.option_text())),
            r.keeps(self),
    {
        self.with_option("consistency", val)
    }

    pub fn with_refresh<T: ToOptionVal>(self, val: T) -> (r: Self)
        ensures
            r.options.view_v() == self.options.view_v().push(("refresh"@, val.option_text())),
            r.keeps(self),
    {
        self.with_option("refresh", val)
    }

    pub fn with_timeout<T: ToOptionVal>(self, val: T) -> (r: Self)
        ensures
            r.options.view_v() == self.options.view_v().push(("timeout"@, val.option_text())),
            r.keeps(self),
    {
        self.with_option("timeout", val)
    }

    /// `DELETE /{index}/{type}/{id}{options}`
    pub open spec fn url_v(&self) -> Seq<char> {
        "/"@ + self.index@ + "/"@ + self.doc_type@ + "/"@ + self.id@ + options_text(self.options.view_v())
    }

    pub fn request(&self) -> (r: Request)
        ensures
            r.method == Method::Delete,
            r.url@ == self.url_v(),
            r.body is None,
    {
        let mut url = "/".to_owned();
        url.append(self.index);
        url.append("/");
        url.append(self.doc_type);
        url.append("/");
        url.append(self.id);
        let o = self.options.to_string();
        url.append(o.as_str());
        assert(url@ =~= self.url_v());
        Request { method: Method::Delete, url, body: None }
    }
}

/// The result of a delete operation
#[derive(Debug, Clone)]
pub struct DeleteResult {
    pub found: bool,
    pub index: String,
    pub doc_type: String,
    pub id: String,
    pub version: u64,
}

} // verus!
