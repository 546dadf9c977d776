//! Implementation of ElasticSearch Index operation

use vstd::prelude::*;

use super::common::{options_text, OptionVal, Options, ToOptionVal};
use super::{Method, Request};

verus! {

#[derive(Debug, Clone, Copy, PartialEq, Eq)]
pub enum OpType {
    Create,
}

impl ToOptionVal for OpType {
    open spec fn option_text(&self) -> Seq<char> {
        "create"@
    }

    fn to_option_val(&self) -> (r: OptionVal) {
        OptionVal("create".to_owned())
    }
}

/// An indexing operation.  The document is given as its JSON text.
#[derive(Debug)]
pub struct IndexOperation<'b> {
    pub index: &'b str,
    pub doc_type: &'b str,
    pub id: Option<&'b str>,
    pub options: Options<'b>,
    pub document: Option<String>,
}

impl<'b> IndexOperation<'b> {
    pub open spec fn keeps(self, other: Self) -> bool {
        self.index == other.index && self.doc_type == other.doc_type && self.id == other.id
            && self.document == other.document
    }

    pub fn new(index: &'b str, doc_type: &'b str) -> (r: Self)
        ensures
            r.index == index,
            r.doc_type == doc_type,
            r.id is None,
            r.document is None,
            r.options.view_v().len() == 0,
    {
        IndexOperation { index, doc_type, id: None, options: Options::new(), document: None }
    }

    /// The document to index, as JSON text.
    pub fn with_doc(self, doc: String) -> (r: Self)
        ensures
            r.document == Some(doc),
            r.index == self.index,
            r.doc_type == self.doc_type,
            r.id == self.id,
            r.options == self.options,
    {
        IndexOperation { document: Some(doc), ..self }
    }

    pub fn with_id(self, id: &'b str) -> (r: Self)
        ensures
            r.id == Some(id),
            r.index == self.index,
            r.doc_type == self.doc_type,
            r.document == self.document,
            r.options == self.options,
    {
        IndexOperation { id: Some(id), ..self }
    }

    /// Adds a query-string option.
    pub fn with_option<T: ToOptionVal>(self, key: &'b str, val: T) -> (r: Self)
        ensures
            r.options.view_v() == self.options.view_v().push((key@, val.option_text())),
            r.keeps(self),
    {
        let mut s = self;
        s.options.push(key, val);
        s
    }

    pub fn with_ttl<T: ToOptionVal>(self, val: T) -> (r: Self)
        ensures
            r.options.view_v() == self.options.view_v().push(("ttl"@, val.option_text())),
            r.keeps(self),
    {
        self.with_option("ttl", val)
    }

    pub fn with_version<T: ToOptionVal>(self, val: T) -> (r: Self)
        ensures
            r.options.view_v() == self.options.view_v().push(("version"@, val.option_text())),
            r.keeps(self),
    {
        self.with_option("version", val)
    }

    pub fn with_version_type<T: ToOptionVal>(self, val: T) -> (r: Self)
        ensures
            r.options.view_v() == self.options.view_v().push(("version_type"@, val.option_text())),
            r.keeps(self),
    {
        self.with_option("version_type", val)
    }

    pub fn with_op_type<T: ToOptionVal>(self, val: T) -> (r: Self)
        ensures
            r.options.view_v() == self.options.view_v().push(("op_type"@, val.option_text())),
            r.keeps(self),
    {
        self.with_option("op_type", val)
    }

    pub fn with_routing<T: ToOptionVal>(self, val: T) -> (r: Self)
        ensures
            r.options.view_v() == self.options.view_v().push(("routing"@, val.option_text())),
            r.keeps(self),
    {
        self.with_option("routing", val)
    }

    pub fn with_parent<T: ToOptionVal>(self, val: T) -> (r: Self)
        ensures
            r.options.view_v() == self.options.view_v().push(("parent"@, val.option_text())),
            r.keeps(self),
    {
        self.with_option("parent", val)
    }

    pub fn with_timestamp<T: ToOptionVal>(self, val: T) -> (r: Self)
        ensures
            r.options.view_v() == self.options.view_v().push(("timestamp"@, val.option_text())),
            r.keeps(self),
    {
        self.with_option("timestamp", val)
    }

    pub fn with_refresh<T: ToOptionVal>(self, val: T) -> (r: Self)
        ensures
            r.options.view_v() == self.options.view_v().push(("refresh"@, val.option_text())),
            r.keeps(self),
    {
        self.with_option("refresh", val)
    }

    pub fn with_timeout<T: ToOptionVal>(self, val: T) -> (r: Self)
        ensures
            r.options.view_v() == self.options.view_v().push(("timeout"@, val.option_text())),
            r.keeps(self),
    {
        self.with_option("timeout", val)
    }

    /// With an id: `PUT /{index}/{type}/{id}{options}`; without one:
    /// `POST /{index}/{type}{options}`; the body is the document, if any.
    pub open spec fn url_v(&self) -> Seq<char> {
        match self.id {
            Some(id) => "/"@ + self.index@ + "/"@ + self.doc_type@ + "/"@ + id@ + options_text(self.options.view_v()),
            None => "/"@ + self.index@ + "/"@ + self.doc_type@ + options_text(self.options.view_v()),
        }
    }

    pub fn request(&self) -> (r: Request)
        ensures
            r.method == (if self.id is Some { Method::Put } else { Method::Post }),
            r.url@ == self.url_v(),
            r.body == self.document,
    {
        let mut url = "/".to_owned();
        url.append(self.index);
        url.append("/");
        url.append(self.doc_type);
        let method = match self.id {
            Some(id) => {
                url.append("/");
                url.append(id);
                Method::Put
            },
            None => Method::Post,
        };
        let o = self.options.to_string();
        url.append(o.as_str());
        assert(url@ =~= self.url_v());
        Request { method, url, body: self.document.clone() }
    }
}

/// The result of an index operation
#[derive(Debug, Clone)]
pub struct IndexResult {
    pub index: String,
    pub doc_type: String,
    pub id: String,
    pub version: u64,
    pub created: bool,
}

} // verus!
