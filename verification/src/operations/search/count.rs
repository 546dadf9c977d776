//! Implementations of the Count API

use vstd::prelude::*;

use crate::json::{entries_view, json_text, object, opt_entry, push_entry, to_json_string, Json, JsonV, ToJson};
use crate::query::{query_json, query_v, Query};
use super::super::common::{options_text, Options, ToOptionVal};
use super::super::{format_indexes_and_types, indexes_and_types_text, names_v, Method, Request};

verus! {

/// `/{indexes/types}/_count{options}`
pub open spec fn count_url_v(indexes: Seq<&str>, doc_types: Seq<&str>, options: Seq<(Seq<char>, Seq<char>)>) -> Seq<char> {
    "/"@ + indexes_and_types_text(names_v(indexes), names_v(doc_types)) + "/_count"@ + options_text(options)
}

/// Builds the URL of a count.
fn count_url(indexes: &[&str], doc_types: &[&str], options: &Options) -> (r: String)
    ensures
        r@ == count_url_v(indexes@, doc_types@, options.view_v()),
{
    let mut url = "/".to_owned();
    let it = format_indexes_and_types(indexes, doc_types);
    url.append(it.as_str());
    url.append("/_count");
    let o = options.to_string();
    url.append(o.as_str());
    assert(url@ =~= count_url_v(indexes@, doc_types@, options.view_v()));
    url
}

/// Representing a count operation
#[derive(Debug)]
pub struct CountURIOperation<'b> {
    pub indexes: &'b [&'b str],
    pub doc_types: &'b [&'b str],
    pub options: Options<'b>,
}

impl<'b> CountURIOperation<'b> {
    /// All but the options are the same.
    pub open spec fn keeps(self, other: Self) -> bool {
        self.indexes@ == other.indexes@ && self.doc_types@ == other.doc_types@
    }

    pub fn new() -> (r: Self)
        ensures
            r.indexes@.len() == 0,
            r.doc_types@.len() == 0,
            r.options.view_v().len() == 0,
    {
        CountURIOperation { indexes: &[], doc_types: &[], options: Options::new() }
    }

    pub fn with_indexes(self, indexes: &'b [&'b str]) -> (r: Self)
        ensures
            r == (CountURIOperation { indexes, ..self }),
    {
        CountURIOperation { indexes, ..self }
    }

    pub fn with_types(self, doc_types: &'b [&'b str]) -> (r: Self)
        ensures
            r == (CountURIOperation { doc_types, ..self }),
    {
        CountURIOperation { doc_types, ..self }
    }

    /// Adds a query-string option.
    pub fn with_option<T: ToOptionVal>(self, key: &'b str, val: T) -> (r: Self)
        ensures
            r.options.view_v() == self.options.view_v().push((key@, val.option_text())),
            r.keeps(self),
    {
        let mut s = self;
        s.options.push(key, val);
        s
    }

    /// The query string, as the option `q`.
    pub fn with_query(self, qs: String) -> (r: Self)
        ensures
            r.options.view_v() == self.options.view_v().push(("q"@, qs@)),
            r.keeps(self),
    {
        self.with_option("q", qs)
    }

    pub fn with_df<T: ToOptionVal>(self, val: T) -> (r: Self)
        ensures
            r.options.view_v() == self.options.view_v().push(("df"@, val.option_text())),
            r.keeps(self),
    {
        self.with_option("df", val)
    }

    pub fn with_analyzer<T: ToOptionVal>(self, val: T) -> (r: Self)
        ensures
            r.options.view_v() == self.options.view_v().push(("analyzer"@, val.option_text())),
            r.keeps(self),
    {
        self.with_option("analyzer", val)
    }

    pub fn with_default_operator<T: ToOptionVal>(self, val: T) -> (r: Self)
        ensures
            r.options.view_v() == self.options.view_v().push(("default_operator"@, val.option_text())),
            r.keeps(self),
    {
        self.with_option("default_operator", val)
    }

    pub fn with_lenient<T: ToOptionVal>(self, val: T) -> (r: Self)
        ensures
            r.options.view_v() == self.options.view_v().push(("lenient"@, val.option_text())),
            r.keeps(self),
    {
        self.with_option("lenient", val)
    }

    pub fn with_analyze_wildcard<T: ToOptionVal>(self, val: T) -> (r: Self)
        ensures
            r.options.view_v() == self.options.view_v().push(("analyze_wildcard"@, val.option_text())),
            r.keeps(self),
    {
        self.with_option("analyze_wildcard", val)
    }

    pub fn with_terminate_after<T: ToOptionVal>(self, val: T) -> (r: Self)
        ensures
            r.options.view_v() == self.options.view_v().push(("terminate_after"@, val.option_text())),
            r.keeps(self),
    {
        self.with_option("terminate_after", val)
    }

    /// The count: `GET`.
    pub fn request(&self) -> (r: Request)
        ensures
            r.method == Method::Get,
            r.url@ == count_url_v(self.indexes@, self.doc_types@, self.options.view_v()),
            r.body is None,
    {
        Request { method: Method::Get, url: count_url(self.indexes, self.doc_types, &self.options), body: None }
    }
}

/// The body of a count by query: the query, when there is one.
#[derive(Debug)]
pub struct CountQueryOperationBody<'b> {
    pub query: Option<&'b Query>,
}

impl<'b> ToJson for CountQueryOperationBody<'b> {
    open spec fn json_v(&self) -> JsonV {
        JsonV::Object(opt_entry("query"@, match self.query { Some(q) => Some(query_v(*q)), None => None }))
    }

    fn to_json(&self) -> (r: Json) {
        let mut e: Vec<(String, Json)> = Vec::new();
        match self.query {
            Some(q) => push_entry(&mut e, "query", query_json(q)),
            None => {},
        }
        assert(entries_view(e@) =~= self.json_v()->Object_0);
        object(e)
    }
}

#[derive(Debug)]
pub struct CountQueryOperation<'b> {
    /// The indexes to which this query applies
    pub indexes: &'b [&'b str],
    /// The types to which the query applies
    pub doc_types: &'b [&'b str],
    /// Optionals
    pub options: Options<'b>,
    /// The query body
    pub body: CountQueryOperationBody<'b>,
}

impl<'b> CountQueryOperation<'b> {
    /// All but the options are the same.
    pub open spec fn keeps(self, other: Self) -> bool {
        self.indexes@ == other.indexes@ && self.doc_types@ == other.doc_types@ && self.body == other.body
    }

    pub fn new() -> (r: Self)
        ensures
            r.indexes@.len() == 0,
            r.doc_types@.len() == 0,
            r.options.view_v().len() == 0,
            r.body.query is None,
    {
        CountQueryOperation {
            indexes: &[],
            doc_types: &[],
            options: Options::new(),
            body: CountQueryOperationBody { query: None },
        }
    }

    pub fn with_indexes(self, indexes: &'b [&'b str]) -> (r: Self)
        ensures
            r == (CountQueryOperation { indexes, ..self }),
    {
        CountQueryOperation { indexes, ..self }
    }

    pub fn with_types(self, doc_types: &'b [&'b str]) -> (r: Self)
        ensures
            r == (CountQueryOperation { doc_types, ..self }),
    {
        CountQueryOperation { doc_types, ..self }
    }

    pub fn with_query(self, query: &'b Query) -> (r: Self)
        ensures
            r == (CountQueryOperation { body: CountQueryOperationBody { query: Some(query) }, ..self }),
    {
        CountQueryOperation { body: CountQueryOperationBody { query: Some(query) }, ..self }
    }

    /// Adds a query-string option.
    pub fn with_option<T: ToOptionVal>(self, key: &'b str, val: T) -> (r: Self)
        ensures
            r.options.view_v() == self.options.view_v().push((key@, val.option_text())),
            r.keeps(self),
    {
        let mut s = self;
        s.options.push(key, val);
        s
    }

    pub fn with_df<T: ToOptionVal>(self, val: T) -> (r: Self)
        ensures
            r.options.view_v() == self.options.view_v().push(("df"@, val.option_text())),
            r.keeps(self),
    {
        self.with_option("df", val)
    }

    pub fn with_analyzer<T: ToOptionVal>(self, val: T) -> (r: Self)
        ensures
            r.options.view_v() == self.options.view_v().push(("analyzer"@, val.option_text())),
            r.keeps(self),
    {
        self.with_option("analyzer", val)
    }

    pub fn with_default_operator<T: ToOptionVal>(self, val: T) -> (r: Self)
        ensures
            r.options.view_v() == self.options.view_v().push(("default_operator"@, val.option_text())),
            r.keeps(self),
    {
        self.with_option("default_operator", val)
    }

    pub fn with_lenient<T: ToOptionVal>(self, val: T) -> (r: Self)
        ensures
            r.options.view_v() == self.options.view_v().push(("lenient"@, val.option_text())),
            r.keeps(self),
    {
        self.with_option("lenient", val)
    }

    pub fn with_analyze_wildcard<T: ToOptionVal>(self, val: T) -> (r: Self)
        ensures
            r.options.view_v() == self.options.view_v().push(("analyze_wildcard"@, val.option_text())),
            r.keeps(self),
    {
        self.with_option("analyze_wildcard", val)
    }

    pub fn with_terminate_after<T: ToOptionVal>(self, val: T) -> (r: Self)
        ensures
            r.options.view_v() == self.options.view_v().push(("terminate_after"@, val.option_text())),
            r.keeps(self),
    {
        self.with_option("terminate_after", val)
    }

    /// The count: `POST`, with the body as JSON.
    pub fn request(&self) -> (r: Request)
        ensures
            r.method == Method::Post,
            r.url@ == count_url_v(self.indexes@, self.doc_types@, self.options.view_v()),
            r.body_v() == Some(json_text(self.body.json_v())),
    {
        let url = count_url(self.indexes, self.doc_types, &self.options);
        let b = self.body.to_json();
        Request { method: Method::Post, url, body: Some(to_json_string(&b)) }
    }
}

/// The result of a count.
#[derive(Debug, Clone, Copy, PartialEq, Eq)]
pub struct CountResult {
    pub count: u64,
    pub shards: super::super::ShardCountResult,
}

} // verus!
