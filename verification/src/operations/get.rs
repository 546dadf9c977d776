//! Implementation of ElasticSearch Get operation

use vstd::prelude::*;

use super::common::{OptionVal, Options, ToOptionVal};
use super::{names_v, Method, Request};
use crate::json::seq_join;
use crate::util::{lemma_str_join_single_char, StrJoin};

verus! {

#[derive(Debug, Clone, Copy, PartialEq, Eq)]
pub enum Preference {
    Primary,
    Local,
}

/// Law: each value is written as a query-string option by its ElasticSearch name (`_primary`,
/// `_local`, in the order of the variants), and different values are written differently.
pub proof fn lemma_preference_option_names(x: Preference)
    ensures
        x is Primary ==> x.option_text() == "_primary"@,
        x is Local ==> x.option_text() == "_local"@,
        forall|a: Preference, b: Preference| a != b ==> #[trigger] a.option_text() != #[trigger] b.option_text(),
{
    reveal_strlit("_local");
    assert("_local"@.len() == 6 && "_local"@[0] == '_' && "_local"@[1] == 'l' && "_local"@[2] == 'o' && "_local"@[3] == 'c' && "_local"@[4] == 'a' && "_local"@[5] == 'l');
    reveal_strlit("_primary");
    assert("_primary"@.len() == 8 && "_primary"@[0] == '_' && "_primary"@[1] == 'p' && "_primary"@[2] == 'r' && "_primary"@[3] == 'i' && "_primary"@[4] == 'm' && "_primary"@[5] == 'a' && "_primary"@[6] == 'r' && "_primary"@[7] == 'y');
}

impl ToOptionVal for Preference {
    open spec fn option_text(&self) -> Seq<char> {
        match self {
            Preference::Primary => "_primary"@,
            Preference::Local => "_local"@,
        }
    }

    fn to_option_val(&self) -> (r: OptionVal) {
        OptionVal(
            match self {
                Preference::Primary => "_primary".to_owned(),
                Preference::Local => "_local".to_owned(),
            },
        )
    }
}

/// A comma-separated list of names, as an option value.
pub fn comma_list(fields: &[&str]) -> (r: String)
    ensures
        r@ == seq_join(names_v(fields@), seq![',']),
{
    let v: Vec<&str> = vstd::slice::slice_to_vec(fields);
    assert(v.parts_v() =~= names_v(fields@));
    let r = StrJoin::join(&v, ",");
    proof {
        reveal_strlit(",");
        assert(","@ =~= seq![',']);
        lemma_str_join_single_char(names_v(fields@), ',');
    }
    r
}

/// A get-document operation.
#[derive(Debug)]
pub struct GetOperation<'b> {
    pub index: &'b str,
    pub doc_type: Option<&'b str>,
    pub id: &'b str,
    pub options: Options<'b>,
}

impl<'b> GetOperation<'b> {
    /// All but the options are the same.
    pub open spec fn keeps(self, other: Self) -> bool {
        self.index == other.index && self.doc_type == other.doc_type && self.id == other.id
    }

    pub fn new(index: &'b str, id: &'b str) -> (r: Self)
        ensures
            r.index == index,
            r.id == id,
            r.doc_type is None,
            r.options.view_v().len() == 0,
    {
        GetOperation { index, doc_type: None, id, options: Options::new() }
    }

    pub fn with_all_types(self) -> (r: Self)
        ensures
            r.doc_type == Some("_all"),
            r.index == self.index,
            r.id == self.id,
            r.options == self.options,
    {
        GetOperation { doc_type: Some("_all"), ..self }
    }

    pub fn with_doc_type(self, doc_type: &'b str) -> (r: Self)
        ensures
            r.doc_type == Some(doc_type),
            r.index == self.index,
            r.id == self.id,
            r.options == self.options,
    {
        GetOperation { doc_type: Some(doc_type), ..self }
    }

    pub fn with_fields(self, fields: &[&str]) -> (r: Self)
        ensures
            r.options.view_v() == self.options.view_v().push(("fields"@, seq_join(names_v(fields@), seq![',']))),
            r.keeps(self),
    {
        let mut s = self;
        let f = comma_list(fields);
        s.options.push("fields", f);
        s
    }

    /// Adds a query-string option.
    pub fn with_option<T: ToOptionVal>(self, key: &'b str, val: T) -> (r: Self)
        ensures
            r.options.view_v() == self.options.view_v().push((key@, val.option_text())),
            r.keeps(self),
    {
        let mut s = self;
        s.options.push(key, val);
        s
    }

    pub fn with_realtime<T: ToOptionVal>(self, val: T) -> (r: Self)
        ensures
            r.options.view_v() == self.options.view_v().push(("realtime"@, val.option_text())),
            r.keeps(self),
    {
        self.with_option("realtime", val)
    }

    pub fn with_source<T: ToOptionVal>(self, val: T) -> (r: Self)
        ensures
            r.options.view_v() == self.options.view_v().push(("_source"@, val.option_text())),
            r.keeps(self),
    {
        self.with_option("_source", val)
    }

    pub fn with_routing<T: ToOptionVal>(self, val: T) -> (r: Self)
        ensures
            r.options.view_v() == self.options.view_v().push(("routing"@, val.option_text())),
            r.keeps(self),
    {
        self.with_option("routing", val)
    }

    pub fn with_preference<T: ToOptionVal>(self, val: T) -> (r: Self)
        ensures
            r.options.view_v() == self.options.view_v().push(("preference"@, val.option_text())),
            r.keeps(self),
    {
        self.with_option("preference", val)
    }

    pub fn with_refresh<T: ToOptionVal>(self, val: T) -> (r: Self)
        ensures
            r.options.view_v() == self.options.view_v().push(("refresh"@, val.option_text())),
            r.keeps(self),
    {
        self.with_option("refresh", val)
    }

    pub fn with_version<T: ToOptionVal>(self, val: T) -> (r: Self)
        ensures
            r.options.view_v() == self.options.view_v().push(("version"@, val.option_text())),
            r.keeps(self),
    {
        self.with_option("version", val)
    }

    pub fn with_version_type<T: ToOptionVal>(self, val: T) -> (r: Self)
        ensures
            r.options.view_v() == self.options.view_v().push(("version_type"@, val.option_text())),
            r.keeps(self),
    {
        self.with_option("version_type", val)
    }

    /// The document type in the path: the one given, else `_all` (a document
    /// of any type).
    pub open spec fn type_v(&self) -> Seq<char> {
        match self.doc_type {
            Some(t) => t@,
            None => "_all"@,
        }
    }

    /// `/{index}/{type}/{id}{options}`.
    pub open spec fn url_v(&self) -> Seq<char> {
        "/"@ + self.index@ + "/"@ + self.type_v() + "/"@ + self.id@ + crate::operations::common::options_text(self.options.view_v())
    }

    pub fn request(&self) -> (r: Request)
        ensures
            r.method == Method::Get,
            r.url@ == self.url_v(),
            r.body is None,
    {
        let mut url = "/".to_owned();
        url.append(self.index);
        url.append("/");
        match self.doc_type {
            Some(t) => url.append(t),
            None => url.append("_all"),
        }
        url.append("/");
        url.append(self.id);
        let o = self.options.to_string();
        url.append(o.as_str());
        assert(url@ =~= self.url_v());
        Request { method: Method::Get, url, body: None }
    }
}

/// The result of a GET request
#[derive(Debug)]
pub struct GetResult<T> {
    pub index: String,
    pub doc_type: String,
    pub id: String,
    pub version: Option<u64>,
    pub found: bool,
    pub source: Option<T>,
}

} // verus!
