//! Implementation of ElasticSearch Mapping operation
//!
//! The operation is a short sequence of requests; the client sends them in
//! order.

use vstd::prelude::*;

use crate::json::{
    entries_view, json_clone, json_text, jv, map_insert, object, one_entry, push_entry, push_entry_owned,
    to_json_string, Json, JsonV, KeyedMap, ToJson,
};
use super::{Method, Request};

verus! {

/// The options of one field of a document type, such as `"type"`.
pub type FieldOptions = KeyedMap<String>;

/// The fields of a document type, each with its options.
pub type DocType = KeyedMap<FieldOptions>;

/// The document types of an index, each with its fields.
pub type Mapping = KeyedMap<DocType>;

/// The analysis settings of an index: objects of filters, analyzers,
/// tokenizers and character filters.
#[derive(Debug)]
pub struct Analysis {
    pub filter: Vec<(String, Json)>,
    pub analyzer: Vec<(String, Json)>,
    pub tokenizer: Vec<(String, Json)>,
    pub char_filter: Vec<(String, Json)>,
}

/// Copies of the entries of an object.
fn clone_entries(v: &Vec<(String, Json)>) -> (r: Vec<(String, Json)>)
    ensures
        entries_view(r@) == entries_view(v@),
{
    let mut out: Vec<(String, Json)> = Vec::new();
    let mut i: usize = 0;
    while i < v.len()
        invariant
            i <= v@.len(),
            entries_view(out@) =~= entries_view(v@).subrange(0, i as int),
        decreases v.len() - i,
    {
        let k = v[i].0.clone();
        let j = json_clone(&v[i].1);
        push_entry_owned(&mut out, k, j);
        i = i + 1;
    }
    out
}

impl ToJson for Analysis {
    open spec fn json_v(&self) -> JsonV {
        JsonV::Object(
            one_entry("filter"@, JsonV::Object(entries_view(self.filter@)))
                + one_entry("analyzer"@, JsonV::Object(entries_view(self.analyzer@)))
                + one_entry("tokenizer"@, JsonV::Object(entries_view(self.tokenizer@)))
                + one_entry("char_filter"@, JsonV::Object(entries_view(self.char_filter@))),
        )
    }

    fn to_json(&self) -> (r: Json) {
        let mut e: Vec<(String, Json)> = Vec::new();
        push_entry(&mut e, "filter", object(clone_entries(&self.filter)));
        push_entry(&mut e, "analyzer", object(clone_entries(&self.analyzer)));
        push_entry(&mut e, "tokenizer", object(clone_entries(&self.tokenizer)));
        push_entry(&mut e, "char_filter", object(clone_entries(&self.char_filter)));
        assert(entries_view(e@) =~= self.json_v()->Object_0);
        object(e)
    }
}

/// The settings of an index.
#[derive(Debug)]
pub struct Settings {
    pub number_of_shards: u32,
    pub analysis: Analysis,
}

impl ToJson for Settings {
    open spec fn json_v(&self) -> JsonV {
        JsonV::Object(
            one_entry("number_of_shards"@, JsonV::Int(self.number_of_shards as int))
                + one_entry("analysis"@, self.analysis.json_v()),
        )
    }

    fn to_json(&self) -> (r: Json) {
        let mut e: Vec<(String, Json)> = Vec::new();
        push_entry(&mut e, "number_of_shards", Json::UInt(self.number_of_shards as u64));
        push_entry(&mut e, "analysis", self.analysis.to_json());
        assert(entries_view(e@) =~= self.json_v()->Object_0);
        object(e)
    }
}

/// A map with one entry.
pub fn hashmap<V>(k: &str, v: V) -> (r: KeyedMap<V>)
    ensures
        r.view_v() == seq![(k@, v)],
        crate::json::keys_distinct(r.view_v()),
{
    let mut m = KeyedMap::new();
    m.insert(k.to_owned(), v);
    assert(m.view_v() =~= seq![(k@, v)]);
    m
}

/// A map with two entries; when the keys are the same, the second value
/// replaces the first.
pub fn hashmap2<V>(k1: &str, v1: V, k2: &str, v2: V) -> (r: KeyedMap<V>)
    ensures
        r.view_v() == map_insert(seq![(k1@, v1)], k2@, v2),
        crate::json::keys_distinct(r.view_v()),
{
    let mut m = hashmap(k1, v1);
    m.insert(k2.to_owned(), v2);
    m
}

/// The JSON form of the mappings built from document types: each type's
/// fields under `"properties"`.
pub open spec fn mapping_v(m: Seq<(Seq<char>, DocType)>) -> JsonV {
    JsonV::Object(Seq::new(m.len(), |i: int| (m[i].0, JsonV::Object(one_entry("properties"@, m[i].1.json_v())))))
}

/// A request the operation makes, and whether its failure ends the operation.
#[derive(Debug)]
pub struct Step {
    pub request: Request,
    pub must_succeed: bool,
}

/// The result of a mapping operation
#[derive(Debug, Clone, Copy)]
pub struct MappingResult;

/// An operation that creates an index with settings, or puts mappings (and
/// settings) on it.
#[derive(Debug)]
pub struct MappingOperation<'b> {
    /// The index that will be created and eventually mapped
    pub index: &'b str,
    /// The doc types and their mapping, as JSON
    pub mappings: Option<Json>,
    /// The settings that enable the customization of analyzers
    pub settings: Option<&'b Settings>,
}

/// `POST {index}/_open`: opens the index, making it available.
pub fn open_index_request(index: &str) -> (r: Request)
    ensures
        r.method == Method::Post,
        r.url@ == index@ + "/_open"@,
        r.body is None,
{
    let mut url = index.to_owned();
    url.append("/_open");
    Request { method: Method::Post, url, body: None }
}

/// `POST {index}/_close`: closes the index, making it unavailable and
/// modifiable.
pub fn close_index_request(index: &str) -> (r: Request)
    ensures
        r.method == Method::Post,
        r.url@ == index@ + "/_close"@,
        r.body is None,
{
    let mut url = index.to_owned();
    url.append("/_close");
    Request { method: Method::Post, url, body: None }
}

/// `GET _cluster/health?wait_for_status={status}&timeout={timeout}`
pub fn wait_for_status_request(status: &str, timeout: &str) -> (r: Request)
    ensures
        r.method == Method::Get,
        r.url@ == "_cluster/health?wait_for_status="@ + status@ + "&timeout="@ + timeout@,
        r.body is None,
{
    let mut url = "_cluster/health?wait_for_status=".to_owned();
    url.append(status);
    url.append("&timeout=");
    url.append(timeout);
    Request { method: Method::Get, url, body: None }
}

impl<'b> MappingOperation<'b> {
    pub fn new(index: &'b str) -> (r: MappingOperation<'b>)
        ensures
            r.index == index,
            r.mappings is None,
            r.settings is None,
    {
        MappingOperation { index, mappings: None, settings: None }
    }

    /// Sets the mappings from document types: each type's fields under
    /// `"properties"`.
    pub fn with_mapping(self, mapping: &Mapping) -> (r: Self)
        ensures
            r.index == self.index,
            r.settings == self.settings,
            r.mappings matches Some(m) && jv(m) == mapping_v(mapping.view_v()),
    {
        let mut e: Vec<(String, Json)> = Vec::new();
        let mut i: usize = 0;
        while i < mapping.0.len()
            invariant
                i <= mapping.0@.len(),
                entries_view(e@) =~= mapping_v(mapping.view_v())->Object_0.subrange(0, i as int),
            decreases mapping.0.len() - i,
        {
            let d = mapping.0[i].1.to_json();
            let props = hashmap("properties", d);
            let p = props.to_json();
            assert(props.view_v()[0] == ("properties"@, d));
            assert(props.view_v().len() == 1);
            assert(props.0@.len() == 1);
            assert(props.view_v()[0] == (props.0@[0].0@, props.0@[0].1));
            assert(jv(p)->Object_0 =~= one_entry("properties"@, mapping.0@[i as int].1.json_v()));
            push_entry_owned(&mut e, mapping.0[i].0.clone(), p);
            i = i + 1;
        }
        assert(entries_view(e@) =~= mapping_v(mapping.view_v())->Object_0);
        MappingOperation { mappings: Some(object(e)), ..self }
    }

    /// Set the actual mapping
    pub fn with_mappings(self, mappings: Json) -> (r: Self)
        ensures
            r == (MappingOperation { mappings: Some(mappings), ..self }),
    {
        MappingOperation { mappings: Some(mappings), ..self }
    }

    /// Set the settings
    pub fn with_settings(self, settings: &'b Settings) -> (r: Self)
        ensures
            r == (MappingOperation { settings: Some(settings), ..self }),
    {
        MappingOperation { settings: Some(settings), ..self }
    }

    /// The JSON body that puts the mappings: `{"mappings": .., "settings": ..}`
    /// (the settings when there are some).
    pub open spec fn mappings_body_v(m: JsonV, settings: Option<&Settings>) -> JsonV {
        JsonV::Object(
            one_entry("mappings"@, m) + match settings {
                Some(s) => one_entry("settings"@, s.json_v()),
                None => Seq::empty(),
            },
        )
    }

    /// The requests of the operation, in order.  With neither mappings nor
    /// settings there are none.  With settings alone: create the index with
    /// them, then wait for the cluster to be yellow (five seconds at most).
    /// With mappings: close the index, put the mappings (and settings), open
    /// the index.  Only a failure to create the index or put the mappings
    /// ends the operation with an error.
    pub fn steps(&self) -> (r: Vec<Step>)
        ensures
            self.mappings is None && self.settings is None ==> r@.len() == 0,
            self.mappings is None && self.settings is Some ==> {
                &&& r@.len() == 2
                &&& r@[0].request.method == Method::Put
                &&& r@[0].request.url@ == self.index@
                &&& r@[0].request.body_v() == Some(
                    json_text(JsonV::Object(one_entry("settings"@, self.settings->Some_0.json_v()))),
                )
                &&& r@[0].must_succeed
                &&& r@[1].request.method == Method::Get
                &&& r@[1].request.url@ == "_cluster/health?wait_for_status=yellow&timeout=5s"@
                &&& r@[1].request.body is None
                &&& !r@[1].must_succeed
            },
            self.mappings matches Some(m) ==> {
                &&& r@.len() == 3
                &&& r@[0].request.method == Method::Post
                &&& r@[0].request.url@ == self.index@ + "/_close"@
                &&& !r@[0].must_succeed
                &&& r@[1].request.method == Method::Put
                &&& r@[1].request.url@ == self.index@
                &&& r@[1].request.body_v() == Some(json_text(Self::mappings_body_v(jv(m), self.settings)))
                &&& r@[1].must_succeed
                &&& r@[2].request.method == Method::Post
                &&& r@[2].request.url@ == self.index@ + "/_open"@
                &&& !r@[2].must_succeed
            },
    {
        let mut steps: Vec<Step> = Vec::new();
        match &self.mappings {
            None => {
                match self.settings {
                    None => {},
                    Some(settings) => {
                        let sj = settings.to_json();
                        let body = hashmap("settings", sj);
                        let b = body.to_json();
                        assert(body.view_v()[0] == ("settings"@, sj));
                        assert(body.view_v().len() == 1);
                        assert(body.0@.len() == 1);
                        assert(body.view_v()[0] == (body.0@[0].0@, body.0@[0].1));
                        assert(jv(b)->Object_0 =~= one_entry("settings"@, settings.json_v()));
                        let put = Request { method: Method::Put, url: self.index.to_owned(), body: Some(to_json_string(&b)) };
                        steps.push(Step { request: put, must_succeed: true });
                        let wait = wait_for_status_request("yellow", "5s");
                        proof {
                            reveal_strlit("_cluster/health?wait_for_status=");
                            reveal_strlit("yellow");
                            reveal_strlit("&timeout=");
                            reveal_strlit("5s");
                            reveal_strlit("_cluster/health?wait_for_status=yellow&timeout=5s");
                        }
                        assert(wait.url@ =~= "_cluster/health?wait_for_status=yellow&timeout=5s"@);
                        steps.push(Step { request: wait, must_succeed: false });
                    },
                }
            },
            Some(mappings) => {
                steps.push(Step { request: close_index_request(self.index), must_succeed: false });
                let mut e: Vec<(String, Json)> = Vec::new();
                push_entry(&mut e, "mappings", json_clone(mappings));
                match self.settings {
                    Some(settings) => push_entry(&mut e, "settings", settings.to_json()),
                    None => {},
                }
                assert(entries_view(e@) =~= Self::mappings_body_v(jv(*mappings), self.settings)->Object_0);
                let b = object(e);
                let put = Request { method: Method::Put, url: self.index.to_owned(), body: Some(to_json_string(&b)) };
                steps.push(Step { request: put, must_succeed: true });
                steps.push(Step { request: open_index_request(self.index), must_succeed: false });
            },
        }
        steps
    }
}

} // verus!
