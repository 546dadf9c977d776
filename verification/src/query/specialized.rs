//! Specialised queries

use vstd::prelude::*;

use crate::json::{
    entries_view, inclusion_key, inclusion_key_string, object, one_entry, opt_entry, opt_v, push_entry,
    push_entry_owned, push_field, Decimal, Json, JsonV, ToJson,
};
use super::{MinimumShouldMatch, Query};

verus! {

/// A document can be provided as an example
#[derive(Debug)]
pub struct Doc {
    pub index: String,
    pub doc_type: String,
    pub doc: Option<Json>,
    pub id: Option<String>,
}

impl ToJson for Doc {
    open spec fn json_v(&self) -> JsonV {
        JsonV::Object(
            one_entry("_index"@, self.index.json_v())
            + one_entry("_type"@, self.doc_type.json_v())
            + opt_entry("doc"@, opt_v(self.doc))
            + opt_entry("_id"@, opt_v(self.id))
        )
    }

    fn to_json(&self) -> (r: Json) {
        let mut e: Vec<(String, Json)> = Vec::new();
        push_entry(&mut e, "_index", self.index.to_json());
        push_entry(&mut e, "_type", self.doc_type.to_json());
        push_field(&mut e, "doc", &self.doc);
        push_field(&mut e, "_id", &self.id);
        assert(entries_view(e@) =~= self.json_v()->Object_0);
        object(e)
    }
}

impl Doc {
    pub fn from_doc(index: &str, doc_type: &str, doc: Json) -> (r: Doc)
        ensures
            r.index@ == index@,
            r.doc_type@ == doc_type@,
            r.doc == Some(doc),
            r.id is None,
    {
        Doc { index: index.to_owned(), doc_type: doc_type.to_owned(), doc: Some(doc), id: None }
    }

    pub fn id(index: &str, doc_type: &str, id: &str) -> (r: Doc)
        ensures
            r.index@ == index@,
            r.doc_type@ == doc_type@,
            r.doc is None,
            r.id is Some,
            r.id.unwrap()@ == id@,
    {
        Doc { index: index.to_owned(), doc_type: doc_type.to_owned(), doc: None, id: Some(id.to_owned()) }
    }
}

/// More like this query
#[derive(Debug)]
pub struct MoreLikeThisQuery {
    pub fields: Option<Vec<String>>,
    pub like_text: Option<String>,
    pub ids: Option<Vec<String>>,
    pub docs: Option<Vec<Doc>>,
    pub max_query_terms: Option<u64>,
    pub min_term_freq: Option<u64>,
    pub min_doc_freq: Option<u64>,
    pub max_doc_freq: Option<u64>,
    pub min_word_length: Option<u64>,
    pub max_word_length: Option<u64>,
    pub stop_words: Option<Vec<String>>,
    pub analyzer: Option<String>,
    pub minimum_should_match: Option<MinimumShouldMatch>,
    pub boost_terms: Option<Decimal>,
    pub include_input: Option<bool>,
    pub boost: Option<Decimal>,
}

impl ToJson for MoreLikeThisQuery {
    open spec fn json_v(&self) -> JsonV {
        JsonV::Object(
            opt_entry("fields"@, opt_v(self.fields))
            + opt_entry("like_text"@, opt_v(self.like_text))
            + opt_entry("ids"@, opt_v(self.ids))
            + opt_entry("docs"@, opt_v(self.docs))
            + opt_entry("max_query_terms"@, opt_v(self.max_query_terms))
            + opt_entry("min_term_freq"@, opt_v(self.min_term_freq))
            + opt_entry("min_doc_freq"@, opt_v(self.min_doc_freq))
            + opt_entry("max_doc_freq"@, opt_v(self.max_doc_freq))
            + opt_entry("min_word_length"@, opt_v(self.min_word_length))
            + opt_entry("max_word_length"@, opt_v(self.max_word_length))
            + opt_entry("stop_words"@, opt_v(self.stop_words))
            + opt_entry("analyzer"@, opt_v(self.analyzer))
            + opt_entry("minimum_should_match"@, opt_v(self.minimum_should_match))
            + opt_entry("boost_terms"@, opt_v(self.boost_terms))
            + opt_entry(inclusion_key(), opt_v(self.include_input))
            + opt_entry("boost"@, opt_v(self.boost))
        )
    }

    fn to_json(&self) -> (r: Json) {
        let mut e: Vec<(String, Json)> = Vec::new();
        push_field(&mut e, "fields", &self.fields);
        push_field(&mut e, "like_text", &self.like_text);
        push_field(&mut e, "ids", &self.ids);
        push_field(&mut e, "docs", &self.docs);
        push_field(&mut e, "max_query_terms", &self.max_query_terms);
        push_field(&mut e, "min_term_freq", &self.min_term_freq);
        push_field(&mut e, "min_doc_freq", &self.min_doc_freq);
        push_field(&mut e, "max_doc_freq", &self.max_doc_freq);
        push_field(&mut e, "min_word_length", &self.min_word_length);
        push_field(&mut e, "max_word_length", &self.max_word_length);
        push_field(&mut e, "stop_words", &self.stop_words);
        push_field(&mut e, "analyzer", &self.analyzer);
        push_field(&mut e, "minimum_should_match", &self.minimum_should_match);
        push_field(&mut e, "boost_terms", &self.boost_terms);
        match &self.include_input {
            Some(b) => push_entry_owned(&mut e, inclusion_key_string(), Json::Bool(*b)),
            None => {},
        }
        push_field(&mut e, "boost", &self.boost);
        assert(entries_view(e@) =~= self.json_v()->Object_0);
        object(e)
    }
}

impl MoreLikeThisQuery {
    pub fn with_fields(self, val: Vec<String>) -> (r: Self)
        ensures
            r == (MoreLikeThisQuery { fields: Some(val), ..self }),
    {
        let mut s = self;
        s.fields = Some(val);
        s
    }

    pub fn with_like_text(self, val: &str) -> (r: Self)
        ensures
            r.like_text is Some,
            r.like_text.unwrap()@ == val@,
            r == (MoreLikeThisQuery { like_text: r.like_text, ..self }),
    {
        let mut s = self;
        s.like_text = Some(val.to_owned());
        s
    }

    pub fn with_ids(self, val: Vec<String>) -> (r: Self)
        ensures
            r == (MoreLikeThisQuery { ids: Some(val), ..self }),
    {
        let mut s = self;
        s.ids = Some(val);
        s
    }

    pub fn with_docs(self, val: Vec<Doc>) -> (r: Self)
        ensures
            r == (MoreLikeThisQuery { docs: Some(val), ..self }),
    {
        let mut s = self;
        s.docs = Some(val);
        s
    }

    pub fn with_max_query_terms(self, val: u64) -> (r: Self)
        ensures
            r == (MoreLikeThisQuery { max_query_terms: Some(val), ..self }),
    {
        let mut s = self;
        s.max_query_terms = Some(val);
        s
    }

    pub fn with_min_term_freq(self, val: u64) -> (r: Self)
        ensures
            r == (MoreLikeThisQuery { min_term_freq: Some(val), ..self }),
    {
        let mut s = self;
        s.min_term_freq = Some(val);
        s
    }

    pub fn with_min_doc_freq(self, val: u64) -> (r: Self)
        ensures
            r == (MoreLikeThisQuery { min_doc_freq: Some(val), ..self }),
    {
        let mut s = self;
        s.min_doc_freq = Some(val);
        s
    }

    pub fn with_max_doc_freq(self, val: u64) -> (r: Self)
        ensures
            r == (MoreLikeThisQuery { max_doc_freq: Some(val), ..self }),
    {
        let mut s = self;
        s.max_doc_freq = Some(val);
        s
    }

    pub fn with_min_word_length(self, val: u64) -> (r: Self)
        ensures
            r == (MoreLikeThisQuery { min_word_length: Some(val), ..self }),
    {
        let mut s = self;
        s.min_word_length = Some(val);
        s
    }

    pub fn with_max_word_length(self, val: u64) -> (r: Self)
        ensures
            r == (MoreLikeThisQuery { max_word_length: Some(val), ..self }),
    {
        let mut s = self;
        s.max_word_length = Some(val);
        s
    }

    pub fn with_stop_words(self, val: Vec<String>) -> (r: Self)
        ensures
            r == (MoreLikeThisQuery { stop_words: Some(val), ..self }),
    {
        let mut s = self;
        s.stop_words = Some(val);
        s
    }

    pub fn with_analyzer(self, val: &str) -> (r: Self)
        ensures
            r.analyzer is Some,
            r.analyzer.unwrap()@ == val@,
            r == (MoreLikeThisQuery { analyzer: r.analyzer, ..self }),
    {
        let mut s = self;
        s.analyzer = Some(val.to_owned());
        s
    }

    pub fn with_minimum_should_match(self, val: MinimumShouldMatch) -> (r: Self)
        ensures
            r == (MoreLikeThisQuery { minimum_should_match: Some(val), ..self }),
    {
        let mut s = self;
        s.minimum_should_match = Some(val);
        s
    }

    pub fn with_boost_terms(self, val: Decimal) -> (r: Self)
        ensures
            r == (MoreLikeThisQuery { boost_terms: Some(val), ..self }),
    {
        let mut s = self;
        s.boost_terms = Some(val);
        s
    }

    pub fn with_include(self, val: bool) -> (r: Self)
        ensures
            r == (MoreLikeThisQuery { include_input: Some(val), ..self }),
    {
        let mut s = self;
        s.include_input = Some(val);
        s
    }

    pub fn with_boost(self, val: Decimal) -> (r: Self)
        ensures
            r == (MoreLikeThisQuery { boost: Some(val), ..self }),
    {
        let mut s = self;
        s.boost = Some(val);
        s
    }

}

impl MoreLikeThisQuery {
    pub fn build(self) -> (r: Query)
        ensures
            r == Query::MoreLikeThis(Box::new(self)),
    {
        Query::MoreLikeThis(Box::new(self))
    }
}

impl Query {
    pub fn build_more_like_this() -> (r: MoreLikeThisQuery)
        ensures
            r == (MoreLikeThisQuery { fields: None, like_text: None, ids: None, docs: None, max_query_terms: None, min_term_freq: None, min_doc_freq: None, max_doc_freq: None, min_word_length: None, max_word_length: None, stop_words: None, analyzer: None, minimum_should_match: None, boost_terms: None, include_input: None, boost: None }),
    {
        MoreLikeThisQuery { fields: None, like_text: None, ids: None, docs: None, max_query_terms: None, min_term_freq: None, min_doc_freq: None, max_doc_freq: None, min_word_length: None, max_word_length: None, stop_words: None, analyzer: None, minimum_should_match: None, boost_terms: None, include_input: None, boost: None }
    }
}

} // verus!
