//! Joining queries

use vstd::prelude::*;

use crate::json::{
    entries_view, jv, object, one_entry, opt_entry, opt_v, push_entry, push_field, Json, JsonV,
    ToJson,
};
use super::{query_json, query_v, Query, ScoreMode};

verus! {

/// Nested query
#[derive(Debug)]
pub struct NestedQuery {
    pub path: String,
    pub score_mode: Option<ScoreMode>,
    pub query: Query,
}

/// The JSON form of a `NestedQuery`.
pub open spec fn nested_query_v(s: NestedQuery) -> JsonV
    decreases s, 2nat,
{
    JsonV::Object(
        one_entry("path"@, s.path.json_v())
            + opt_entry("score_mode"@, opt_v(s.score_mode))
            + one_entry("query"@, query_v(s.query))
    )
}

/// Builds the JSON form of a `NestedQuery`.
pub fn nested_query_json(s: &NestedQuery) -> (r: Json)
    ensures
        jv(r) == nested_query_v(*s),
    decreases s, 2nat,
{
    let mut e: Vec<(String, Json)> = Vec::new();
    push_entry(&mut e, "path", s.path.to_json());
    push_field(&mut e, "score_mode", &s.score_mode);
    push_entry(&mut e, "query", query_json(&s.query));
    assert(entries_view(e@) =~= nested_query_v(*s)->Object_0);
    object(e)
}

impl NestedQuery {
    pub fn with_score_mode(self, val: ScoreMode) -> (r: Self)
        ensures
            r == (NestedQuery { score_mode: Some(val), ..self }),
    {
        let mut s = self;
        s.score_mode = Some(val);
        s
    }

}

impl NestedQuery {
    pub fn build(self) -> (r: Query)
        ensures
            r == Query::Nested(Box::new(self)),
    {
        Query::Nested(Box::new(self))
    }
}

impl Query {
    pub fn build_nested(path: &str, query: Query) -> (r: NestedQuery)
        ensures
            r.path@ == path@,
            r.query == query,
            r.score_mode is None,
    {
        NestedQuery { path: path.to_owned(), score_mode: None, query }
    }
}

/// Has Child query
#[derive(Debug)]
pub struct HasChildQuery {
    pub doc_type: String,
    pub query: Query,
    pub score_mode: Option<ScoreMode>,
    pub min_children: Option<u64>,
    pub max_children: Option<u64>,
    pub inner_hits: Option<Json>,
}

/// The JSON form of a `HasChildQuery`.
pub open spec fn has_child_query_v(s: HasChildQuery) -> JsonV
    decreases s, 2nat,
{
    JsonV::Object(
        one_entry("type"@, s.doc_type.json_v())
            + one_entry("query"@, query_v(s.query))
            + opt_entry("score_mode"@, opt_v(s.score_mode))
            + opt_entry("min_children"@, opt_v(s.min_children))
            + opt_entry("max_children"@, opt_v(s.max_children))
            + opt_entry("inner_hits"@, opt_v(s.inner_hits))
    )
}

/// Builds the JSON form of a `HasChildQuery`.
pub fn has_child_query_json(s: &HasChildQuery) -> (r: Json)
    ensures
        jv(r) == has_child_query_v(*s),
    decreases s, 2nat,
{
    let mut e: Vec<(String, Json)> = Vec::new();
    push_entry(&mut e, "type", s.doc_type.to_json());
    push_entry(&mut e, "query", query_json(&s.query));
    push_field(&mut e, "score_mode", &s.score_mode);
    push_field(&mut e, "min_children", &s.min_children);
    push_field(&mut e, "max_children", &s.max_children);
    push_field(&mut e, "inner_hits", &s.inner_hits);
    assert(entries_view(e@) =~= has_child_query_v(*s)->Object_0);
    object(e)
}

impl HasChildQuery {
    pub fn with_score_mode(self, val: ScoreMode) -> (r: Self)
        ensures
            r == (HasChildQuery { score_mode: Some(val), ..self }),
    {
        let mut s = self;
        s.score_mode = Some(val);
        s
    }

    pub fn with_min_children(self, val: u64) -> (r: Self)
        ensures
            r == (HasChildQuery { min_children: Some(val), ..self }),
    {
        let mut s = self;
        s.min_children = Some(val);
        s
    }

    pub fn with_max_children(self, val: u64) -> (r: Self)
        ensures
            r == (HasChildQuery { max_children: Some(val), ..self }),
    {
        let mut s = self;
        s.max_children = Some(val);
        s
    }

    pub fn with_inner_hits(self, val: Json) -> (r: Self)
        ensures
            r == (HasChildQuery { inner_hits: Some(val), ..self }),
    {
        let mut s = self;
        s.inner_hits = Some(val);
        s
    }

}

impl HasChildQuery {
    pub fn build(self) -> (r: Query)
        ensures
            r == Query::HasChild(Box::new(self)),
    {
        Query::HasChild(Box::new(self))
    }
}

/// Has Parent query
#[derive(Debug)]
pub struct HasParentQuery {
    pub parent_type: String,
    pub query: Query,
    pub score_mode: Option<ScoreMode>,
}

/// The JSON form of a `HasParentQuery`.
pub open spec fn has_parent_query_v(s: HasParentQuery) -> JsonV
    decreases s, 2nat,
{
    JsonV::Object(
        one_entry("parent_type"@, s.parent_type.json_v())
            + one_entry("query"@, query_v(s.query))
            + opt_entry("score_mode"@, opt_v(s.score_mode))
    )
}

/// Builds the JSON form of a `HasParentQuery`.
pub fn has_parent_query_json(s: &HasParentQuery) -> (r: Json)
    ensures
        jv(r) == has_parent_query_v(*s),
    decreases s, 2nat,
{
    let mut e: Vec<(String, Json)> = Vec::new();
    push_entry(&mut e, "parent_type", s.parent_type.to_json());
    push_entry(&mut e, "query", query_json(&s.query));
    push_field(&mut e, "score_mode", &s.score_mode);
    assert(entries_view(e@) =~= has_parent_query_v(*s)->Object_0);
    object(e)
}

impl HasParentQuery {
    pub fn with_score_mode(self, val: ScoreMode) -> (r: Self)
        ensures
            r == (HasParentQuery { score_mode: Some(val), ..self }),
    {
        let mut s = self;
        s.score_mode = Some(val);
        s
    }

}

impl HasParentQuery {
    pub fn build(self) -> (r: Query)
        ensures
            r == Query::HasParent(Box::new(self)),
    {
        Query::HasParent(Box::new(self))
    }
}

impl Query {
    pub fn build_has_child(doc_type: &str, query: Query) -> (r: HasChildQuery)
        ensures
            r == (HasChildQuery { doc_type: r.doc_type, query: query, score_mode: None, min_children: None, max_children: None, inner_hits: None }),
            r.doc_type@ == doc_type@,
    {
        HasChildQuery { doc_type: doc_type.to_owned(), query: query, score_mode: None, min_children: None, max_children: None, inner_hits: None }
    }

    pub fn build_has_parent(parent_type: &str, query: Query) -> (r: HasParentQuery)
        ensures
            r.parent_type@ == parent_type@,
            r.query == query,
            r.score_mode is None,
    {
        HasParentQuery { parent_type: parent_type.to_owned(), query, score_mode: None }
    }
}

} // verus!
