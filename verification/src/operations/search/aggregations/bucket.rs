//! Bucket-based aggregations

use vstd::prelude::*;

use core::marker::PhantomData;

use crate::json::{
    entries_view, inclusion_key, inclusion_key_string, list_v, object, one_entry, opt_entry, opt_v, push_entry,
    push_entry_owned, push_field, slice_json, str_json, Decimal, Json, JsonV, KeyedMap, MergeSerialize, ToJson,
};
use crate::query::{query_json, query_v, Query};
use crate::units::{DistanceType, DistanceUnit, Duration, JsonVal, Location, OneOrMany};
use crate::error::EsError;
use crate::json::{elems_view, get_v, json_array, json_get, json_object, jv};
use super::common::{Agg, Script};
use super::{
    dec_field, extract_aggs, jsonval_ok, no_field, opt_dec_is, opt_dec_ok, opt_str_is, opt_str_ok, optjv_is,
    optjv_ok, read_key, read_opt_decimal, read_opt_jsonval, read_opt_string, read_string, read_u64, str_field,
    sub_readable, sub_reads, u64_field, all_true, is_error, Aggregation, AggregationResult, Aggregations,
    AggregationsResult, first_error, u64_error, str_error, opt_dec_error, opt_str_error, optjv_error, key_error,
    sub_error, first_false, lemma_first_false, lemma_first_false_none, no_field_msg,
};

verus! {

/// How a terms aggregation is to be executed.
#[derive(Debug, Clone, Copy, PartialEq, Eq)]
pub enum ExecutionHint {
    MapBased,
    GlobalOrdinalsLowCardinality,
    GlobalOrdinals,
    GlobalOrdinalsHash,
}

/// Law: each value is written in JSON by its ElasticSearch name (`map`,
/// `global_ordinals_low_cardinality`, `global_ordinals`, `global_ordinals_hash`, in the order
/// of the variants), and different values are written differently.
pub proof fn lemma_execution_hint_json_names(x: ExecutionHint)
    ensures
        x is MapBased ==> x.json_v() == JsonV::Str("map"@),
        x is GlobalOrdinalsLowCardinality ==> x.json_v() == JsonV::Str("global_ordinals_low_cardinality"@),
        x is GlobalOrdinals ==> x.json_v() == JsonV::Str("global_ordinals"@),
        x is GlobalOrdinalsHash ==> x.json_v() == JsonV::Str("global_ordinals_hash"@),
        forall|a: ExecutionHint, b: ExecutionHint| a != b ==> #[trigger] a.json_v() != #[trigger] b.json_v(),
{
    reveal_strlit("global_ordinals");
    assert("global_ordinals"@.len() == 15 && "global_ordinals"@[0] == 'g' && "global_ordinals"@[1] == 'l' && "global_ordinals"@[2] == 'o' && "global_ordinals"@[3] == 'b' && "global_ordinals"@[4] == 'a' && "global_ordinals"@[5] == 'l' && "global_ordinals"@[6] == '_' && "global_ordinals"@[7] == 'o' && "global_ordinals"@[8] == 'r' && "global_ordinals"@[9] == 'd' && "global_ordinals"@[10] == 'i' && "global_ordinals"@[11] == 'n' && "global_ordinals"@[12] == 'a' && "global_ordinals"@[13] == 'l' && "global_ordinals"@[14] == 's');
    reveal_strlit("global_ordinals_hash");
    assert("global_ordinals_hash"@.len() == 20 && "global_ordinals_hash"@[0] == 'g' && "global_ordinals_hash"@[1] == 'l' && "global_ordinals_hash"@[2] == 'o' && "global_ordinals_hash"@[3] == 'b' && "global_ordinals_hash"@[4] == 'a' && "global_ordinals_hash"@[5] == 'l' && "global_ordinals_hash"@[6] == '_' && "global_ordinals_hash"@[7] == 'o' && "global_ordinals_hash"@[8] == 'r' && "global_ordinals_hash"@[9] == 'd' && "global_ordinals_hash"@[10] == 'i' && "global_ordinals_hash"@[11] == 'n' && "global_ordinals_hash"@[12] == 'a' && "global_ordinals_hash"@[13] == 'l' && "global_ordinals_hash"@[14] == 's' && "global_ordinals_hash"@[15] == '_' && "global_ordinals_hash"@[16] == 'h' && "global_ordinals_hash"@[17] == 'a' && "global_ordinals_hash"@[18] == 's' && "global_ordinals_hash"@[19] == 'h');
    reveal_strlit("global_ordinals_low_cardinality");
    assert("global_ordinals_low_cardinality"@.len() == 31 && "global_ordinals_low_cardinality"@[0] == 'g' && "global_ordinals_low_cardinality"@[1] == 'l' && "global_ordinals_low_cardinality"@[2] == 'o' && "global_ordinals_low_cardinality"@[3] == 'b' && "global_ordinals_low_cardinality"@[4] == 'a' && "global_ordinals_low_cardinality"@[5] == 'l' && "global_ordinals_low_cardinality"@[6] == '_' && "global_ordinals_low_cardinality"@[7] == 'o' && "global_ordinals_low_cardinality"@[8] == 'r' && "global_ordinals_low_cardinality"@[9] == 'd' && "global_ordinals_low_cardinality"@[10] == 'i' && "global_ordinals_low_cardinality"@[11] == 'n' && "global_ordinals_low_cardinality"@[12] == 'a' && "global_ordinals_low_cardinality"@[13] == 'l' && "global_ordinals_low_cardinality"@[14] == 's' && "global_ordinals_low_cardinality"@[15] == '_' && "global_ordinals_low_cardinality"@[16] == 'l' && "global_ordinals_low_cardinality"@[17] == 'o' && "global_ordinals_low_cardinality"@[18] == 'w' && "global_ordinals_low_cardinality"@[19] == '_' && "global_ordinals_low_cardinality"@[20] == 'c' && "global_ordinals_low_cardinality"@[21] == 'a' && "global_ordinals_low_cardinality"@[22] == 'r' && "global_ordinals_low_cardinality"@[23] == 'd' && "global_ordinals_low_cardinality"@[24] == 'i' && "global_ordinals_low_cardinality"@[25] == 'n' && "global_ordinals_low_cardinality"@[26] == 'a' && "global_ordinals_low_cardinality"@[27] == 'l' && "global_ordinals_low_cardinality"@[28] == 'i' && "global_ordinals_low_cardinality"@[29] == 't' && "global_ordinals_low_cardinality"@[30] == 'y');
    reveal_strlit("map");
    assert("map"@.len() == 3 && "map"@[0] == 'm' && "map"@[1] == 'a' && "map"@[2] == 'p');
}

impl ToJson for ExecutionHint {
    open spec fn json_v(&self) -> JsonV {
        JsonV::Str(
            match self {
                ExecutionHint::MapBased => "map"@,
                ExecutionHint::GlobalOrdinalsLowCardinality => "global_ordinals_low_cardinality"@,
                ExecutionHint::GlobalOrdinals => "global_ordinals"@,
                ExecutionHint::GlobalOrdinalsHash => "global_ordinals_hash"@,
            },
        )
    }

    fn to_json(&self) -> (r: Json) {
        match self {
            ExecutionHint::MapBased => str_json("map"),
            ExecutionHint::GlobalOrdinalsLowCardinality => str_json("global_ordinals_low_cardinality"),
            ExecutionHint::GlobalOrdinals => str_json("global_ordinals"),
            ExecutionHint::GlobalOrdinalsHash => str_json("global_ordinals_hash"),
        }
    }
}

/// Global aggregation, defines a single global bucket.  Can only be used as a
/// top-level aggregation.
#[derive(Debug)]
pub struct Global<'a> {
    /// Needed for lifecycle reasons
    pub phantom: PhantomData<&'a str>,
}

/// Written with its one (empty) field: `{"phantom": null}`.
impl<'a> ToJson for Global<'a> {
    open spec fn json_v(&self) -> JsonV {
        JsonV::Object(one_entry("phantom"@, JsonV::Null))
    }

    fn to_json(&self) -> (r: Json) {
        let mut e: Vec<(String, Json)> = Vec::new();
        push_entry(&mut e, "phantom", Json::Null);
        object(e)
    }
}

impl<'a> Global<'a> {
    pub fn new() -> (r: Global<'a>) {
        Global { phantom: PhantomData }
    }
}


impl<'a> Global<'a> {
    /// This aggregation, as one of a set, with no sub-aggregations.
    pub fn build(self) -> (r: Aggregation<'a>)
        ensures
            r == Aggregation::Bucket(BucketAggregation::Global(self), None),
    {
        Aggregation::Bucket(BucketAggregation::Global(self), None)
    }

    /// This aggregation, as one of a set, with sub-aggregations.
    pub fn build_with(self, aggs: Aggregations<'a>) -> (r: Aggregation<'a>)
        ensures
            r == Aggregation::Bucket(BucketAggregation::Global(self), Some(aggs)),
    {
        Aggregation::Bucket(BucketAggregation::Global(self), Some(aggs))
    }
}

/// Reverse nested aggregation, will produce an error if used anywhere other than
/// inside a nested aggregation.
#[derive(Debug)]
pub struct ReverseNested<'a> {
    /// Needed for lifecycle reasons
    pub phantom: PhantomData<&'a str>,
}

/// Written with its one (empty) field: `{"phantom": null}`.
impl<'a> ToJson for ReverseNested<'a> {
    open spec fn json_v(&self) -> JsonV {
        JsonV::Object(one_entry("phantom"@, JsonV::Null))
    }

    fn to_json(&self) -> (r: Json) {
        let mut e: Vec<(String, Json)> = Vec::new();
        push_entry(&mut e, "phantom", Json::Null);
        object(e)
    }
}

impl<'a> ReverseNested<'a> {
    pub fn new() -> (r: ReverseNested<'a>) {
        ReverseNested { phantom: PhantomData }
    }
}


impl<'a> ReverseNested<'a> {
    /// This aggregation, as one of a set, with no sub-aggregations.
    pub fn build(self) -> (r: Aggregation<'a>)
        ensures
            r == Aggregation::Bucket(BucketAggregation::ReverseNested(self), None),
    {
        Aggregation::Bucket(BucketAggregation::ReverseNested(self), None)
    }

    /// This aggregation, as one of a set, with sub-aggregations.
    pub fn build_with(self, aggs: Aggregations<'a>) -> (r: Aggregation<'a>)
        ensures
            r == Aggregation::Bucket(BucketAggregation::ReverseNested(self), Some(aggs)),
    {
        Aggregation::Bucket(BucketAggregation::ReverseNested(self), Some(aggs))
    }
}

/// Filter aggregation
#[derive(Debug)]
pub struct Filter<'a> {
    pub filter: &'a Query,
}

impl<'a> ToJson for Filter<'a> {
    open spec fn json_v(&self) -> JsonV {
        JsonV::Object(one_entry("filter"@, query_v(*self.filter)))
    }

    fn to_json(&self) -> (r: Json) {
        let mut e: Vec<(String, Json)> = Vec::new();
        push_entry(&mut e, "filter", query_json(self.filter));
        assert(entries_view(e@) =~= self.json_v()->Object_0);
        object(e)
    }
}

impl<'a> Filter<'a> {
    pub fn new(filter: &'a Query) -> (r: Filter<'a>)
        ensures
            r.filter == filter,
    {
        Filter { filter }
    }
}


impl<'a> Filter<'a> {
    /// This aggregation, as one of a set, with no sub-aggregations.
    pub fn build(self) -> (r: Aggregation<'a>)
        ensures
            r == Aggregation::Bucket(BucketAggregation::Filter(self), None),
    {
        Aggregation::Bucket(BucketAggregation::Filter(self), None)
    }

    /// This aggregation, as one of a set, with sub-aggregations.
    pub fn build_with(self, aggs: Aggregations<'a>) -> (r: Aggregation<'a>)
        ensures
            r == Aggregation::Bucket(BucketAggregation::Filter(self), Some(aggs)),
    {
        Aggregation::Bucket(BucketAggregation::Filter(self), Some(aggs))
    }
}

/// Filters aggregation: a bucket for each named query.
#[derive(Debug)]
pub struct Filters<'a> {
    pub filters: KeyedMap<&'a Query>,
}

impl<'a> ToJson for Filters<'a> {
    open spec fn json_v(&self) -> JsonV {
        JsonV::Object(one_entry("filters"@, self.filters.json_v()))
    }

    fn to_json(&self) -> (r: Json) {
        let mut e: Vec<(String, Json)> = Vec::new();
        push_entry(&mut e, "filters", self.filters.to_json());
        assert(entries_view(e@) =~= self.json_v()->Object_0);
        object(e)
    }
}

impl<'a> Filters<'a> {
    /// The named queries; a name given again replaces the earlier query.
    pub fn new(filters: Vec<(&'a str, &'a Query)>) -> (r: Filters<'a>)
        ensures
            r.filters.view_v() == crate::json::inserted_all(
                Seq::empty(),
                Seq::new(filters@.len(), |i: int| (filters@[i].0@, filters@[i].1)),
            ),
            crate::json::keys_distinct(r.filters.view_v()),
    {
        let mut pairs: Vec<(String, &'a Query)> = Vec::new();
        let mut i: usize = 0;
        while i < filters.len()
            invariant
                i <= filters@.len(),
                pairs@.len() == i,
                forall|k: int|
                    0 <= k < i ==> (#[trigger] pairs@[k]).0@ == filters@[k].0@ && pairs@[k].1 == filters@[k].1,
            decreases filters.len() - i,
        {
            let (k, q) = filters[i];
            pairs.push((k.to_owned(), q));
            i = i + 1;
        }
        let mut m: KeyedMap<&'a Query> = KeyedMap::new();
        assert(m.view_v() =~= Seq::empty());
        assert(KeyedMap::<&'a Query>::pairs_v(pairs@) =~= Seq::new(
            filters@.len(),
            |i: int| (filters@[i].0@, filters@[i].1),
        ));
        m.insert_all(pairs);
        Filters { filters: m }
    }
}


impl<'a> Filters<'a> {
    /// This aggregation, as one of a set, with no sub-aggregations.
    pub fn build(self) -> (r: Aggregation<'a>)
        ensures
            r == Aggregation::Bucket(BucketAggregation::Filters(self), None),
    {
        Aggregation::Bucket(BucketAggregation::Filters(self), None)
    }

    /// This aggregation, as one of a set, with sub-aggregations.
    pub fn build_with(self, aggs: Aggregations<'a>) -> (r: Aggregation<'a>)
        ensures
            r == Aggregation::Bucket(BucketAggregation::Filters(self), Some(aggs)),
    {
        Aggregation::Bucket(BucketAggregation::Filters(self), Some(aggs))
    }
}

/// Missing aggregation
#[derive(Debug)]
pub struct Missing<'a> {
    pub field: &'a str,
}

impl<'a> ToJson for Missing<'a> {
    open spec fn json_v(&self) -> JsonV {
        JsonV::Object(
            one_entry("field"@, self.field.json_v())
        )
    }

    fn to_json(&self) -> (r: Json) {
        let mut e: Vec<(String, Json)> = Vec::new();
        push_entry(&mut e, "field", self.field.to_json());
        assert(entries_view(e@) =~= self.json_v()->Object_0);
        object(e)
    }
}

impl<'a> Missing<'a> {
    pub fn new(field: &'a str) -> (r: Missing<'a>)
        ensures
            r == (Missing { field }),
    {
        Missing { field }
    }
}


impl<'a> Missing<'a> {
    /// This aggregation, as one of a set, with no sub-aggregations.
    pub fn build(self) -> (r: Aggregation<'a>)
        ensures
            r == Aggregation::Bucket(BucketAggregation::Missing(self), None),
    {
        Aggregation::Bucket(BucketAggregation::Missing(self), None)
    }

    /// This aggregation, as one of a set, with sub-aggregations.
    pub fn build_with(self, aggs: Aggregations<'a>) -> (r: Aggregation<'a>)
        ensures
            r == Aggregation::Bucket(BucketAggregation::Missing(self), Some(aggs)),
    {
        Aggregation::Bucket(BucketAggregation::Missing(self), Some(aggs))
    }
}

/// Nested aggregation
#[derive(Debug)]
pub struct Nested<'a> {
    pub path: &'a str,
}

impl<'a> ToJson for Nested<'a> {
    open spec fn json_v(&self) -> JsonV {
        JsonV::Object(
            one_entry("path"@, self.path.json_v())
        )
    }

    fn to_json(&self) -> (r: Json) {
        let mut e: Vec<(String, Json)> = Vec::new();
        push_entry(&mut e, "path", self.path.to_json());
        assert(entries_view(e@) =~= self.json_v()->Object_0);
        object(e)
    }
}

impl<'a> Nested<'a> {
    pub fn new(path: &'a str) -> (r: Nested<'a>)
        ensures
            r == (Nested { path }),
    {
        Nested { path }
    }
}


impl<'a> Nested<'a> {
    /// This aggregation, as one of a set, with no sub-aggregations.
    pub fn build(self) -> (r: Aggregation<'a>)
        ensures
            r == Aggregation::Bucket(BucketAggregation::Nested(self), None),
    {
        Aggregation::Bucket(BucketAggregation::Nested(self), None)
    }

    /// This aggregation, as one of a set, with sub-aggregations.
    pub fn build_with(self, aggs: Aggregations<'a>) -> (r: Aggregation<'a>)
        ensures
            r == Aggregation::Bucket(BucketAggregation::Nested(self), Some(aggs)),
    {
        Aggregation::Bucket(BucketAggregation::Nested(self), Some(aggs))
    }
}

/// Children aggregation - sub-aggregations run against the child document
#[derive(Debug)]
pub struct Children<'a> {
    pub doc_type: &'a str,
}

impl<'a> ToJson for Children<'a> {
    open spec fn json_v(&self) -> JsonV {
        JsonV::Object(
            one_entry("type"@, self.doc_type.json_v())
        )
    }

    fn to_json(&self) -> (r: Json) {
        let mut e: Vec<(String, Json)> = Vec::new();
        push_entry(&mut e, "type", self.doc_type.to_json());
        assert(entries_view(e@) =~= self.json_v()->Object_0);
        object(e)
    }
}

impl<'a> Children<'a> {
    pub fn new(doc_type: &'a str) -> (r: Children<'a>)
        ensures
            r == (Children { doc_type }),
    {
        Children { doc_type }
    }
}


impl<'a> Children<'a> {
    /// This aggregation, as one of a set, with no sub-aggregations.
    pub fn build(self) -> (r: Aggregation<'a>)
        ensures
            r == Aggregation::Bucket(BucketAggregation::Children(self), None),
    {
        Aggregation::Bucket(BucketAggregation::Children(self), None)
    }

    /// This aggregation, as one of a set, with sub-aggregations.
    pub fn build_with(self, aggs: Aggregations<'a>) -> (r: Aggregation<'a>)
        ensures
            r == Aggregation::Bucket(BucketAggregation::Children(self), Some(aggs)),
    {
        Aggregation::Bucket(BucketAggregation::Children(self), Some(aggs))
    }
}

/// Order - used for some bucketing aggregations to determine the order of
/// buckets
#[derive(Debug, Clone, Copy, PartialEq, Eq)]
pub enum OrderKey<'a> {
    Count,
    Key,
    Term,
    Expr(&'a str),
}

impl<'a> OrderKey<'a> {
    /// The name of the key ordered by.
    pub open spec fn text(&self) -> Seq<char> {
        match self {
            OrderKey::Count => "_count"@,
            OrderKey::Key => "_key"@,
            OrderKey::Term => "_term"@,
            OrderKey::Expr(e) => e@,
        }
    }

    pub fn as_str(&self) -> (r: &str)
        ensures
            r@ == self.text(),
    {
        match self {
            OrderKey::Count => "_count",
            OrderKey::Key => "_key",
            OrderKey::Term => "_term",
            OrderKey::Expr(e) => e,
        }
    }
}

/// Used to define the ordering of buckets in a some bucketted aggregations,
/// written as `{key: order}`, as in `{"_count": "asc"}`.
#[derive(Debug, Clone, Copy)]
pub struct Order<'a>(pub OrderKey<'a>, pub super::super::Order);

impl<'a> ToJson for Order<'a> {
    open spec fn json_v(&self) -> JsonV {
        JsonV::Object(one_entry(self.0.text(), self.1.json_v()))
    }

    fn to_json(&self) -> (r: Json) {
        let mut e: Vec<(String, Json)> = Vec::new();
        push_entry(&mut e, self.0.as_str(), self.1.to_json());
        object(e)
    }
}

/// Law: an order of buckets is written as an object with a single entry whose
/// name says what is ordered by — `_count` for the number of documents,
/// `_key` for the bucket's key, `_term` for the term, or the expression given —
/// and whose value is the direction, `asc` or `desc`.  Orders on different
/// fixed keys are written under different names.
pub proof fn lemma_order_json(o: Order)
    ensures
        o.json_v() is Object,
        o.json_v()->Object_0.len() == 1,
        o.0 is Count ==> o.json_v()->Object_0[0].0 == "_count"@,
        o.0 is Key ==> o.json_v()->Object_0[0].0 == "_key"@,
        o.0 is Term ==> o.json_v()->Object_0[0].0 == "_term"@,
        o.0 matches OrderKey::Expr(e) ==> o.json_v()->Object_0[0].0 == e@,
        o.1 == super::super::Order::Asc ==> o.json_v()->Object_0[0].1 == JsonV::Str("asc"@),
        o.1 == super::super::Order::Desc ==> o.json_v()->Object_0[0].1 == JsonV::Str("desc"@),
        forall|a: OrderKey, b: OrderKey|
            !(a is Expr) && !(b is Expr) && a != b ==> #[trigger] a.text() != #[trigger] b.text(),
{
    reveal_strlit("_count");
    reveal_strlit("_key");
    reveal_strlit("_term");
    assert("_count"@.len() == 6 && "_key"@.len() == 4 && "_term"@.len() == 5);
}

impl<'a> Order<'a> {
    /// Create an `Order` ascending
    pub fn asc(key: OrderKey<'a>) -> (r: Order<'a>)
        ensures
            r.0 == key,
            r.1 == super::super::Order::Asc,
    {
        Order(key, super::super::Order::Asc)
    }

    /// Create an `Order` descending
    pub fn desc(key: OrderKey<'a>) -> (r: Order<'a>)
        ensures
            r.0 == key,
            r.1 == super::super::Order::Desc,
    {
        Order(key, super::super::Order::Desc)
    }
}

/// The options of a terms aggregation.
#[derive(Debug)]
pub struct TermsInner<'a> {
    pub size: Option<u64>,
    pub shard_size: Option<u64>,
    pub order: Option<OneOrMany<Order<'a>>>,
    pub min_doc_count: Option<u64>,
    pub shard_min_doc_count: Option<u64>,
    pub include_terms: Option<OneOrMany<&'a str>>,
    pub exclude: Option<OneOrMany<&'a str>>,
    pub execution_hint: Option<ExecutionHint>,
}

impl<'a> MergeSerialize for TermsInner<'a> {
    open spec fn merge_entries(&self) -> Seq<(Seq<char>, JsonV)> {
        opt_entry("size"@, opt_v(self.size))
                + opt_entry("shard_size"@, opt_v(self.shard_size))
                + opt_entry("order"@, opt_v(self.order))
                + opt_entry("min_doc_count"@, opt_v(self.min_doc_count))
                + opt_entry("shard_min_doc_count"@, opt_v(self.shard_min_doc_count))
                + opt_entry(inclusion_key(), opt_v(self.include_terms))
                + opt_entry("exclude"@, opt_v(self.exclude))
                + opt_entry("execution_hint"@, opt_v(self.execution_hint))
    }

    fn merge_serialize(&self, e: &mut Vec<(String, Json)>) {
        push_field(e, "size", &self.size);
        push_field(e, "shard_size", &self.shard_size);
        push_field(e, "order", &self.order);
        push_field(e, "min_doc_count", &self.min_doc_count);
        push_field(e, "shard_min_doc_count", &self.shard_min_doc_count);
        match &self.include_terms {
            Some(v) => push_entry_owned(e, inclusion_key_string(), v.to_json()),
            None => {},
        }
        push_field(e, "exclude", &self.exclude);
        push_field(e, "execution_hint", &self.execution_hint);
        assert(entries_view(e@) =~= entries_view(old(e)@) + self.merge_entries());
    }
}

/// Terms aggregation
#[derive(Debug)]
pub struct Terms<'a>(pub Agg<'a, TermsInner<'a>>);

impl<'a> ToJson for Terms<'a> {
    open spec fn json_v(&self) -> JsonV {
        self.0.json_v()
    }

    fn to_json(&self) -> (r: Json) {
        self.0.to_json()
    }
}

impl<'a> Terms<'a> {
    pub fn field(field: &'a str) -> (r: Self)
        ensures
            r.0.field == Some(field),
            r.0.script == Script::<'a>::empty_v(),
            r.0.missing is None,
            r.0.extra.size is None,
            r.0.extra.shard_size is None,
            r.0.extra.order is None,
            r.0.extra.min_doc_count is None,
            r.0.extra.shard_min_doc_count is None,
            r.0.extra.include_terms is None,
            r.0.extra.exclude is None,
            r.0.extra.execution_hint is None,
    {
        Terms(Agg { field: Some(field), script: Script::default(), missing: None, extra: TermsInner { size: None, shard_size: None, order: None, min_doc_count: None, shard_min_doc_count: None, include_terms: None, exclude: None, execution_hint: None } })
    }

    pub fn script(script: Script<'a>) -> (r: Self)
        ensures
            r.0.field is None,
            r.0.script == script,
            r.0.missing is None,
            r.0.extra.size is None,
            r.0.extra.shard_size is None,
            r.0.extra.order is None,
            r.0.extra.min_doc_count is None,
            r.0.extra.shard_min_doc_count is None,
            r.0.extra.include_terms is None,
            r.0.extra.exclude is None,
            r.0.extra.execution_hint is None,
    {
        Terms(Agg { field: None, script, missing: None, extra: TermsInner { size: None, shard_size: None, order: None, min_doc_count: None, shard_min_doc_count: None, include_terms: None, exclude: None, execution_hint: None } })
    }

    pub fn with_script(self, script: Script<'a>) -> (r: Self)
        ensures
            r.0 == (Agg { script, ..self.0 }),
    {
        Terms(Agg { script, ..self.0 })
    }

    pub fn with_missing(self, missing: JsonVal) -> (r: Self)
        ensures
            r.0 == (Agg { missing: Some(missing), ..self.0 }),
    {
        Terms(Agg { missing: Some(missing), ..self.0 })
    }

    pub fn with_size(self, val: u64) -> (r: Self)
        ensures
            r.0 == (Agg { extra: (TermsInner { size: Some(val), ..self.0.extra }), ..self.0 }),
    {
        let mut s = self;
        s.0.extra.size = Some(val);
        s
    }

    pub fn with_shard_size(self, val: u64) -> (r: Self)
        ensures
            r.0 == (Agg { extra: (TermsInner { shard_size: Some(val), ..self.0.extra }), ..self.0 }),
    {
        let mut s = self;
        s.0.extra.shard_size = Some(val);
        s
    }

    pub fn with_order(self, val: OneOrMany<Order<'a>>) -> (r: Self)
        ensures
            r.0 == (Agg { extra: (TermsInner { order: Some(val), ..self.0.extra }), ..self.0 }),
    {
        let mut s = self;
        s.0.extra.order = Some(val);
        s
    }

    pub fn with_min_doc_count(self, val: u64) -> (r: Self)
        ensures
            r.0 == (Agg { extra: (TermsInner { min_doc_count: Some(val), ..self.0.extra }), ..self.0 }),
    {
        let mut s = self;
        s.0.extra.min_doc_count = Some(val);
        s
    }

    pub fn with_shard_min_doc_count(self, val: u64) -> (r: Self)
        ensures
            r.0 == (Agg { extra: (TermsInner { shard_min_doc_count: Some(val), ..self.0.extra }), ..self.0 }),
    {
        let mut s = self;
        s.0.extra.shard_min_doc_count = Some(val);
        s
    }

    pub fn with_include(self, val: OneOrMany<&'a str>) -> (r: Self)
        ensures
            r.0 == (Agg { extra: (TermsInner { include_terms: Some(val), ..self.0.extra }), ..self.0 }),
    {
        let mut s = self;
        s.0.extra.include_terms = Some(val);
        s
    }

    pub fn with_exclude(self, val: OneOrMany<&'a str>) -> (r: Self)
        ensures
            r.0 == (Agg { extra: (TermsInner { exclude: Some(val), ..self.0.extra }), ..self.0 }),
    {
        let mut s = self;
        s.0.extra.exclude = Some(val);
        s
    }

    pub fn with_execution_hint(self, val: ExecutionHint) -> (r: Self)
        ensures
            r.0 == (Agg { extra: (TermsInner { execution_hint: Some(val), ..self.0.extra }), ..self.0 }),
    {
        let mut s = self;
        s.0.extra.execution_hint = Some(val);
        s
    }
}


impl<'a> Terms<'a> {
    /// This aggregation, as one of a set, with no sub-aggregations.
    pub fn build(self) -> (r: Aggregation<'a>)
        ensures
            r == Aggregation::Bucket(BucketAggregation::Terms(self), None),
    {
        Aggregation::Bucket(BucketAggregation::Terms(self), None)
    }

    /// This aggregation, as one of a set, with sub-aggregations.
    pub fn build_with(self, aggs: Aggregations<'a>) -> (r: Aggregation<'a>)
        ensures
            r == Aggregation::Bucket(BucketAggregation::Terms(self), Some(aggs)),
    {
        Aggregation::Bucket(BucketAggregation::Terms(self), Some(aggs))
    }
}

/// A specific range, there will be many of these making up a range aggregation
#[derive(Debug)]
pub struct RangeInst<'a> {
    pub from: Option<JsonVal>,
    pub to: Option<JsonVal>,
    pub key: Option<&'a str>,
}

impl<'a> ToJson for RangeInst<'a> {
    open spec fn json_v(&self) -> JsonV {
        JsonV::Object(
            opt_entry("from"@, opt_v(self.from))
                + opt_entry("to"@, opt_v(self.to))
                + opt_entry("key"@, opt_v(self.key))
        )
    }

    fn to_json(&self) -> (r: Json) {
        let mut e: Vec<(String, Json)> = Vec::new();
        push_field(&mut e, "from", &self.from);
        push_field(&mut e, "to", &self.to);
        push_field(&mut e, "key", &self.key);
        assert(entries_view(e@) =~= self.json_v()->Object_0);
        object(e)
    }
}

impl<'a> RangeInst<'a> {
    pub fn new() -> (r: RangeInst<'a>)
        ensures
            r == (RangeInst { from: None, to: None, key: None }),
    {
        RangeInst { from: None, to: None, key: None }
    }

    pub fn with_from(self, val: JsonVal) -> (r: Self)
        ensures
            r == (RangeInst { from: Some(val), ..self }),
    {
        RangeInst { from: Some(val), ..self }
    }

    pub fn with_to(self, val: JsonVal) -> (r: Self)
        ensures
            r == (RangeInst { to: Some(val), ..self }),
    {
        RangeInst { to: Some(val), ..self }
    }

    pub fn with_key(self, val: &'a str) -> (r: Self)
        ensures
            r == (RangeInst { key: Some(val), ..self }),
    {
        RangeInst { key: Some(val), ..self }
    }
}

/// The options of a range aggregation.
#[derive(Debug)]
pub struct RangeInner<'a> {
    pub keyed: bool,
    pub ranges: Vec<RangeInst<'a>>,
}

impl<'a> MergeSerialize for RangeInner<'a> {
    open spec fn merge_entries(&self) -> Seq<(Seq<char>, JsonV)> {
        one_entry("keyed"@, self.keyed.json_v())
                + one_entry("ranges"@, self.ranges.json_v())
    }

    fn merge_serialize(&self, e: &mut Vec<(String, Json)>) {
        push_entry(e, "keyed", self.keyed.to_json());
        push_entry(e, "ranges", self.ranges.to_json());
        assert(entries_view(e@) =~= entries_view(old(e)@) + self.merge_entries());
    }
}

/// Range aggregations; keyed unless told otherwise.
#[derive(Debug)]
pub struct Range<'a>(pub Agg<'a, RangeInner<'a>>);

impl<'a> ToJson for Range<'a> {
    open spec fn json_v(&self) -> JsonV {
        self.0.json_v()
    }

    fn to_json(&self) -> (r: Json) {
        self.0.to_json()
    }
}

impl<'a> Range<'a> {
    pub fn field(field: &'a str) -> (r: Self)
        ensures
            r.0.field == Some(field),
            r.0.script == Script::<'a>::empty_v(),
            r.0.missing is None,
            r.0.extra.keyed,
            r.0.extra.ranges@.len() == 0,
    {
        Range(Agg { field: Some(field), script: Script::default(), missing: None, extra: RangeInner { keyed: true, ranges: Vec::new() } })
    }

    pub fn script(script: Script<'a>) -> (r: Self)
        ensures
            r.0.field is None,
            r.0.script == script,
            r.0.missing is None,
            r.0.extra.keyed,
            r.0.extra.ranges@.len() == 0,
    {
        Range(Agg { field: None, script, missing: None, extra: RangeInner { keyed: true, ranges: Vec::new() } })
    }

    pub fn with_script(self, script: Script<'a>) -> (r: Self)
        ensures
            r.0 == (Agg { script, ..self.0 }),
    {
        Range(Agg { script, ..self.0 })
    }

    pub fn with_missing(self, missing: JsonVal) -> (r: Self)
        ensures
            r.0 == (Agg { missing: Some(missing), ..self.0 }),
    {
        Range(Agg { missing: Some(missing), ..self.0 })
    }
}


impl<'a> Range<'a> {
    pub fn with_keyed(self, keyed: bool) -> (r: Self)
        ensures
            r.0 == (Agg { extra: (RangeInner { keyed, ..self.0.extra }), ..self.0 }),
    {
        let mut s = self;
        s.0.extra.keyed = keyed;
        s
    }

    pub fn with_ranges(self, ranges: Vec<RangeInst<'a>>) -> (r: Self)
        ensures
            r.0 == (Agg { extra: (RangeInner { ranges, ..self.0.extra }), ..self.0 }),
    {
        let mut s = self;
        s.0.extra.ranges = ranges;
        s
    }
}


impl<'a> Range<'a> {
    /// This aggregation, as one of a set, with no sub-aggregations.
    pub fn build(self) -> (r: Aggregation<'a>)
        ensures
            r == Aggregation::Bucket(BucketAggregation::Range(self), None),
    {
        Aggregation::Bucket(BucketAggregation::Range(self), None)
    }

    /// This aggregation, as one of a set, with sub-aggregations.
    pub fn build_with(self, aggs: Aggregations<'a>) -> (r: Aggregation<'a>)
        ensures
            r == Aggregation::Bucket(BucketAggregation::Range(self), Some(aggs)),
    {
        Aggregation::Bucket(BucketAggregation::Range(self), Some(aggs))
    }
}

/// A specific element of a range for a `DateRange` aggregation
#[derive(Debug)]
pub struct DateRangeInst<'a> {
    pub from: Option<&'a str>,
    pub to: Option<&'a str>,
}

impl<'a> ToJson for DateRangeInst<'a> {
    open spec fn json_v(&self) -> JsonV {
        JsonV::Object(
            opt_entry("from"@, opt_v(self.from))
                + opt_entry("to"@, opt_v(self.to))
        )
    }

    fn to_json(&self) -> (r: Json) {
        let mut e: Vec<(String, Json)> = Vec::new();
        push_field(&mut e, "from", &self.from);
        push_field(&mut e, "to", &self.to);
        assert(entries_view(e@) =~= self.json_v()->Object_0);
        object(e)
    }
}

impl<'a> DateRangeInst<'a> {
    pub fn new() -> (r: DateRangeInst<'a>)
        ensures
            r == (DateRangeInst { from: None, to: None }),
    {
        DateRangeInst { from: None, to: None }
    }

    pub fn with_from(self, val: &'a str) -> (r: Self)
        ensures
            r == (DateRangeInst { from: Some(val), ..self }),
    {
        DateRangeInst { from: Some(val), ..self }
    }

    pub fn with_to(self, val: &'a str) -> (r: Self)
        ensures
            r == (DateRangeInst { to: Some(val), ..self }),
    {
        DateRangeInst { to: Some(val), ..self }
    }
}

/// The options of a date range aggregation.
#[derive(Debug)]
pub struct DateRangeInner<'a> {
    pub format: Option<&'a str>,
    pub ranges: Vec<DateRangeInst<'a>>,
}

impl<'a> MergeSerialize for DateRangeInner<'a> {
    open spec fn merge_entries(&self) -> Seq<(Seq<char>, JsonV)> {
        opt_entry("format"@, opt_v(self.format))
                + one_entry("ranges"@, self.ranges.json_v())
    }

    fn merge_serialize(&self, e: &mut Vec<(String, Json)>) {
        push_field(e, "format", &self.format);
        push_entry(e, "ranges", self.ranges.to_json());
        assert(entries_view(e@) =~= entries_view(old(e)@) + self.merge_entries());
    }
}

/// Date range aggregation.
#[derive(Debug)]
pub struct DateRange<'a>(pub Agg<'a, DateRangeInner<'a>>);

impl<'a> ToJson for DateRange<'a> {
    open spec fn json_v(&self) -> JsonV {
        self.0.json_v()
    }

    fn to_json(&self) -> (r: Json) {
        self.0.to_json()
    }
}

impl<'a> DateRange<'a> {
    pub fn field(field: &'a str) -> (r: Self)
        ensures
            r.0.field == Some(field),
            r.0.script == Script::<'a>::empty_v(),
            r.0.missing is None,
            r.0.extra.format is None,
            r.0.extra.ranges@.len() == 0,
    {
        DateRange(Agg { field: Some(field), script: Script::default(), missing: None, extra: DateRangeInner { format: None, ranges: Vec::new() } })
    }

    pub fn script(script: Script<'a>) -> (r: Self)
        ensures
            r.0.field is None,
            r.0.script == script,
            r.0.missing is None,
            r.0.extra.format is None,
            r.0.extra.ranges@.len() == 0,
    {
        DateRange(Agg { field: None, script, missing: None, extra: DateRangeInner { format: None, ranges: Vec::new() } })
    }

    pub fn with_script(self, script: Script<'a>) -> (r: Self)
        ensures
            r.0 == (Agg { script, ..self.0 }),
    {
        DateRange(Agg { script, ..self.0 })
    }

    pub fn with_missing(self, missing: JsonVal) -> (r: Self)
        ensures
            r.0 == (Agg { missing: Some(missing), ..self.0 }),
    {
        DateRange(Agg { missing: Some(missing), ..self.0 })
    }

    pub fn with_format(self, val: &'a str) -> (r: Self)
        ensures
            r.0 == (Agg { extra: (DateRangeInner { format: Some(val), ..self.0.extra }), ..self.0 }),
    {
        let mut s = self;
        s.0.extra.format = Some(val);
        s
    }
}


impl<'a> DateRange<'a> {
    pub fn with_ranges(self, ranges: Vec<DateRangeInst<'a>>) -> (r: Self)
        ensures
            r.0 == (Agg { extra: (DateRangeInner { ranges, ..self.0.extra }), ..self.0 }),
    {
        let mut s = self;
        s.0.extra.ranges = ranges;
        s
    }
}


impl<'a> DateRange<'a> {
    /// This aggregation, as one of a set, with no sub-aggregations.
    pub fn build(self) -> (r: Aggregation<'a>)
        ensures
            r == Aggregation::Bucket(BucketAggregation::DateRange(self), None),
    {
        Aggregation::Bucket(BucketAggregation::DateRange(self), None)
    }

    /// This aggregation, as one of a set, with sub-aggregations.
    pub fn build_with(self, aggs: Aggregations<'a>) -> (r: Aggregation<'a>)
        ensures
            r == Aggregation::Bucket(BucketAggregation::DateRange(self), Some(aggs)),
    {
        Aggregation::Bucket(BucketAggregation::DateRange(self), Some(aggs))
    }
}

/// The bounds a histogram extends to.
#[derive(Debug, Clone, Copy)]
pub struct ExtendedBounds {
    pub min: i64,
    pub max: i64,
}

impl ToJson for ExtendedBounds {
    open spec fn json_v(&self) -> JsonV {
        JsonV::Object(
            one_entry("min"@, self.min.json_v())
                + one_entry("max"@, self.max.json_v())
        )
    }

    fn to_json(&self) -> (r: Json) {
        let mut e: Vec<(String, Json)> = Vec::new();
        push_entry(&mut e, "min", self.min.to_json());
        push_entry(&mut e, "max", self.max.to_json());
        assert(entries_view(e@) =~= self.json_v()->Object_0);
        object(e)
    }
}

impl ExtendedBounds {
    pub fn new(min: i64, max: i64) -> (r: ExtendedBounds)
        ensures
            r == (ExtendedBounds { min, max }),
    {
        ExtendedBounds { min, max }
    }
}

/// Histogram aggregation.
#[derive(Debug)]
pub struct Histogram<'a> {
    pub field: &'a str,
    pub interval: Option<u64>,
    pub min_doc_count: Option<u64>,
    pub extended_bounds: Option<ExtendedBounds>,
    pub order: Option<Order<'a>>,
}

impl<'a> ToJson for Histogram<'a> {
    open spec fn json_v(&self) -> JsonV {
        JsonV::Object(
            one_entry("field"@, self.field.json_v())
                + opt_entry("interval"@, opt_v(self.interval))
                + opt_entry("min_doc_count"@, opt_v(self.min_doc_count))
                + opt_entry("extended_bounds"@, opt_v(self.extended_bounds))
                + opt_entry("order"@, opt_v(self.order))
        )
    }

    fn to_json(&self) -> (r: Json) {
        let mut e: Vec<(String, Json)> = Vec::new();
        push_entry(&mut e, "field", self.field.to_json());
        push_field(&mut e, "interval", &self.interval);
        push_field(&mut e, "min_doc_count", &self.min_doc_count);
        push_field(&mut e, "extended_bounds", &self.extended_bounds);
        push_field(&mut e, "order", &self.order);
        assert(entries_view(e@) =~= self.json_v()->Object_0);
        object(e)
    }
}

impl<'a> Histogram<'a> {
    pub fn new(field: &'a str) -> (r: Histogram<'a>)
        ensures
            r == (Histogram { field, interval: None, min_doc_count: None, extended_bounds: None, order: None }),
    {
        Histogram { field, interval: None, min_doc_count: None, extended_bounds: None, order: None }
    }

    pub fn with_interval(self, val: u64) -> (r: Self)
        ensures
            r == (Histogram { interval: Some(val), ..self }),
    {
        Histogram { interval: Some(val), ..self }
    }

    pub fn with_min_doc_count(self, val: u64) -> (r: Self)
        ensures
            r == (Histogram { min_doc_count: Some(val), ..self }),
    {
        Histogram { min_doc_count: Some(val), ..self }
    }

    pub fn with_extended_bounds(self, val: ExtendedBounds) -> (r: Self)
        ensures
            r == (Histogram { extended_bounds: Some(val), ..self }),
    {
        Histogram { extended_bounds: Some(val), ..self }
    }

    pub fn with_order(self, val: Order<'a>) -> (r: Self)
        ensures
            r == (Histogram { order: Some(val), ..self }),
    {
        Histogram { order: Some(val), ..self }
    }
}


impl<'a> Histogram<'a> {
    /// This aggregation, as one of a set, with no sub-aggregations.
    pub fn build(self) -> (r: Aggregation<'a>)
        ensures
            r == Aggregation::Bucket(BucketAggregation::Histogram(self), None),
    {
        Aggregation::Bucket(BucketAggregation::Histogram(self), None)
    }

    /// This aggregation, as one of a set, with sub-aggregations.
    pub fn build_with(self, aggs: Aggregations<'a>) -> (r: Aggregation<'a>)
        ensures
            r == Aggregation::Bucket(BucketAggregation::Histogram(self), Some(aggs)),
    {
        Aggregation::Bucket(BucketAggregation::Histogram(self), Some(aggs))
    }
}

/// The time zone of a date histogram: an offset or a name.
#[derive(Debug, Clone, Copy)]
pub enum TimeZone<'a> {
    Offset(u64),
    Str(&'a str),
}

impl<'a> ToJson for TimeZone<'a> {
    open spec fn json_v(&self) -> JsonV {
        match self {
            TimeZone::Offset(o) => JsonV::Int(*o as int),
            TimeZone::Str(s) => JsonV::Str(s@),
        }
    }

    fn to_json(&self) -> (r: Json) {
        match self {
            TimeZone::Offset(o) => Json::UInt(*o),
            TimeZone::Str(s) => Json::Str((*s).to_owned()),
        }
    }
}

/// The interval of a date histogram.
#[derive(Debug, Clone, Copy, PartialEq, Eq)]
pub enum Interval {
    Year,
    Quarter,
    Month,
    Week,
    Day,
    Hour,
    Minute,
    Second,
}

/// Law: each value is written in JSON by its ElasticSearch name (`year`, `quarter`, `month`,
/// `week`, `day`, `hour`, `minute`, `second`, in the order of the variants), and different
/// values are written differently.
pub proof fn lemma_interval_json_names(x: Interval)
    ensures
        x is Year ==> x.json_v() == JsonV::Str("year"@),
        x is Quarter ==> x.json_v() == JsonV::Str("quarter"@),
        x is Month ==> x.json_v() == JsonV::Str("month"@),
        x is Week ==> x.json_v() == JsonV::Str("week"@),
        x is Day ==> x.json_v() == JsonV::Str("day"@),
        x is Hour ==> x.json_v() == JsonV::Str("hour"@),
        x is Minute ==> x.json_v() == JsonV::Str("minute"@),
        x is Second ==> x.json_v() == JsonV::Str("second"@),
        forall|a: Interval, b: Interval| a != b ==> #[trigger] a.json_v() != #[trigger] b.json_v(),
{
    reveal_strlit("day");
    assert("day"@.len() == 3 && "day"@[0] == 'd' && "day"@[1] == 'a' && "day"@[2] == 'y');
    reveal_strlit("hour");
    assert("hour"@.len() == 4 && "hour"@[0] == 'h' && "hour"@[1] == 'o' && "hour"@[2] == 'u' && "hour"@[3] == 'r');
    reveal_strlit("minute");
    assert("minute"@.len() == 6 && "minute"@[0] == 'm' && "minute"@[1] == 'i' && "minute"@[2] == 'n' && "minute"@[3] == 'u' && "minute"@[4] == 't' && "minute"@[5] == 'e');
    reveal_strlit("month");
    assert("month"@.len() == 5 && "month"@[0] == 'm' && "month"@[1] == 'o' && "month"@[2] == 'n' && "month"@[3] == 't' && "month"@[4] == 'h');
    reveal_strlit("quarter");
    assert("quarter"@.len() == 7 && "quarter"@[0] == 'q' && "quarter"@[1] == 'u' && "quarter"@[2] == 'a' && "quarter"@[3] == 'r' && "quarter"@[4] == 't' && "quarter"@[5] == 'e' && "quarter"@[6] == 'r');
    reveal_strlit("second");
    assert("second"@.len() == 6 && "second"@[0] == 's' && "second"@[1] == 'e' && "second"@[2] == 'c' && "second"@[3] == 'o' && "second"@[4] == 'n' && "second"@[5] == 'd');
    reveal_strlit("week");
    assert("week"@.len() == 4 && "week"@[0] == 'w' && "week"@[1] == 'e' && "week"@[2] == 'e' && "week"@[3] == 'k');
    reveal_strlit("year");
    assert("year"@.len() == 4 && "year"@[0] == 'y' && "year"@[1] == 'e' && "year"@[2] == 'a' && "year"@[3] == 'r');
}

impl ToJson for Interval {
    open spec fn json_v(&self) -> JsonV {
        JsonV::Str(
            match self {
                Interval::Year => "year"@,
                Interval::Quarter => "quarter"@,
                Interval::Month => "month"@,
                Interval::Week => "week"@,
                Interval::Day => "day"@,
                Interval::Hour => "hour"@,
                Interval::Minute => "minute"@,
                Interval::Second => "second"@,
            },
        )
    }

    fn to_json(&self) -> (r: Json) {
        match self {
            Interval::Year => str_json("year"),
            Interval::Quarter => str_json("quarter"),
            Interval::Month => str_json("month"),
            Interval::Week => str_json("week"),
            Interval::Day => str_json("day"),
            Interval::Hour => str_json("hour"),
            Interval::Minute => str_json("minute"),
            Interval::Second => str_json("second"),
        }
    }
}


impl Interval {
    /// The default interval is a day.
    pub fn default() -> (r: Interval)
        ensures
            r == Interval::Day,
    {
        Interval::Day
    }
}

/// Date histogram aggregation.
#[derive(Debug)]
pub struct DateHistogram<'a> {
    pub field: &'a str,
    pub interval: Interval,
    pub time_zone: Option<TimeZone<'a>>,
    pub offset: Option<Duration>,
    pub format: Option<&'a str>,
}

impl<'a> ToJson for DateHistogram<'a> {
    open spec fn json_v(&self) -> JsonV {
        JsonV::Object(
            one_entry("field"@, self.field.json_v())
                + one_entry("interval"@, self.interval.json_v())
                + opt_entry("time_zone"@, opt_v(self.time_zone))
                + opt_entry("offset"@, opt_v(self.offset))
                + opt_entry("format"@, opt_v(self.format))
        )
    }

    fn to_json(&self) -> (r: Json) {
        let mut e: Vec<(String, Json)> = Vec::new();
        push_entry(&mut e, "field", self.field.to_json());
        push_entry(&mut e, "interval", self.interval.to_json());
        push_field(&mut e, "time_zone", &self.time_zone);
        push_field(&mut e, "offset", &self.offset);
        push_field(&mut e, "format", &self.format);
        assert(entries_view(e@) =~= self.json_v()->Object_0);
        object(e)
    }
}

impl<'a> DateHistogram<'a> {
    pub fn new(field: &'a str, interval: Interval) -> (r: DateHistogram<'a>)
        ensures
            r == (DateHistogram { field, interval, time_zone: None, offset: None, format: None }),
    {
        DateHistogram { field, interval, time_zone: None, offset: None, format: None }
    }

    pub fn with_time_zone(self, val: TimeZone<'a>) -> (r: Self)
        ensures
            r == (DateHistogram { time_zone: Some(val), ..self }),
    {
        DateHistogram { time_zone: Some(val), ..self }
    }

    pub fn with_offset(self, val: Duration) -> (r: Self)
        ensures
            r == (DateHistogram { offset: Some(val), ..self }),
    {
        DateHistogram { offset: Some(val), ..self }
    }

    pub fn with_format(self, val: &'a str) -> (r: Self)
        ensures
            r == (DateHistogram { format: Some(val), ..self }),
    {
        DateHistogram { format: Some(val), ..self }
    }
}


impl<'a> DateHistogram<'a> {
    /// This aggregation, as one of a set, with no sub-aggregations.
    pub fn build(self) -> (r: Aggregation<'a>)
        ensures
            r == Aggregation::Bucket(BucketAggregation::DateHistogram(self), None),
    {
        Aggregation::Bucket(BucketAggregation::DateHistogram(self), None)
    }

    /// This aggregation, as one of a set, with sub-aggregations.
    pub fn build_with(self, aggs: Aggregations<'a>) -> (r: Aggregation<'a>)
        ensures
            r == Aggregation::Bucket(BucketAggregation::DateHistogram(self), Some(aggs)),
    {
        Aggregation::Bucket(BucketAggregation::DateHistogram(self), Some(aggs))
    }
}

/// One range of distances of a geo distance aggregation.
#[derive(Debug, Clone, Copy)]
pub struct GeoDistanceInst {
    pub from: Option<Decimal>,
    pub to: Option<Decimal>,
}

impl ToJson for GeoDistanceInst {
    open spec fn json_v(&self) -> JsonV {
        JsonV::Object(
            opt_entry("from"@, opt_v(self.from))
                + opt_entry("to"@, opt_v(self.to))
        )
    }

    fn to_json(&self) -> (r: Json) {
        let mut e: Vec<(String, Json)> = Vec::new();
        push_field(&mut e, "from", &self.from);
        push_field(&mut e, "to", &self.to);
        assert(entries_view(e@) =~= self.json_v()->Object_0);
        object(e)
    }
}

impl GeoDistanceInst {
    pub fn new() -> (r: GeoDistanceInst)
        ensures
            r == (GeoDistanceInst { from: None, to: None }),
    {
        GeoDistanceInst { from: None, to: None }
    }

    pub fn with_from(self, val: Decimal) -> (r: Self)
        ensures
            r == (GeoDistanceInst { from: Some(val), ..self }),
    {
        GeoDistanceInst { from: Some(val), ..self }
    }

    pub fn with_to(self, val: Decimal) -> (r: Self)
        ensures
            r == (GeoDistanceInst { to: Some(val), ..self }),
    {
        GeoDistanceInst { to: Some(val), ..self }
    }
}

/// Geo distance aggregation.
#[derive(Debug)]
pub struct GeoDistance<'a> {
    pub field: &'a str,
    pub origin: &'a Location,
    pub unit: Option<DistanceUnit>,
    pub distance_type: Option<DistanceType>,
    pub ranges: &'a [GeoDistanceInst],
}

impl<'a> ToJson for GeoDistance<'a> {
    open spec fn json_v(&self) -> JsonV {
        JsonV::Object(
            one_entry("field"@, self.field.json_v())
                + one_entry("origin"@, self.origin.json_v())
                + opt_entry("unit"@, opt_v(self.unit))
                + opt_entry("distance_type"@, opt_v(self.distance_type))
                + one_entry("ranges"@, list_v(self.ranges@))
        )
    }

    fn to_json(&self) -> (r: Json) {
        let mut e: Vec<(String, Json)> = Vec::new();
        push_entry(&mut e, "field", self.field.to_json());
        push_entry(&mut e, "origin", self.origin.to_json());
        push_field(&mut e, "unit", &self.unit);
        push_field(&mut e, "distance_type", &self.distance_type);
        push_entry(&mut e, "ranges", slice_json(self.ranges));
        assert(entries_view(e@) =~= self.json_v()->Object_0);
        object(e)
    }
}

impl<'a> GeoDistance<'a> {
    pub fn new(field: &'a str, origin: &'a Location, ranges: &'a [GeoDistanceInst]) -> (r: GeoDistance<'a>)
        ensures
            r == (GeoDistance { field, origin, unit: None, distance_type: None, ranges }),
    {
        GeoDistance { field, origin, unit: None, distance_type: None, ranges }
    }

    pub fn with_unit(self, val: DistanceUnit) -> (r: Self)
        ensures
            r == (GeoDistance { unit: Some(val), ..self }),
    {
        GeoDistance { unit: Some(val), ..self }
    }

    pub fn with_distance_type(self, val: DistanceType) -> (r: Self)
        ensures
            r == (GeoDistance { distance_type: Some(val), ..self }),
    {
        GeoDistance { distance_type: Some(val), ..self }
    }
}


impl<'a> GeoDistance<'a> {
    pub fn inst() -> (r: GeoDistanceInst)
        ensures
            r.from is None,
            r.to is None,
    {
        GeoDistanceInst::new()
    }
}


impl<'a> GeoDistance<'a> {
    /// This aggregation, as one of a set, with no sub-aggregations.
    pub fn build(self) -> (r: Aggregation<'a>)
        ensures
            r == Aggregation::Bucket(BucketAggregation::GeoDistance(self), None),
    {
        Aggregation::Bucket(BucketAggregation::GeoDistance(self), None)
    }

    /// This aggregation, as one of a set, with sub-aggregations.
    pub fn build_with(self, aggs: Aggregations<'a>) -> (r: Aggregation<'a>)
        ensures
            r == Aggregation::Bucket(BucketAggregation::GeoDistance(self), Some(aggs)),
    {
        Aggregation::Bucket(BucketAggregation::GeoDistance(self), Some(aggs))
    }
}

/// Geohash aggregation
#[derive(Debug)]
pub struct GeohashGrid<'a> {
    pub field: &'a str,
    pub precision: Option<u64>,
    pub size: Option<u64>,
    pub shard_size: Option<u64>,
}

impl<'a> ToJson for GeohashGrid<'a> {
    open spec fn json_v(&self) -> JsonV {
        JsonV::Object(
            one_entry("field"@, self.field.json_v())
                + opt_entry("precision"@, opt_v(self.precision))
                + opt_entry("size"@, opt_v(self.size))
                + opt_entry("shard_size"@, opt_v(self.shard_size))
        )
    }

    fn to_json(&self) -> (r: Json) {
        let mut e: Vec<(String, Json)> = Vec::new();
        push_entry(&mut e, "field", self.field.to_json());
        push_field(&mut e, "precision", &self.precision);
        push_field(&mut e, "size", &self.size);
        push_field(&mut e, "shard_size", &self.shard_size);
        assert(entries_view(e@) =~= self.json_v()->Object_0);
        object(e)
    }
}

impl<'a> GeohashGrid<'a> {
    pub fn new(field: &'a str) -> (r: GeohashGrid<'a>)
        ensures
            r == (GeohashGrid { field, precision: None, size: None, shard_size: None }),
    {
        GeohashGrid { field, precision: None, size: None, shard_size: None }
    }

    pub fn with_precision(self, val: u64) -> (r: Self)
        ensures
            r == (GeohashGrid { precision: Some(val), ..self }),
    {
        GeohashGrid { precision: Some(val), ..self }
    }

    pub fn with_size(self, val: u64) -> (r: Self)
        ensures
            r == (GeohashGrid { size: Some(val), ..self }),
    {
        GeohashGrid { size: Some(val), ..self }
    }

    pub fn with_shard_size(self, val: u64) -> (r: Self)
        ensures
            r == (GeohashGrid { shard_size: Some(val), ..self }),
    {
        GeohashGrid { shard_size: Some(val), ..self }
    }
}


impl<'a> GeohashGrid<'a> {
    /// This aggregation, as one of a set, with no sub-aggregations.
    pub fn build(self) -> (r: Aggregation<'a>)
        ensures
            r == Aggregation::Bucket(BucketAggregation::GeohashGrid(self), None),
    {
        Aggregation::Bucket(BucketAggregation::GeohashGrid(self), None)
    }

    /// This aggregation, as one of a set, with sub-aggregations.
    pub fn build_with(self, aggs: Aggregations<'a>) -> (r: Aggregation<'a>)
        ensures
            r == Aggregation::Bucket(BucketAggregation::GeohashGrid(self), Some(aggs)),
    {
        Aggregation::Bucket(BucketAggregation::GeohashGrid(self), Some(aggs))
    }
}

/// The set of bucket aggregations
#[derive(Debug)]
pub enum BucketAggregation<'a> {
    Global(Global<'a>),
    Filter(Filter<'a>),
    Filters(Filters<'a>),
    Missing(Missing<'a>),
    Nested(Nested<'a>),
    ReverseNested(ReverseNested<'a>),
    Children(Children<'a>),
    Terms(Terms<'a>),
    Range(Range<'a>),
    DateRange(DateRange<'a>),
    Histogram(Histogram<'a>),
    DateHistogram(DateHistogram<'a>),
    GeoDistance(GeoDistance<'a>),
    GeohashGrid(GeohashGrid<'a>),
}


/// Law: each value is written by its ElasticSearch name (`global`, `filter`, `filters`,
/// `missing`, `nested`, `reverse_nested`, `children`, `terms`, `range`, `date_range`,
/// `histogram`, `date_histogram`, `geo_distance`, `geohash_grid`, in the order of the
/// variants).
pub proof fn lemma_bucket_aggregation_names(x: BucketAggregation)
    ensures
        x is Global ==> x.details_v() == "global"@,
        x is Filter ==> x.details_v() == "filter"@,
        x is Filters ==> x.details_v() == "filters"@,
        x is Missing ==> x.details_v() == "missing"@,
        x is Nested ==> x.details_v() == "nested"@,
        x is ReverseNested ==> x.details_v() == "reverse_nested"@,
        x is Children ==> x.details_v() == "children"@,
        x is Terms ==> x.details_v() == "terms"@,
        x is Range ==> x.details_v() == "range"@,
        x is DateRange ==> x.details_v() == "date_range"@,
        x is Histogram ==> x.details_v() == "histogram"@,
        x is DateHistogram ==> x.details_v() == "date_histogram"@,
        x is GeoDistance ==> x.details_v() == "geo_distance"@,
        x is GeohashGrid ==> x.details_v() == "geohash_grid"@,
{
}

impl<'a> BucketAggregation<'a> {
    /// The name of the kind of aggregation.
    pub open spec fn details_v(&self) -> Seq<char> {
        match self {
            BucketAggregation::Global(_) => "global"@,
            BucketAggregation::Filter(_) => "filter"@,
            BucketAggregation::Filters(_) => "filters"@,
            BucketAggregation::Missing(_) => "missing"@,
            BucketAggregation::Nested(_) => "nested"@,
            BucketAggregation::ReverseNested(_) => "reverse_nested"@,
            BucketAggregation::Children(_) => "children"@,
            BucketAggregation::Terms(_) => "terms"@,
            BucketAggregation::Range(_) => "range"@,
            BucketAggregation::DateRange(_) => "date_range"@,
            BucketAggregation::Histogram(_) => "histogram"@,
            BucketAggregation::DateHistogram(_) => "date_histogram"@,
            BucketAggregation::GeoDistance(_) => "geo_distance"@,
            BucketAggregation::GeohashGrid(_) => "geohash_grid"@,
        }
    }

    pub fn details(&self) -> (r: &'static str)
        ensures
            r@ == self.details_v(),
    {
        match self {
            BucketAggregation::Global(_) => "global",
            BucketAggregation::Filter(_) => "filter",
            BucketAggregation::Filters(_) => "filters",
            BucketAggregation::Missing(_) => "missing",
            BucketAggregation::Nested(_) => "nested",
            BucketAggregation::ReverseNested(_) => "reverse_nested",
            BucketAggregation::Children(_) => "children",
            BucketAggregation::Terms(_) => "terms",
            BucketAggregation::Range(_) => "range",
            BucketAggregation::DateRange(_) => "date_range",
            BucketAggregation::Histogram(_) => "histogram",
            BucketAggregation::DateHistogram(_) => "date_histogram",
            BucketAggregation::GeoDistance(_) => "geo_distance",
            BucketAggregation::GeohashGrid(_) => "geohash_grid",
        }
    }
}

/// Written as the aggregation it holds.
impl<'a> ToJson for BucketAggregation<'a> {
    open spec fn json_v(&self) -> JsonV {
        match self {
            BucketAggregation::Global(a) => a.json_v(),
            BucketAggregation::Filter(a) => a.json_v(),
            BucketAggregation::Filters(a) => a.json_v(),
            BucketAggregation::Missing(a) => a.json_v(),
            BucketAggregation::Nested(a) => a.json_v(),
            BucketAggregation::ReverseNested(a) => a.json_v(),
            BucketAggregation::Children(a) => a.json_v(),
            BucketAggregation::Terms(a) => a.json_v(),
            BucketAggregation::Range(a) => a.json_v(),
            BucketAggregation::DateRange(a) => a.json_v(),
            BucketAggregation::Histogram(a) => a.json_v(),
            BucketAggregation::DateHistogram(a) => a.json_v(),
            BucketAggregation::GeoDistance(a) => a.json_v(),
            BucketAggregation::GeohashGrid(a) => a.json_v(),
        }
    }

    fn to_json(&self) -> (r: Json) {
        match self {
            BucketAggregation::Global(a) => a.to_json(),
            BucketAggregation::Filter(a) => a.to_json(),
            BucketAggregation::Filters(a) => a.to_json(),
            BucketAggregation::Missing(a) => a.to_json(),
            BucketAggregation::Nested(a) => a.to_json(),
            BucketAggregation::ReverseNested(a) => a.to_json(),
            BucketAggregation::Children(a) => a.to_json(),
            BucketAggregation::Terms(a) => a.to_json(),
            BucketAggregation::Range(a) => a.to_json(),
            BucketAggregation::DateRange(a) => a.to_json(),
            BucketAggregation::Histogram(a) => a.to_json(),
            BucketAggregation::DateHistogram(a) => a.to_json(),
            BucketAggregation::GeoDistance(a) => a.to_json(),
            BucketAggregation::GeohashGrid(a) => a.to_json(),
        }
    }
}

// results

/// Global result
#[derive(Debug)]
pub struct GlobalResult {
    pub doc_count: u64,
    pub aggs: Option<AggregationsResult>,
}

impl GlobalResult {
    /// Whether the JSON value can be read as this result, with the
    /// sub-aggregations asked for.
    pub open spec fn readable(j: JsonV, sub: Option<Aggregations>) -> bool
        decreases sub, 6nat,
    {
        u64_field(j, "doc_count"@) is Some
        && sub_readable(j, sub)
    }

    /// Whether this result is what the JSON value reads as.
    pub open spec fn reads(self, j: JsonV, sub: Option<Aggregations>) -> bool
        decreases sub, 6nat,
    {
        u64_field(j, "doc_count"@) == Some(self.doc_count)
        && sub_reads(self.aggs, j, sub)
    }

    /// The error that reading gives, where the first field that cannot be
    /// read is one of its own (not within sub-aggregations).
    pub open spec fn known_error(j: JsonV, sub: Option<Aggregations>) -> Option<Seq<char>> {
        first_error(u64_error(j, "doc_count"@), sub_error(j, sub))
    }

    /// Reads the result from its JSON form.
    pub fn from(j: &Json, sub: &Option<Aggregations>) -> (r: Result<GlobalResult, EsError>)
        ensures
            r is Ok <==> Self::readable(jv(*j), *sub),
            r matches Ok(v) ==> v.reads(jv(*j), *sub),
            Self::known_error(jv(*j), *sub) matches Some(m) ==> (r matches Err(e) && is_error(e, m)),
        decreases *sub, 6nat,
    {
        let doc_count = match read_u64(j, "doc_count") {
            Ok(x) => x,
            Err(e) => return Err(e),
        };
        let aggs = match extract_aggs(j, sub) {
            Ok(x) => x,
            Err(e) => return Err(e),
        };
        Ok(GlobalResult { doc_count, aggs })
    }

    pub fn aggs_ref(&self) -> (r: Option<&AggregationsResult>)
        ensures
            r == match self.aggs { Some(a) => Some(&a), None => None },
    {
        match &self.aggs {
            Some(a) => Some(a),
            None => None,
        }
    }
}

/// Filter result
#[derive(Debug)]
pub struct FilterResult {
    pub doc_count: u64,
    pub aggs: Option<AggregationsResult>,
}

impl FilterResult {
    /// Whether the JSON value can be read as this result, with the
    /// sub-aggregations asked for.
    pub open spec fn readable(j: JsonV, sub: Option<Aggregations>) -> bool
        decreases sub, 6nat,
    {
        u64_field(j, "doc_count"@) is Some
        && sub_readable(j, sub)
    }

    /// Whether this result is what the JSON value reads as.
    pub open spec fn reads(self, j: JsonV, sub: Option<Aggregations>) -> bool
        decreases sub, 6nat,
    {
        u64_field(j, "doc_count"@) == Some(self.doc_count)
        && sub_reads(self.aggs, j, sub)
    }

    /// The error that reading gives, where the first field that cannot be
    /// read is one of its own (not within sub-aggregations).
    pub open spec fn known_error(j: JsonV, sub: Option<Aggregations>) -> Option<Seq<char>> {
        first_error(u64_error(j, "doc_count"@), sub_error(j, sub))
    }

    /// Reads the result from its JSON form.
    pub fn from(j: &Json, sub: &Option<Aggregations>) -> (r: Result<FilterResult, EsError>)
        ensures
            r is Ok <==> Self::readable(jv(*j), *sub),
            r matches Ok(v) ==> v.reads(jv(*j), *sub),
            Self::known_error(jv(*j), *sub) matches Some(m) ==> (r matches Err(e) && is_error(e, m)),
        decreases *sub, 6nat,
    {
        let doc_count = match read_u64(j, "doc_count") {
            Ok(x) => x,
            Err(e) => return Err(e),
        };
        let aggs = match extract_aggs(j, sub) {
            Ok(x) => x,
            Err(e) => return Err(e),
        };
        Ok(FilterResult { doc_count, aggs })
    }

    pub fn aggs_ref(&self) -> (r: Option<&AggregationsResult>)
        ensures
            r == match self.aggs { Some(a) => Some(&a), None => None },
    {
        match &self.aggs {
            Some(a) => Some(a),
            None => None,
        }
    }
}

/// One bucket of a filters result
#[derive(Debug)]
pub struct FiltersBucketResult {
    pub doc_count: u64,
    pub aggs: Option<AggregationsResult>,
}

impl FiltersBucketResult {
    /// Whether the JSON value can be read as this result, with the
    /// sub-aggregations asked for.
    pub open spec fn readable(j: JsonV, sub: Option<Aggregations>) -> bool
        decreases sub, 6nat,
    {
        u64_field(j, "doc_count"@) is Some
        && sub_readable(j, sub)
    }

    /// Whether this result is what the JSON value reads as.
    pub open spec fn reads(self, j: JsonV, sub: Option<Aggregations>) -> bool
        decreases sub, 6nat,
    {
        u64_field(j, "doc_count"@) == Some(self.doc_count)
        && sub_reads(self.aggs, j, sub)
    }

    /// The error that reading gives, where the first field that cannot be
    /// read is one of its own (not within sub-aggregations).
    pub open spec fn known_error(j: JsonV, sub: Option<Aggregations>) -> Option<Seq<char>> {
        first_error(u64_error(j, "doc_count"@), sub_error(j, sub))
    }

    /// Reads the result from its JSON form.
    pub fn from(j: &Json, sub: &Option<Aggregations>) -> (r: Result<FiltersBucketResult, EsError>)
        ensures
            r is Ok <==> Self::readable(jv(*j), *sub),
            r matches Ok(v) ==> v.reads(jv(*j), *sub),
            Self::known_error(jv(*j), *sub) matches Some(m) ==> (r matches Err(e) && is_error(e, m)),
        decreases *sub, 6nat,
    {
        let doc_count = match read_u64(j, "doc_count") {
            Ok(x) => x,
            Err(e) => return Err(e),
        };
        let aggs = match extract_aggs(j, sub) {
            Ok(x) => x,
            Err(e) => return Err(e),
        };
        Ok(FiltersBucketResult { doc_count, aggs })
    }

    pub fn aggs_ref(&self) -> (r: Option<&AggregationsResult>)
        ensures
            r == match self.aggs { Some(a) => Some(&a), None => None },
    {
        match &self.aggs {
            Some(a) => Some(a),
            None => None,
        }
    }
}

/// Missing result
#[derive(Debug)]
pub struct MissingResult {
    pub doc_count: u64,
    pub aggs: Option<AggregationsResult>,
}

impl MissingResult {
    /// Whether the JSON value can be read as this result, with the
    /// sub-aggregations asked for.
    pub open spec fn readable(j: JsonV, sub: Option<Aggregations>) -> bool
        decreases sub, 6nat,
    {
        u64_field(j, "doc_count"@) is Some
        && sub_readable(j, sub)
    }

    /// Whether this result is what the JSON value reads as.
    pub open spec fn reads(self, j: JsonV, sub: Option<Aggregations>) -> bool
        decreases sub, 6nat,
    {
        u64_field(j, "doc_count"@) == Some(self.doc_count)
        && sub_reads(self.aggs, j, sub)
    }

    /// The error that reading gives, where the first field that cannot be
    /// read is one of its own (not within sub-aggregations).
    pub open spec fn known_error(j: JsonV, sub: Option<Aggregations>) -> Option<Seq<char>> {
        first_error(u64_error(j, "doc_count"@), sub_error(j, sub))
    }

    /// Reads the result from its JSON form.
    pub fn from(j: &Json, sub: &Option<Aggregations>) -> (r: Result<MissingResult, EsError>)
        ensures
            r is Ok <==> Self::readable(jv(*j), *sub),
            r matches Ok(v) ==> v.reads(jv(*j), *sub),
            Self::known_error(jv(*j), *sub) matches Some(m) ==> (r matches Err(e) && is_error(e, m)),
        decreases *sub, 6nat,
    {
        let doc_count = match read_u64(j, "doc_count") {
            Ok(x) => x,
            Err(e) => return Err(e),
        };
        let aggs = match extract_aggs(j, sub) {
            Ok(x) => x,
            Err(e) => return Err(e),
        };
        Ok(MissingResult { doc_count, aggs })
    }

    pub fn aggs_ref(&self) -> (r: Option<&AggregationsResult>)
        ensures
            r == match self.aggs { Some(a) => Some(&a), None => None },
    {
        match &self.aggs {
            Some(a) => Some(a),
            None => None,
        }
    }
}

/// Nested result
#[derive(Debug)]
pub struct NestedResult {
    pub aggs: Option<AggregationsResult>,
}

impl NestedResult {
    /// Whether the JSON value can be read as this result, with the
    /// sub-aggregations asked for.
    pub open spec fn readable(j: JsonV, sub: Option<Aggregations>) -> bool
        decreases sub, 6nat,
    {
        sub_readable(j, sub)
    }

    /// Whether this result is what the JSON value reads as.
    pub open spec fn reads(self, j: JsonV, sub: Option<Aggregations>) -> bool
        decreases sub, 6nat,
    {
        sub_reads(self.aggs, j, sub)
    }

    /// The error that reading gives, where the first field that cannot be
    /// read is one of its own (not within sub-aggregations).
    pub open spec fn known_error(j: JsonV, sub: Option<Aggregations>) -> Option<Seq<char>> {
        sub_error(j, sub)
    }

    /// Reads the result from its JSON form.
    pub fn from(j: &Json, sub: &Option<Aggregations>) -> (r: Result<NestedResult, EsError>)
        ensures
            r is Ok <==> Self::readable(jv(*j), *sub),
            r matches Ok(v) ==> v.reads(jv(*j), *sub),
            Self::known_error(jv(*j), *sub) matches Some(m) ==> (r matches Err(e) && is_error(e, m)),
        decreases *sub, 6nat,
    {
        let aggs = match extract_aggs(j, sub) {
            Ok(x) => x,
            Err(e) => return Err(e),
        };
        Ok(NestedResult { aggs })
    }

    pub fn aggs_ref(&self) -> (r: Option<&AggregationsResult>)
        ensures
            r == match self.aggs { Some(a) => Some(&a), None => None },
    {
        match &self.aggs {
            Some(a) => Some(a),
            None => None,
        }
    }
}

/// Reverse nested result
#[derive(Debug)]
pub struct ReverseNestedResult {
    pub aggs: Option<AggregationsResult>,
}

impl ReverseNestedResult {
    /// Whether the JSON value can be read as this result, with the
    /// sub-aggregations asked for.
    pub open spec fn readable(j: JsonV, sub: Option<Aggregations>) -> bool
        decreases sub, 6nat,
    {
        sub_readable(j, sub)
    }

    /// Whether this result is what the JSON value reads as.
    pub open spec fn reads(self, j: JsonV, sub: Option<Aggregations>) -> bool
        decreases sub, 6nat,
    {
        sub_reads(self.aggs, j, sub)
    }

    /// The error that reading gives, where the first field that cannot be
    /// read is one of its own (not within sub-aggregations).
    pub open spec fn known_error(j: JsonV, sub: Option<Aggregations>) -> Option<Seq<char>> {
        sub_error(j, sub)
    }

    /// Reads the result from its JSON form.
    pub fn from(j: &Json, sub: &Option<Aggregations>) -> (r: Result<ReverseNestedResult, EsError>)
        ensures
            r is Ok <==> Self::readable(jv(*j), *sub),
            r matches Ok(v) ==> v.reads(jv(*j), *sub),
            Self::known_error(jv(*j), *sub) matches Some(m) ==> (r matches Err(e) && is_error(e, m)),
        decreases *sub, 6nat,
    {
        let aggs = match extract_aggs(j, sub) {
            Ok(x) => x,
            Err(e) => return Err(e),
        };
        Ok(ReverseNestedResult { aggs })
    }

    pub fn aggs_ref(&self) -> (r: Option<&AggregationsResult>)
        ensures
            r == match self.aggs { Some(a) => Some(&a), None => None },
    {
        match &self.aggs {
            Some(a) => Some(a),
            None => None,
        }
    }
}

/// Children result
#[derive(Debug)]
pub struct ChildrenResult {
    pub doc_count: u64,
    pub aggs: Option<AggregationsResult>,
}

impl ChildrenResult {
    /// Whether the JSON value can be read as this result, with the
    /// sub-aggregations asked for.
    pub open spec fn readable(j: JsonV, sub: Option<Aggregations>) -> bool
        decreases sub, 6nat,
    {
        u64_field(j, "doc_count"@) is Some
        && sub_readable(j, sub)
    }

    /// Whether this result is what the JSON value reads as.
    pub open spec fn reads(self, j: JsonV, sub: Option<Aggregations>) -> bool
        decreases sub, 6nat,
    {
        u64_field(j, "doc_count"@) == Some(self.doc_count)
        && sub_reads(self.aggs, j, sub)
    }

    /// The error that reading gives, where the first field that cannot be
    /// read is one of its own (not within sub-aggregations).
    pub open spec fn known_error(j: JsonV, sub: Option<Aggregations>) -> Option<Seq<char>> {
        first_error(u64_error(j, "doc_count"@), sub_error(j, sub))
    }

    /// Reads the result from its JSON form.
    pub fn from(j: &Json, sub: &Option<Aggregations>) -> (r: Result<ChildrenResult, EsError>)
        ensures
            r is Ok <==> Self::readable(jv(*j), *sub),
            r matches Ok(v) ==> v.reads(jv(*j), *sub),
            Self::known_error(jv(*j), *sub) matches Some(m) ==> (r matches Err(e) && is_error(e, m)),
        decreases *sub, 6nat,
    {
        let doc_count = match read_u64(j, "doc_count") {
            Ok(x) => x,
            Err(e) => return Err(e),
        };
        let aggs = match extract_aggs(j, sub) {
            Ok(x) => x,
            Err(e) => return Err(e),
        };
        Ok(ChildrenResult { doc_count, aggs })
    }

    pub fn aggs_ref(&self) -> (r: Option<&AggregationsResult>)
        ensures
            r == match self.aggs { Some(a) => Some(&a), None => None },
    {
        match &self.aggs {
            Some(a) => Some(a),
            None => None,
        }
    }
}

/// One bucket of a terms result
#[derive(Debug)]
pub struct TermsBucketResult {
    pub key: JsonVal,
    pub doc_count: u64,
    pub aggs: Option<AggregationsResult>,
}

impl TermsBucketResult {
    /// Whether the JSON value can be read as this result, with the
    /// sub-aggregations asked for.
    pub open spec fn readable(j: JsonV, sub: Option<Aggregations>) -> bool
        decreases sub, 6nat,
    {
        jsonval_ok(j, "key"@)
        && u64_field(j, "doc_count"@) is Some
        && sub_readable(j, sub)
    }

    /// Whether this result is what the JSON value reads as.
    pub open spec fn reads(self, j: JsonV, sub: Option<Aggregations>) -> bool
        decreases sub, 6nat,
    {
        get_v(j, "key"@) == Some(self.key.view_v())
        && u64_field(j, "doc_count"@) == Some(self.doc_count)
        && sub_reads(self.aggs, j, sub)
    }

    /// The error that reading gives, where the first field that cannot be
    /// read is one of its own (not within sub-aggregations).
    pub open spec fn known_error(j: JsonV, sub: Option<Aggregations>) -> Option<Seq<char>> {
        first_error(key_error(j), first_error(u64_error(j, "doc_count"@), sub_error(j, sub)))
    }

    /// Reads the result from its JSON form.
    pub fn from(j: &Json, sub: &Option<Aggregations>) -> (r: Result<TermsBucketResult, EsError>)
        ensures
            r is Ok <==> Self::readable(jv(*j), *sub),
            r matches Ok(v) ==> v.reads(jv(*j), *sub),
            Self::known_error(jv(*j), *sub) matches Some(m) ==> (r matches Err(e) && is_error(e, m)),
        decreases *sub, 6nat,
    {
        let key = match read_key(j) {
            Ok(x) => x,
            Err(e) => return Err(e),
        };
        let doc_count = match read_u64(j, "doc_count") {
            Ok(x) => x,
            Err(e) => return Err(e),
        };
        let aggs = match extract_aggs(j, sub) {
            Ok(x) => x,
            Err(e) => return Err(e),
        };
        Ok(TermsBucketResult { key, doc_count, aggs })
    }

    pub fn aggs_ref(&self) -> (r: Option<&AggregationsResult>)
        ensures
            r == match self.aggs { Some(a) => Some(&a), None => None },
    {
        match &self.aggs {
            Some(a) => Some(a),
            None => None,
        }
    }
}

/// One bucket of a range result
#[derive(Debug)]
pub struct RangeBucketResult {
    pub from: Option<JsonVal>,
    pub to: Option<JsonVal>,
    pub doc_count: u64,
    pub aggs: Option<AggregationsResult>,
}

impl RangeBucketResult {
    /// Whether the JSON value can be read as this result, with the
    /// sub-aggregations asked for.
    pub open spec fn readable(j: JsonV, sub: Option<Aggregations>) -> bool
        decreases sub, 6nat,
    {
        optjv_ok(j, "from"@)
        && optjv_ok(j, "to"@)
        && u64_field(j, "doc_count"@) is Some
        && sub_readable(j, sub)
    }

    /// Whether this result is what the JSON value reads as.
    pub open spec fn reads(self, j: JsonV, sub: Option<Aggregations>) -> bool
        decreases sub, 6nat,
    {
        optjv_is(self.from, get_v(j, "from"@))
        && optjv_is(self.to, get_v(j, "to"@))
        && u64_field(j, "doc_count"@) == Some(self.doc_count)
        && sub_reads(self.aggs, j, sub)
    }

    /// The error that reading gives, where the first field that cannot be
    /// read is one of its own (not within sub-aggregations).
    pub open spec fn known_error(j: JsonV, sub: Option<Aggregations>) -> Option<Seq<char>> {
        first_error(optjv_error(j, "from"@), first_error(optjv_error(j, "to"@), first_error(u64_error(j, "doc_count"@), sub_error(j, sub))))
    }

    /// Reads the result from its JSON form.
    pub fn from(j: &Json, sub: &Option<Aggregations>) -> (r: Result<RangeBucketResult, EsError>)
        ensures
            r is Ok <==> Self::readable(jv(*j), *sub),
            r matches Ok(v) ==> v.reads(jv(*j), *sub),
            Self::known_error(jv(*j), *sub) matches Some(m) ==> (r matches Err(e) && is_error(e, m)),
        decreases *sub, 6nat,
    {
        let from = match read_opt_jsonval(j, "from") {
            Ok(x) => x,
            Err(e) => return Err(e),
        };
        let to = match read_opt_jsonval(j, "to") {
            Ok(x) => x,
            Err(e) => return Err(e),
        };
        let doc_count = match read_u64(j, "doc_count") {
            Ok(x) => x,
            Err(e) => return Err(e),
        };
        let aggs = match extract_aggs(j, sub) {
            Ok(x) => x,
            Err(e) => return Err(e),
        };
        Ok(RangeBucketResult { from, to, doc_count, aggs })
    }

    pub fn aggs_ref(&self) -> (r: Option<&AggregationsResult>)
        ensures
            r == match self.aggs { Some(a) => Some(&a), None => None },
    {
        match &self.aggs {
            Some(a) => Some(a),
            None => None,
        }
    }
}

/// One bucket of a date range result
#[derive(Debug)]
pub struct DateRangeBucketResult {
    pub from: Option<Decimal>,
    pub from_as_string: Option<String>,
    pub to: Option<Decimal>,
    pub to_as_string: Option<String>,
    pub doc_count: u64,
    pub aggs: Option<AggregationsResult>,
}

impl DateRangeBucketResult {
    /// Whether the JSON value can be read as this result, with the
    /// sub-aggregations asked for.
    pub open spec fn readable(j: JsonV, sub: Option<Aggregations>) -> bool
        decreases sub, 6nat,
    {
        opt_dec_ok(j, "from"@)
        && opt_str_ok(j, "from_as_string"@)
        && opt_dec_ok(j, "to"@)
        && opt_str_ok(j, "to_as_string"@)
        && u64_field(j, "doc_count"@) is Some
        && sub_readable(j, sub)
    }

    /// Whether this result is what the JSON value reads as.
    pub open spec fn reads(self, j: JsonV, sub: Option<Aggregations>) -> bool
        decreases sub, 6nat,
    {
        opt_dec_is(self.from, dec_field(j, "from"@))
        && opt_str_is(self.from_as_string, str_field(j, "from_as_string"@))
        && opt_dec_is(self.to, dec_field(j, "to"@))
        && opt_str_is(self.to_as_string, str_field(j, "to_as_string"@))
        && u64_field(j, "doc_count"@) == Some(self.doc_count)
        && sub_reads(self.aggs, j, sub)
    }

    /// The error that reading gives, where the first field that cannot be
    /// read is one of its own (not within sub-aggregations).
    pub open spec fn known_error(j: JsonV, sub: Option<Aggregations>) -> Option<Seq<char>> {
        first_error(opt_dec_error(j, "from"@), first_error(opt_str_error(j, "from_as_string"@), first_error(opt_dec_error(j, "to"@), first_error(opt_str_error(j, "to_as_string"@), first_error(u64_error(j, "doc_count"@), sub_error(j, sub))))))
    }

    /// Reads the result from its JSON form.
    pub fn from(j: &Json, sub: &Option<Aggregations>) -> (r: Result<DateRangeBucketResult, EsError>)
        ensures
            r is Ok <==> Self::readable(jv(*j), *sub),
            r matches Ok(v) ==> v.reads(jv(*j), *sub),
            Self::known_error(jv(*j), *sub) matches Some(m) ==> (r matches Err(e) && is_error(e, m)),
        decreases *sub, 6nat,
    {
        let from = match read_opt_decimal(j, "from") {
            Ok(x) => x,
            Err(e) => return Err(e),
        };
        let from_as_string = match read_opt_string(j, "from_as_string") {
            Ok(x) => x,
            Err(e) => return Err(e),
        };
        let to = match read_opt_decimal(j, "to") {
            Ok(x) => x,
            Err(e) => return Err(e),
        };
        let to_as_string = match read_opt_string(j, "to_as_string") {
            Ok(x) => x,
            Err(e) => return Err(e),
        };
        let doc_count = match read_u64(j, "doc_count") {
            Ok(x) => x,
            Err(e) => return Err(e),
        };
        let aggs = match extract_aggs(j, sub) {
            Ok(x) => x,
            Err(e) => return Err(e),
        };
        Ok(DateRangeBucketResult { from, from_as_string, to, to_as_string, doc_count, aggs })
    }

    pub fn aggs_ref(&self) -> (r: Option<&AggregationsResult>)
        ensures
            r == match self.aggs { Some(a) => Some(&a), None => None },
    {
        match &self.aggs {
            Some(a) => Some(a),
            None => None,
        }
    }
}

/// Used for histogram results
#[derive(Debug)]
pub struct HistogramBucketResult {
    pub key: String,
    pub doc_count: u64,
    pub aggs: Option<AggregationsResult>,
}

impl HistogramBucketResult {
    /// Whether the JSON value can be read as this result, with the
    /// sub-aggregations asked for.
    pub open spec fn readable(j: JsonV, sub: Option<Aggregations>) -> bool
        decreases sub, 6nat,
    {
        str_field(j, "key"@) is Some
        && u64_field(j, "doc_count"@) is Some
        && sub_readable(j, sub)
    }

    /// Whether this result is what the JSON value reads as.
    pub open spec fn reads(self, j: JsonV, sub: Option<Aggregations>) -> bool
        decreases sub, 6nat,
    {
        str_field(j, "key"@) == Some(self.key@)
        && u64_field(j, "doc_count"@) == Some(self.doc_count)
        && sub_reads(self.aggs, j, sub)
    }

    /// The error that reading gives, where the first field that cannot be
    /// read is one of its own (not within sub-aggregations).
    pub open spec fn known_error(j: JsonV, sub: Option<Aggregations>) -> Option<Seq<char>> {
        first_error(str_error(j, "key"@), first_error(u64_error(j, "doc_count"@), sub_error(j, sub)))
    }

    /// Reads the result from its JSON form.
    pub fn from(j: &Json, sub: &Option<Aggregations>) -> (r: Result<HistogramBucketResult, EsError>)
        ensures
            r is Ok <==> Self::readable(jv(*j), *sub),
            r matches Ok(v) ==> v.reads(jv(*j), *sub),
            Self::known_error(jv(*j), *sub) matches Some(m) ==> (r matches Err(e) && is_error(e, m)),
        decreases *sub, 6nat,
    {
        let key = match read_string(j, "key") {
            Ok(x) => x,
            Err(e) => return Err(e),
        };
        let doc_count = match read_u64(j, "doc_count") {
            Ok(x) => x,
            Err(e) => return Err(e),
        };
        let aggs = match extract_aggs(j, sub) {
            Ok(x) => x,
            Err(e) => return Err(e),
        };
        Ok(HistogramBucketResult { key, doc_count, aggs })
    }

    pub fn aggs_ref(&self) -> (r: Option<&AggregationsResult>)
        ensures
            r == match self.aggs { Some(a) => Some(&a), None => None },
    {
        match &self.aggs {
            Some(a) => Some(a),
            None => None,
        }
    }
}

/// One bucket of a date histogram result
#[derive(Debug)]
pub struct DateHistogramBucketResult {
    pub key_as_string: String,
    pub key: u64,
    pub doc_count: u64,
    pub aggs: Option<AggregationsResult>,
}

impl DateHistogramBucketResult {
    /// Whether the JSON value can be read as this result, with the
    /// sub-aggregations asked for.
    pub open spec fn readable(j: JsonV, sub: Option<Aggregations>) -> bool
        decreases sub, 6nat,
    {
        str_field(j, "key_as_string"@) is Some
        && u64_field(j, "key"@) is Some
        && u64_field(j, "doc_count"@) is Some
        && sub_readable(j, sub)
    }

    /// Whether this result is what the JSON value reads as.
    pub open spec fn reads(self, j: JsonV, sub: Option<Aggregations>) -> bool
        decreases sub, 6nat,
    {
        str_field(j, "key_as_string"@) == Some(self.key_as_string@)
        && u64_field(j, "key"@) == Some(self.key)
        && u64_field(j, "doc_count"@) == Some(self.doc_count)
        && sub_reads(self.aggs, j, sub)
    }

    /// The error that reading gives, where the first field that cannot be
    /// read is one of its own (not within sub-aggregations).
    pub open spec fn known_error(j: JsonV, sub: Option<Aggregations>) -> Option<Seq<char>> {
        first_error(str_error(j, "key_as_string"@), first_error(u64_error(j, "key"@), first_error(u64_error(j, "doc_count"@), sub_error(j, sub))))
    }

    /// Reads the result from its JSON form.
    pub fn from(j: &Json, sub: &Option<Aggregations>) -> (r: Result<DateHistogramBucketResult, EsError>)
        ensures
            r is Ok <==> Self::readable(jv(*j), *sub),
            r matches Ok(v) ==> v.reads(jv(*j), *sub),
            Self::known_error(jv(*j), *sub) matches Some(m) ==> (r matches Err(e) && is_error(e, m)),
        decreases *sub, 6nat,
    {
        let key_as_string = match read_string(j, "key_as_string") {
            Ok(x) => x,
            Err(e) => return Err(e),
        };
        let key = match read_u64(j, "key") {
            Ok(x) => x,
            Err(e) => return Err(e),
        };
        let doc_count = match read_u64(j, "doc_count") {
            Ok(x) => x,
            Err(e) => return Err(e),
        };
        let aggs = match extract_aggs(j, sub) {
            Ok(x) => x,
            Err(e) => return Err(e),
        };
        Ok(DateHistogramBucketResult { key_as_string, key, doc_count, aggs })
    }

    pub fn aggs_ref(&self) -> (r: Option<&AggregationsResult>)
        ensures
            r == match self.aggs { Some(a) => Some(&a), None => None },
    {
        match &self.aggs {
            Some(a) => Some(a),
            None => None,
        }
    }
}

/// One bucket of a geo distance result
#[derive(Debug)]
pub struct GeoDistanceBucketResult {
    pub key: String,
    pub from: Option<Decimal>,
    pub to: Option<Decimal>,
    pub doc_count: u64,
    pub aggs: Option<AggregationsResult>,
}

impl GeoDistanceBucketResult {
    /// Whether the JSON value can be read as this result, with the
    /// sub-aggregations asked for.
    pub open spec fn readable(j: JsonV, sub: Option<Aggregations>) -> bool
        decreases sub, 6nat,
    {
        str_field(j, "key"@) is Some
        && opt_dec_ok(j, "from"@)
        && opt_dec_ok(j, "to"@)
        && u64_field(j, "doc_count"@) is Some
        && sub_readable(j, sub)
    }

    /// Whether this result is what the JSON value reads as.
    pub open spec fn reads(self, j: JsonV, sub: Option<Aggregations>) -> bool
        decreases sub, 6nat,
    {
        str_field(j, "key"@) == Some(self.key@)
        && opt_dec_is(self.from, dec_field(j, "from"@))
        && opt_dec_is(self.to, dec_field(j, "to"@))
        && u64_field(j, "doc_count"@) == Some(self.doc_count)
        && sub_reads(self.aggs, j, sub)
    }

    /// The error that reading gives, where the first field that cannot be
    /// read is one of its own (not within sub-aggregations).
    pub open spec fn known_error(j: JsonV, sub: Option<Aggregations>) -> Option<Seq<char>> {
        first_error(str_error(j, "key"@), first_error(opt_dec_error(j, "from"@), first_error(opt_dec_error(j, "to"@), first_error(u64_error(j, "doc_count"@), sub_error(j, sub)))))
    }

    /// Reads the result from its JSON form.
    pub fn from(j: &Json, sub: &Option<Aggregations>) -> (r: Result<GeoDistanceBucketResult, EsError>)
        ensures
            r is Ok <==> Self::readable(jv(*j), *sub),
            r matches Ok(v) ==> v.reads(jv(*j), *sub),
            Self::known_error(jv(*j), *sub) matches Some(m) ==> (r matches Err(e) && is_error(e, m)),
        decreases *sub, 6nat,
    {
        let key = match read_string(j, "key") {
            Ok(x) => x,
            Err(e) => return Err(e),
        };
        let from = match read_opt_decimal(j, "from") {
            Ok(x) => x,
            Err(e) => return Err(e),
        };
        let to = match read_opt_decimal(j, "to") {
            Ok(x) => x,
            Err(e) => return Err(e),
        };
        let doc_count = match read_u64(j, "doc_count") {
            Ok(x) => x,
            Err(e) => return Err(e),
        };
        let aggs = match extract_aggs(j, sub) {
            Ok(x) => x,
            Err(e) => return Err(e),
        };
        Ok(GeoDistanceBucketResult { key, from, to, doc_count, aggs })
    }

    pub fn aggs_ref(&self) -> (r: Option<&AggregationsResult>)
        ensures
            r == match self.aggs { Some(a) => Some(&a), None => None },
    {
        match &self.aggs {
            Some(a) => Some(a),
            None => None,
        }
    }
}

/// One bucket of a geohash grid result
#[derive(Debug)]
pub struct GeohashGridBucketResult {
    pub key: String,
    pub doc_count: u64,
    pub aggs: Option<AggregationsResult>,
}

impl GeohashGridBucketResult {
    /// Whether the JSON value can be read as this result, with the
    /// sub-aggregations asked for.
    pub open spec fn readable(j: JsonV, sub: Option<Aggregations>) -> bool
        decreases sub, 6nat,
    {
        str_field(j, "key"@) is Some
        && u64_field(j, "doc_count"@) is Some
        && sub_readable(j, sub)
    }

    /// Whether this result is what the JSON value reads as.
    pub open spec fn reads(self, j: JsonV, sub: Option<Aggregations>) -> bool
        decreases sub, 6nat,
    {
        str_field(j, "key"@) == Some(self.key@)
        && u64_field(j, "doc_count"@) == Some(self.doc_count)
        && sub_reads(self.aggs, j, sub)
    }

    /// The error that reading gives, where the first field that cannot be
    /// read is one of its own (not within sub-aggregations).
    pub open spec fn known_error(j: JsonV, sub: Option<Aggregations>) -> Option<Seq<char>> {
        first_error(str_error(j, "key"@), first_error(u64_error(j, "doc_count"@), sub_error(j, sub)))
    }

    /// Reads the result from its JSON form.
    pub fn from(j: &Json, sub: &Option<Aggregations>) -> (r: Result<GeohashGridBucketResult, EsError>)
        ensures
            r is Ok <==> Self::readable(jv(*j), *sub),
            r matches Ok(v) ==> v.reads(jv(*j), *sub),
            Self::known_error(jv(*j), *sub) matches Some(m) ==> (r matches Err(e) && is_error(e, m)),
        decreases *sub, 6nat,
    {
        let key = match read_string(j, "key") {
            Ok(x) => x,
            Err(e) => return Err(e),
        };
        let doc_count = match read_u64(j, "doc_count") {
            Ok(x) => x,
            Err(e) => return Err(e),
        };
        let aggs = match extract_aggs(j, sub) {
            Ok(x) => x,
            Err(e) => return Err(e),
        };
        Ok(GeohashGridBucketResult { key, doc_count, aggs })
    }

    pub fn aggs_ref(&self) -> (r: Option<&AggregationsResult>)
        ensures
            r == match self.aggs { Some(a) => Some(&a), None => None },
    {
        match &self.aggs {
            Some(a) => Some(a),
            None => None,
        }
    }
}

/// Filters result
#[derive(Debug)]
pub struct FiltersResult {
    pub buckets: KeyedMap<FiltersBucketResult>,
}

impl FiltersResult {
    /// For each named bucket, whether it can be read.
    pub open spec fn items_readable(es: Seq<(Seq<char>, JsonV)>, sub: Option<Aggregations>) -> Seq<bool>
        decreases sub, 7nat,
    {
        Seq::new(es.len(), |i: int| FiltersBucketResult::readable(es[i].1, sub))
    }

    /// For each named bucket, whether the result has its name and is what
    /// it reads as.
    pub open spec fn items_read(bs: Seq<(Seq<char>, FiltersBucketResult)>, es: Seq<(Seq<char>, JsonV)>, sub: Option<Aggregations>) -> Seq<bool>
        decreases sub, 7nat,
    {
        Seq::new(es.len(), |i: int| bs[i].0 == es[i].0 && bs[i].1.reads(es[i].1, sub))
    }

    /// Whether the JSON value can be read as this result, with the
    /// sub-aggregations asked for.
    pub open spec fn readable(j: JsonV, sub: Option<Aggregations>) -> bool
        decreases sub, 8nat,
    {
        (get_v(j, "buckets"@) matches Some(JsonV::Object(es)) && all_true(Self::items_readable(es, sub)))
    }

    /// Whether this result is what the JSON value reads as.
    pub open spec fn reads(self, j: JsonV, sub: Option<Aggregations>) -> bool
        decreases sub, 8nat,
    {
        (get_v(j, "buckets"@) matches Some(JsonV::Object(es)) && self.buckets.view_v().len() == es.len() && all_true(Self::items_read(self.buckets.view_v(), es, sub)))
    }

    /// The error that reading gives, where the first field that cannot be
    /// read is one of its own or of its first bucket that cannot be read
    /// (not within sub-aggregations).
    pub open spec fn known_error(j: JsonV, sub: Option<Aggregations>) -> Option<Seq<char>> {
        match get_v(j, "buckets"@) {
            Some(JsonV::Object(es)) => {
                let i = first_false(Self::items_readable(es, sub));
                if 0 <= i < es.len() {
                    FiltersBucketResult::known_error(es[i].1, sub)
                } else {
                    None
                }
            },
            _ => Some(no_field_msg("buckets"@)),
        }
    }

    /// Reads the result from its JSON form.
    #[verifier::rlimit(40)]
    pub fn from(j: &Json, sub: &Option<Aggregations>) -> (r: Result<FiltersResult, EsError>)
        ensures
            r is Ok <==> Self::readable(jv(*j), *sub),
            r matches Ok(v) ==> v.reads(jv(*j), *sub),
            Self::known_error(jv(*j), *sub) matches Some(m) ==> (r matches Err(e) && is_error(e, m)),
        decreases *sub, 8nat,
    {
        proof {
            reveal_with_fuel(FiltersResult::readable, 2);
            reveal_with_fuel(FiltersResult::reads, 2);
        }
        let raw = match json_get(j, "buckets") {
            Some(b) => match json_object(b) {
                Some(o) => o,
                None => return Err(no_field("buckets")),
            },
            None => return Err(no_field("buckets")),
        };
        let ghost es = entries_view(raw@);
        let mut out: Vec<(String, FiltersBucketResult)> = Vec::new();
        let mut i: usize = 0;
        while i < raw.len()
            invariant
                i <= raw@.len(),
                es == entries_view(raw@),
                get_v(jv(*j), "buckets"@) == Some(JsonV::Object(es)),
                out@.len() == i,
                forall|x: int| 0 <= x < i ==> #[trigger] FiltersBucketResult::readable(es[x].1, *sub),
                forall|x: int| 0 <= x < i ==> (#[trigger] out@[x]).0@ == es[x].0 && out@[x].1.reads(es[x].1, *sub),
            decreases raw.len() - i,
        {
            assert(es[i as int] == (raw@[i as int].0@, jv(raw@[i as int].1)));
            match FiltersBucketResult::from(&raw[i].1, sub) {
                Ok(b) => out.push((raw[i].0.clone(), b)),
                Err(e) => {
                    assert(!Self::items_readable(es, *sub)[i as int]);
                    proof {
                        assert forall|k: int| 0 <= k < i implies #[trigger] Self::items_readable(es, *sub)[k] by {
                            assert(FiltersBucketResult::readable(es[k].1, *sub));
                        }
                        lemma_first_false(Self::items_readable(es, *sub), i as int);
                    }
                    return Err(e);
                },
            }
            i = i + 1;
        }
        let buckets = KeyedMap(out);
        assert forall|x: int| 0 <= x < es.len() implies (#[trigger] buckets.view_v()[x]).0 == es[x].0 && buckets.view_v()[x].1.reads(es[x].1, *sub) by {
            assert(buckets.view_v()[x] == (out@[x].0@, out@[x].1));
        }
        assert forall|k: int| 0 <= k < es.len() implies #[trigger] Self::items_readable(es, *sub)[k] by {
            assert(FiltersBucketResult::readable(es[k].1, *sub));
        }
        assert(all_true(Self::items_read(buckets.view_v(), es, *sub)));
        assert(all_true(Self::items_readable(es, *sub)));
        assert(Self::readable(jv(*j), *sub));
        proof {
            lemma_first_false_none(Self::items_readable(es, *sub));
        }
        Ok(FiltersResult { buckets })
    }
}

/// Terms result
#[derive(Debug)]
pub struct TermsResult {
    pub doc_count_error_upper_bound: u64,
    pub sum_other_doc_count: u64,
    pub buckets: Vec<TermsBucketResult>,
}

impl TermsResult {
    /// For each bucket, whether it can be read.
    pub open spec fn items_readable(a: Seq<JsonV>, sub: Option<Aggregations>) -> Seq<bool>
        decreases sub, 7nat,
    {
        Seq::new(a.len(), |i: int| TermsBucketResult::readable(a[i], sub))
    }

    /// For each bucket, whether the result is what it reads as.
    pub open spec fn items_read(bs: Seq<TermsBucketResult>, a: Seq<JsonV>, sub: Option<Aggregations>) -> Seq<bool>
        decreases sub, 7nat,
    {
        Seq::new(a.len(), |i: int| bs[i].reads(a[i], sub))
    }

    /// Whether the JSON value can be read as this result, with the
    /// sub-aggregations asked for.
    pub open spec fn readable(j: JsonV, sub: Option<Aggregations>) -> bool
        decreases sub, 8nat,
    {
        u64_field(j, "doc_count_error_upper_bound"@) is Some
        && u64_field(j, "sum_other_doc_count"@) is Some
        && (get_v(j, "buckets"@) matches Some(JsonV::Array(a)) && all_true(Self::items_readable(a, sub)))
    }

    /// Whether this result is what the JSON value reads as.
    pub open spec fn reads(self, j: JsonV, sub: Option<Aggregations>) -> bool
        decreases sub, 8nat,
    {
        u64_field(j, "doc_count_error_upper_bound"@) == Some(self.doc_count_error_upper_bound)
        && u64_field(j, "sum_other_doc_count"@) == Some(self.sum_other_doc_count)
        && (get_v(j, "buckets"@) matches Some(JsonV::Array(a)) && self.buckets@.len() == a.len() && all_true(Self::items_read(self.buckets@, a, sub)))
    }

    /// The error that reading gives, where the first field that cannot be
    /// read is one of its own or of its first bucket that cannot be read
    /// (not within sub-aggregations).
    pub open spec fn known_error(j: JsonV, sub: Option<Aggregations>) -> Option<Seq<char>> {
        first_error(u64_error(j, "doc_count_error_upper_bound"@), first_error(u64_error(j, "sum_other_doc_count"@), match get_v(j, "buckets"@) {
            Some(JsonV::Array(a)) => {
                let i = first_false(Self::items_readable(a, sub));
                if 0 <= i < a.len() {
                    TermsBucketResult::known_error(a[i], sub)
                } else {
                    None
                }
            },
            _ => Some(no_field_msg("buckets"@)),
        }))
    }

    /// Reads the result from its JSON form.
    #[verifier::rlimit(40)]
    pub fn from(j: &Json, sub: &Option<Aggregations>) -> (r: Result<TermsResult, EsError>)
        ensures
            r is Ok <==> Self::readable(jv(*j), *sub),
            r matches Ok(v) ==> v.reads(jv(*j), *sub),
            Self::known_error(jv(*j), *sub) matches Some(m) ==> (r matches Err(e) && is_error(e, m)),
        decreases *sub, 8nat,
    {
        proof {
            reveal_with_fuel(TermsResult::readable, 2);
            reveal_with_fuel(TermsResult::reads, 2);
        }
        let doc_count_error_upper_bound = match read_u64(j, "doc_count_error_upper_bound") {
            Ok(x) => x,
            Err(e) => return Err(e),
        };
        let sum_other_doc_count = match read_u64(j, "sum_other_doc_count") {
            Ok(x) => x,
            Err(e) => return Err(e),
        };
        let raw = match json_get(j, "buckets") {
            Some(b) => match json_array(b) {
                Some(a) => a,
                None => return Err(no_field("buckets")),
            },
            None => return Err(no_field("buckets")),
        };
        let ghost a = elems_view(raw@);
        let mut buckets: Vec<TermsBucketResult> = Vec::new();
        let mut i: usize = 0;
        while i < raw.len()
            invariant
                i <= raw@.len(),
                a == elems_view(raw@),
                get_v(jv(*j), "buckets"@) == Some(JsonV::Array(a)),
                u64_field(jv(*j), "doc_count_error_upper_bound"@) is Some,
                u64_field(jv(*j), "sum_other_doc_count"@) is Some,
                buckets@.len() == i,
                forall|x: int| 0 <= x < i ==> #[trigger] TermsBucketResult::readable(a[x], *sub),
                forall|x: int| 0 <= x < i ==> (#[trigger] buckets@[x]).reads(a[x], *sub),
            decreases raw.len() - i,
        {
            assert(a[i as int] == jv(raw@[i as int]));
            match TermsBucketResult::from(&raw[i], sub) {
                Ok(b) => buckets.push(b),
                Err(e) => {
                    assert(!Self::items_readable(a, *sub)[i as int]);
                    proof {
                        assert forall|k: int| 0 <= k < i implies #[trigger] Self::items_readable(a, *sub)[k] by {
                            assert(TermsBucketResult::readable(a[k], *sub));
                        }
                        lemma_first_false(Self::items_readable(a, *sub), i as int);
                    }
                    return Err(e);
                },
            }
            i = i + 1;
        }
        assert forall|k: int| 0 <= k < a.len() implies #[trigger] Self::items_readable(a, *sub)[k] by {
            assert(TermsBucketResult::readable(a[k], *sub));
        }
        assert(all_true(Self::items_read(buckets@, a, *sub)));
        assert(all_true(Self::items_readable(a, *sub)));
        assert(Self::readable(jv(*j), *sub));
        proof {
            lemma_first_false_none(Self::items_readable(a, *sub));
        }
        Ok(TermsResult { doc_count_error_upper_bound, sum_other_doc_count, buckets })
    }
}

/// Range result
#[derive(Debug)]
pub struct RangeResult {
    pub buckets: KeyedMap<RangeBucketResult>,
}

impl RangeResult {
    /// For each named bucket, whether it can be read.
    pub open spec fn items_readable(es: Seq<(Seq<char>, JsonV)>, sub: Option<Aggregations>) -> Seq<bool>
        decreases sub, 7nat,
    {
        Seq::new(es.len(), |i: int| RangeBucketResult::readable(es[i].1, sub))
    }

    /// For each named bucket, whether the result has its name and is what
    /// it reads as.
    pub open spec fn items_read(bs: Seq<(Seq<char>, RangeBucketResult)>, es: Seq<(Seq<char>, JsonV)>, sub: Option<Aggregations>) -> Seq<bool>
        decreases sub, 7nat,
    {
        Seq::new(es.len(), |i: int| bs[i].0 == es[i].0 && bs[i].1.reads(es[i].1, sub))
    }

    /// Whether the JSON value can be read as this result, with the
    /// sub-aggregations asked for.
    pub open spec fn readable(j: JsonV, sub: Option<Aggregations>) -> bool
        decreases sub, 8nat,
    {
        (get_v(j, "buckets"@) matches Some(JsonV::Object(es)) && all_true(Self::items_readable(es, sub)))
    }

    /// Whether this result is what the JSON value reads as.
    pub open spec fn reads(self, j: JsonV, sub: Option<Aggregations>) -> bool
        decreases sub, 8nat,
    {
        (get_v(j, "buckets"@) matches Some(JsonV::Object(es)) && self.buckets.view_v().len() == es.len() && all_true(Self::items_read(self.buckets.view_v(), es, sub)))
    }

    /// The error that reading gives, where the first field that cannot be
    /// read is one of its own or of its first bucket that cannot be read
    /// (not within sub-aggregations).
    pub open spec fn known_error(j: JsonV, sub: Option<Aggregations>) -> Option<Seq<char>> {
        match get_v(j, "buckets"@) {
            Some(JsonV::Object(es)) => {
                let i = first_false(Self::items_readable(es, sub));
                if 0 <= i < es.len() {
                    RangeBucketResult::known_error(es[i].1, sub)
                } else {
                    None
                }
            },
            _ => Some(no_field_msg("buckets"@)),
        }
    }

    /// Reads the result from its JSON form.
    #[verifier::rlimit(40)]
    pub fn from(j: &Json, sub: &Option<Aggregations>) -> (r: Result<RangeResult, EsError>)
        ensures
            r is Ok <==> Self::readable(jv(*j), *sub),
            r matches Ok(v) ==> v.reads(jv(*j), *sub),
            Self::known_error(jv(*j), *sub) matches Some(m) ==> (r matches Err(e) && is_error(e, m)),
        decreases *sub, 8nat,
    {
        proof {
            reveal_with_fuel(RangeResult::readable, 2);
            reveal_with_fuel(RangeResult::reads, 2);
        }
        let raw = match json_get(j, "buckets") {
            Some(b) => match json_object(b) {
                Some(o) => o,
                None => return Err(no_field("buckets")),
            },
            None => return Err(no_field("buckets")),
        };
        let ghost es = entries_view(raw@);
        let mut out: Vec<(String, RangeBucketResult)> = Vec::new();
        let mut i: usize = 0;
        while i < raw.len()
            invariant
                i <= raw@.len(),
                es == entries_view(raw@),
                get_v(jv(*j), "buckets"@) == Some(JsonV::Object(es)),
                out@.len() == i,
                forall|x: int| 0 <= x < i ==> #[trigger] RangeBucketResult::readable(es[x].1, *sub),
                forall|x: int| 0 <= x < i ==> (#[trigger] out@[x]).0@ == es[x].0 && out@[x].1.reads(es[x].1, *sub),
            decreases raw.len() - i,
        {
            assert(es[i as int] == (raw@[i as int].0@, jv(raw@[i as int].1)));
            match RangeBucketResult::from(&raw[i].1, sub) {
                Ok(b) => out.push((raw[i].0.clone(), b)),
                Err(e) => {
                    assert(!Self::items_readable(es, *sub)[i as int]);
                    proof {
                        assert forall|k: int| 0 <= k < i implies #[trigger] Self::items_readable(es, *sub)[k] by {
                            assert(RangeBucketResult::readable(es[k].1, *sub));
                        }
                        lemma_first_false(Self::items_readable(es, *sub), i as int);
                    }
                    return Err(e);
                },
            }
            i = i + 1;
        }
        let buckets = KeyedMap(out);
        assert forall|x: int| 0 <= x < es.len() implies (#[trigger] buckets.view_v()[x]).0 == es[x].0 && buckets.view_v()[x].1.reads(es[x].1, *sub) by {
            assert(buckets.view_v()[x] == (out@[x].0@, out@[x].1));
        }
        assert forall|k: int| 0 <= k < es.len() implies #[trigger] Self::items_readable(es, *sub)[k] by {
            assert(RangeBucketResult::readable(es[k].1, *sub));
        }
        assert(all_true(Self::items_read(buckets.view_v(), es, *sub)));
        assert(all_true(Self::items_readable(es, *sub)));
        assert(Self::readable(jv(*j), *sub));
        proof {
            lemma_first_false_none(Self::items_readable(es, *sub));
        }
        Ok(RangeResult { buckets })
    }
}

/// Date range result
#[derive(Debug)]
pub struct DateRangeResult {
    pub buckets: Vec<DateRangeBucketResult>,
}

impl DateRangeResult {
    /// For each bucket, whether it can be read.
    pub open spec fn items_readable(a: Seq<JsonV>, sub: Option<Aggregations>) -> Seq<bool>
        decreases sub, 7nat,
    {
        Seq::new(a.len(), |i: int| DateRangeBucketResult::readable(a[i], sub))
    }

    /// For each bucket, whether the result is what it reads as.
    pub open spec fn items_read(bs: Seq<DateRangeBucketResult>, a: Seq<JsonV>, sub: Option<Aggregations>) -> Seq<bool>
        decreases sub, 7nat,
    {
        Seq::new(a.len(), |i: int| bs[i].reads(a[i], sub))
    }

    /// Whether the JSON value can be read as this result, with the
    /// sub-aggregations asked for.
    pub open spec fn readable(j: JsonV, sub: Option<Aggregations>) -> bool
        decreases sub, 8nat,
    {
        (get_v(j, "buckets"@) matches Some(JsonV::Array(a)) && all_true(Self::items_readable(a, sub)))
    }

    /// Whether this result is what the JSON value reads as.
    pub open spec fn reads(self, j: JsonV, sub: Option<Aggregations>) -> bool
        decreases sub, 8nat,
    {
        (get_v(j, "buckets"@) matches Some(JsonV::Array(a)) && self.buckets@.len() == a.len() && all_true(Self::items_read(self.buckets@, a, sub)))
    }

    /// The error that reading gives, where the first field that cannot be
    /// read is one of its own or of its first bucket that cannot be read
    /// (not within sub-aggregations).
    pub open spec fn known_error(j: JsonV, sub: Option<Aggregations>) -> Option<Seq<char>> {
        match get_v(j, "buckets"@) {
            Some(JsonV::Array(a)) => {
                let i = first_false(Self::items_readable(a, sub));
                if 0 <= i < a.len() {
                    DateRangeBucketResult::known_error(a[i], sub)
                } else {
                    None
                }
            },
            _ => Some(no_field_msg("buckets"@)),
        }
    }

    /// Reads the result from its JSON form.
    #[verifier::rlimit(40)]
    pub fn from(j: &Json, sub: &Option<Aggregations>) -> (r: Result<DateRangeResult, EsError>)
        ensures
            r is Ok <==> Self::readable(jv(*j), *sub),
            r matches Ok(v) ==> v.reads(jv(*j), *sub),
            Self::known_error(jv(*j), *sub) matches Some(m) ==> (r matches Err(e) && is_error(e, m)),
        decreases *sub, 8nat,
    {
        proof {
            reveal_with_fuel(DateRangeResult::readable, 2);
            reveal_with_fuel(DateRangeResult::reads, 2);
        }
        let raw = match json_get(j, "buckets") {
            Some(b) => match json_array(b) {
                Some(a) => a,
                None => return Err(no_field("buckets")),
            },
            None => return Err(no_field("buckets")),
        };
        let ghost a = elems_view(raw@);
        let mut buckets: Vec<DateRangeBucketResult> = Vec::new();
        let mut i: usize = 0;
        while i < raw.len()
            invariant
                i <= raw@.len(),
                a == elems_view(raw@),
                get_v(jv(*j), "buckets"@) == Some(JsonV::Array(a)),
                buckets@.len() == i,
                forall|x: int| 0 <= x < i ==> #[trigger] DateRangeBucketResult::readable(a[x], *sub),
                forall|x: int| 0 <= x < i ==> (#[trigger] buckets@[x]).reads(a[x], *sub),
            decreases raw.len() - i,
        {
            assert(a[i as int] == jv(raw@[i as int]));
            match DateRangeBucketResult::from(&raw[i], sub) {
                Ok(b) => buckets.push(b),
                Err(e) => {
                    assert(!Self::items_readable(a, *sub)[i as int]);
                    proof {
                        assert forall|k: int| 0 <= k < i implies #[trigger] Self::items_readable(a, *sub)[k] by {
                            assert(DateRangeBucketResult::readable(a[k], *sub));
                        }
                        lemma_first_false(Self::items_readable(a, *sub), i as int);
                    }
                    return Err(e);
                },
            }
            i = i + 1;
        }
        assert forall|k: int| 0 <= k < a.len() implies #[trigger] Self::items_readable(a, *sub)[k] by {
            assert(DateRangeBucketResult::readable(a[k], *sub));
        }
        assert(all_true(Self::items_read(buckets@, a, *sub)));
        assert(all_true(Self::items_readable(a, *sub)));
        assert(Self::readable(jv(*j), *sub));
        proof {
            lemma_first_false_none(Self::items_readable(a, *sub));
        }
        Ok(DateRangeResult { buckets })
    }
}

/// Histogram result
#[derive(Debug)]
pub struct HistogramResult {
    pub buckets: Vec<HistogramBucketResult>,
}

impl HistogramResult {
    /// For each bucket, whether it can be read.
    pub open spec fn items_readable(a: Seq<JsonV>, sub: Option<Aggregations>) -> Seq<bool>
        decreases sub, 7nat,
    {
        Seq::new(a.len(), |i: int| HistogramBucketResult::readable(a[i], sub))
    }

    /// For each bucket, whether the result is what it reads as.
    pub open spec fn items_read(bs: Seq<HistogramBucketResult>, a: Seq<JsonV>, sub: Option<Aggregations>) -> Seq<bool>
        decreases sub, 7nat,
    {
        Seq::new(a.len(), |i: int| bs[i].reads(a[i], sub))
    }

    /// Whether the JSON value can be read as this result, with the
    /// sub-aggregations asked for.
    pub open spec fn readable(j: JsonV, sub: Option<Aggregations>) -> bool
        decreases sub, 8nat,
    {
        (get_v(j, "buckets"@) matches Some(JsonV::Array(a)) && all_true(Self::items_readable(a, sub)))
    }

    /// Whether this result is what the JSON value reads as.
    pub open spec fn reads(self, j: JsonV, sub: Option<Aggregations>) -> bool
        decreases sub, 8nat,
    {
        (get_v(j, "buckets"@) matches Some(JsonV::Array(a)) && self.buckets@.len() == a.len() && all_true(Self::items_read(self.buckets@, a, sub)))
    }

    /// The error that reading gives, where the first field that cannot be
    /// read is one of its own or of its first bucket that cannot be read
    /// (not within sub-aggregations).
    pub open spec fn known_error(j: JsonV, sub: Option<Aggregations>) -> Option<Seq<char>> {
        match get_v(j, "buckets"@) {
            Some(JsonV::Array(a)) => {
                let i = first_false(Self::items_readable(a, sub));
                if 0 <= i < a.len() {
                    HistogramBucketResult::known_error(a[i], sub)
                } else {
                    None
                }
            },
            _ => Some(no_field_msg("buckets"@)),
        }
    }

    /// Reads the result from its JSON form.
    #[verifier::rlimit(40)]
    pub fn from(j: &Json, sub: &Option<Aggregations>) -> (r: Result<HistogramResult, EsError>)
        ensures
            r is Ok <==> Self::readable(jv(*j), *sub),
            r matches Ok(v) ==> v.reads(jv(*j), *sub),
            Self::known_error(jv(*j), *sub) matches Some(m) ==> (r matches Err(e) && is_error(e, m)),
        decreases *sub, 8nat,
    {
        proof {
            reveal_with_fuel(HistogramResult::readable, 2);
            reveal_with_fuel(HistogramResult::reads, 2);
        }
        let raw = match json_get(j, "buckets") {
            Some(b) => match json_array(b) {
                Some(a) => a,
                None => return Err(no_field("buckets")),
            },
            None => return Err(no_field("buckets")),
        };
        let ghost a = elems_view(raw@);
        let mut buckets: Vec<HistogramBucketResult> = Vec::new();
        let mut i: usize = 0;
        while i < raw.len()
            invariant
                i <= raw@.len(),
                a == elems_view(raw@),
                get_v(jv(*j), "buckets"@) == Some(JsonV::Array(a)),
                buckets@.len() == i,
                forall|x: int| 0 <= x < i ==> #[trigger] HistogramBucketResult::readable(a[x], *sub),
                forall|x: int| 0 <= x < i ==> (#[trigger] buckets@[x]).reads(a[x], *sub),
            decreases raw.len() - i,
        {
            assert(a[i as int] == jv(raw@[i as int]));
            match HistogramBucketResult::from(&raw[i], sub) {
                Ok(b) => buckets.push(b),
                Err(e) => {
                    assert(!Self::items_readable(a, *sub)[i as int]);
                    proof {
                        assert forall|k: int| 0 <= k < i implies #[trigger] Self::items_readable(a, *sub)[k] by {
                            assert(HistogramBucketResult::readable(a[k], *sub));
                        }
                        lemma_first_false(Self::items_readable(a, *sub), i as int);
                    }
                    return Err(e);
                },
            }
            i = i + 1;
        }
        assert forall|k: int| 0 <= k < a.len() implies #[trigger] Self::items_readable(a, *sub)[k] by {
            assert(HistogramBucketResult::readable(a[k], *sub));
        }
        assert(all_true(Self::items_read(buckets@, a, *sub)));
        assert(all_true(Self::items_readable(a, *sub)));
        assert(Self::readable(jv(*j), *sub));
        proof {
            lemma_first_false_none(Self::items_readable(a, *sub));
        }
        Ok(HistogramResult { buckets })
    }
}

/// Date histogram result
#[derive(Debug)]
pub struct DateHistogramResult {
    pub buckets: Vec<DateHistogramBucketResult>,
}

impl DateHistogramResult {
    /// For each bucket, whether it can be read.
    pub open spec fn items_readable(a: Seq<JsonV>, sub: Option<Aggregations>) -> Seq<bool>
        decreases sub, 7nat,
    {
        Seq::new(a.len(), |i: int| DateHistogramBucketResult::readable(a[i], sub))
    }

    /// For each bucket, whether the result is what it reads as.
    pub open spec fn items_read(bs: Seq<DateHistogramBucketResult>, a: Seq<JsonV>, sub: Option<Aggregations>) -> Seq<bool>
        decreases sub, 7nat,
    {
        Seq::new(a.len(), |i: int| bs[i].reads(a[i], sub))
    }

    /// Whether the JSON value can be read as this result, with the
    /// sub-aggregations asked for.
    pub open spec fn readable(j: JsonV, sub: Option<Aggregations>) -> bool
        decreases sub, 8nat,
    {
        (get_v(j, "buckets"@) matches Some(JsonV::Array(a)) && all_true(Self::items_readable(a, sub)))
    }

    /// Whether this result is what the JSON value reads as.
    pub open spec fn reads(self, j: JsonV, sub: Option<Aggregations>) -> bool
        decreases sub, 8nat,
    {
        (get_v(j, "buckets"@) matches Some(JsonV::Array(a)) && self.buckets@.len() == a.len() && all_true(Self::items_read(self.buckets@, a, sub)))
    }

    /// The error that reading gives, where the first field that cannot be
    /// read is one of its own or of its first bucket that cannot be read
    /// (not within sub-aggregations).
    pub open spec fn known_error(j: JsonV, sub: Option<Aggregations>) -> Option<Seq<char>> {
        match get_v(j, "buckets"@) {
            Some(JsonV::Array(a)) => {
                let i = first_false(Self::items_readable(a, sub));
                if 0 <= i < a.len() {
                    DateHistogramBucketResult::known_error(a[i], sub)
                } else {
                    None
                }
            },
            _ => Some(no_field_msg("buckets"@)),
        }
    }

    /// Reads the result from its JSON form.
    #[verifier::rlimit(40)]
    pub fn from(j: &Json, sub: &Option<Aggregations>) -> (r: Result<DateHistogramResult, EsError>)
        ensures
            r is Ok <==> Self::readable(jv(*j), *sub),
            r matches Ok(v) ==> v.reads(jv(*j), *sub),
            Self::known_error(jv(*j), *sub) matches Some(m) ==> (r matches Err(e) && is_error(e, m)),
        decreases *sub, 8nat,
    {
        proof {
            reveal_with_fuel(DateHistogramResult::readable, 2);
            reveal_with_fuel(DateHistogramResult::reads, 2);
        }
        let raw = match json_get(j, "buckets") {
            Some(b) => match json_array(b) {
                Some(a) => a,
                None => return Err(no_field("buckets")),
            },
            None => return Err(no_field("buckets")),
        };
        let ghost a = elems_view(raw@);
        let mut buckets: Vec<DateHistogramBucketResult> = Vec::new();
        let mut i: usize = 0;
        while i < raw.len()
            invariant
                i <= raw@.len(),
                a == elems_view(raw@),
                get_v(jv(*j), "buckets"@) == Some(JsonV::Array(a)),
                buckets@.len() == i,
                forall|x: int| 0 <= x < i ==> #[trigger] DateHistogramBucketResult::readable(a[x], *sub),
                forall|x: int| 0 <= x < i ==> (#[trigger] buckets@[x]).reads(a[x], *sub),
            decreases raw.len() - i,
        {
            assert(a[i as int] == jv(raw@[i as int]));
            match DateHistogramBucketResult::from(&raw[i], sub) {
                Ok(b) => buckets.push(b),
                Err(e) => {
                    assert(!Self::items_readable(a, *sub)[i as int]);
                    proof {
                        assert forall|k: int| 0 <= k < i implies #[trigger] Self::items_readable(a, *sub)[k] by {
                            assert(DateHistogramBucketResult::readable(a[k], *sub));
                        }
                        lemma_first_false(Self::items_readable(a, *sub), i as int);
                    }
                    return Err(e);
                },
            }
            i = i + 1;
        }
        assert forall|k: int| 0 <= k < a.len() implies #[trigger] Self::items_readable(a, *sub)[k] by {
            assert(DateHistogramBucketResult::readable(a[k], *sub));
        }
        assert(all_true(Self::items_read(buckets@, a, *sub)));
        assert(all_true(Self::items_readable(a, *sub)));
        assert(Self::readable(jv(*j), *sub));
        proof {
            lemma_first_false_none(Self::items_readable(a, *sub));
        }
        Ok(DateHistogramResult { buckets })
    }
}

/// Geo distance result
#[derive(Debug)]
pub struct GeoDistanceResult {
    pub buckets: Vec<GeoDistanceBucketResult>,
}

impl GeoDistanceResult {
    /// For each bucket, whether it can be read.
    pub open spec fn items_readable(a: Seq<JsonV>, sub: Option<Aggregations>) -> Seq<bool>
        decreases sub, 7nat,
    {
        Seq::new(a.len(), |i: int| GeoDistanceBucketResult::readable(a[i], sub))
    }

    /// For each bucket, whether the result is what it reads as.
    pub open spec fn items_read(bs: Seq<GeoDistanceBucketResult>, a: Seq<JsonV>, sub: Option<Aggregations>) -> Seq<bool>
        decreases sub, 7nat,
    {
        Seq::new(a.len(), |i: int| bs[i].reads(a[i], sub))
    }

    /// Whether the JSON value can be read as this result, with the
    /// sub-aggregations asked for.
    pub open spec fn readable(j: JsonV, sub: Option<Aggregations>) -> bool
        decreases sub, 8nat,
    {
        (get_v(j, "buckets"@) matches Some(JsonV::Array(a)) && all_true(Self::items_readable(a, sub)))
    }

    /// Whether this result is what the JSON value reads as.
    pub open spec fn reads(self, j: JsonV, sub: Option<Aggregations>) -> bool
        decreases sub, 8nat,
    {
        (get_v(j, "buckets"@) matches Some(JsonV::Array(a)) && self.buckets@.len() == a.len() && all_true(Self::items_read(self.buckets@, a, sub)))
    }

    /// The error that reading gives, where the first field that cannot be
    /// read is one of its own or of its first bucket that cannot be read
    /// (not within sub-aggregations).
    pub open spec fn known_error(j: JsonV, sub: Option<Aggregations>) -> Option<Seq<char>> {
        match get_v(j, "buckets"@) {
            Some(JsonV::Array(a)) => {
                let i = first_false(Self::items_readable(a, sub));
                if 0 <= i < a.len() {
                    GeoDistanceBucketResult::known_error(a[i], sub)
                } else {
                    None
                }
            },
            _ => Some(no_field_msg("buckets"@)),
        }
    }

    /// Reads the result from its JSON form.
    #[verifier::rlimit(40)]
    pub fn from(j: &Json, sub: &Option<Aggregations>) -> (r: Result<GeoDistanceResult, EsError>)
        ensures
            r is Ok <==> Self::readable(jv(*j), *sub),
            r matches Ok(v) ==> v.reads(jv(*j), *sub),
            Self::known_error(jv(*j), *sub) matches Some(m) ==> (r matches Err(e) && is_error(e, m)),
        decreases *sub, 8nat,
    {
        proof {
            reveal_with_fuel(GeoDistanceResult::readable, 2);
            reveal_with_fuel(GeoDistanceResult::reads, 2);
        }
        let raw = match json_get(j, "buckets") {
            Some(b) => match json_array(b) {
                Some(a) => a,
                None => return Err(no_field("buckets")),
            },
            None => return Err(no_field("buckets")),
        };
        let ghost a = elems_view(raw@);
        let mut buckets: Vec<GeoDistanceBucketResult> = Vec::new();
        let mut i: usize = 0;
        while i < raw.len()
            invariant
                i <= raw@.len(),
                a == elems_view(raw@),
                get_v(jv(*j), "buckets"@) == Some(JsonV::Array(a)),
                buckets@.len() == i,
                forall|x: int| 0 <= x < i ==> #[trigger] GeoDistanceBucketResult::readable(a[x], *sub),
                forall|x: int| 0 <= x < i ==> (#[trigger] buckets@[x]).reads(a[x], *sub),
            decreases raw.len() - i,
        {
            assert(a[i as int] == jv(raw@[i as int]));
            match GeoDistanceBucketResult::from(&raw[i], sub) {
                Ok(b) => buckets.push(b),
                Err(e) => {
                    assert(!Self::items_readable(a, *sub)[i as int]);
                    proof {
                        assert forall|k: int| 0 <= k < i implies #[trigger] Self::items_readable(a, *sub)[k] by {
                            assert(GeoDistanceBucketResult::readable(a[k], *sub));
                        }
                        lemma_first_false(Self::items_readable(a, *sub), i as int);
                    }
                    return Err(e);
                },
            }
            i = i + 1;
        }
        assert forall|k: int| 0 <= k < a.len() implies #[trigger] Self::items_readable(a, *sub)[k] by {
            assert(GeoDistanceBucketResult::readable(a[k], *sub));
        }
        assert(all_true(Self::items_read(buckets@, a, *sub)));
        assert(all_true(Self::items_readable(a, *sub)));
        assert(Self::readable(jv(*j), *sub));
        proof {
            lemma_first_false_none(Self::items_readable(a, *sub));
        }
        Ok(GeoDistanceResult { buckets })
    }
}

/// Geohash grid result
#[derive(Debug)]
pub struct GeohashGridResult {
    pub buckets: Vec<GeohashGridBucketResult>,
}

impl GeohashGridResult {
    /// For each bucket, whether it can be read.
    pub open spec fn items_readable(a: Seq<JsonV>, sub: Option<Aggregations>) -> Seq<bool>
        decreases sub, 7nat,
    {
        Seq::new(a.len(), |i: int| GeohashGridBucketResult::readable(a[i], sub))
    }

    /// For each bucket, whether the result is what it reads as.
    pub open spec fn items_read(bs: Seq<GeohashGridBucketResult>, a: Seq<JsonV>, sub: Option<Aggregations>) -> Seq<bool>
        decreases sub, 7nat,
    {
        Seq::new(a.len(), |i: int| bs[i].reads(a[i], sub))
    }

    /// Whether the JSON value can be read as this result, with the
    /// sub-aggregations asked for.
    pub open spec fn readable(j: JsonV, sub: Option<Aggregations>) -> bool
        decreases sub, 8nat,
    {
        (get_v(j, "buckets"@) matches Some(JsonV::Array(a)) && all_true(Self::items_readable(a, sub)))
    }

    /// Whether this result is what the JSON value reads as.
    pub open spec fn reads(self, j: JsonV, sub: Option<Aggregations>) -> bool
        decreases sub, 8nat,
    {
        (get_v(j, "buckets"@) matches Some(JsonV::Array(a)) && self.buckets@.len() == a.len() && all_true(Self::items_read(self.buckets@, a, sub)))
    }

    /// The error that reading gives, where the first field that cannot be
    /// read is one of its own or of its first bucket that cannot be read
    /// (not within sub-aggregations).
    pub open spec fn known_error(j: JsonV, sub: Option<Aggregations>) -> Option<Seq<char>> {
        match get_v(j, "buckets"@) {
            Some(JsonV::Array(a)) => {
                let i = first_false(Self::items_readable(a, sub));
                if 0 <= i < a.len() {
                    GeohashGridBucketResult::known_error(a[i], sub)
                } else {
                    None
                }
            },
            _ => Some(no_field_msg("buckets"@)),
        }
    }

    /// Reads the result from its JSON form.
    #[verifier::rlimit(40)]
    pub fn from(j: &Json, sub: &Option<Aggregations>) -> (r: Result<GeohashGridResult, EsError>)
        ensures
            r is Ok <==> Self::readable(jv(*j), *sub),
            r matches Ok(v) ==> v.reads(jv(*j), *sub),
            Self::known_error(jv(*j), *sub) matches Some(m) ==> (r matches Err(e) && is_error(e, m)),
        decreases *sub, 8nat,
    {
        proof {
            reveal_with_fuel(GeohashGridResult::readable, 2);
            reveal_with_fuel(GeohashGridResult::reads, 2);
        }
        let raw = match json_get(j, "buckets") {
            Some(b) => match json_array(b) {
                Some(a) => a,
                None => return Err(no_field("buckets")),
            },
            None => return Err(no_field("buckets")),
        };
        let ghost a = elems_view(raw@);
        let mut buckets: Vec<GeohashGridBucketResult> = Vec::new();
        let mut i: usize = 0;
        while i < raw.len()
            invariant
                i <= raw@.len(),
                a == elems_view(raw@),
                get_v(jv(*j), "buckets"@) == Some(JsonV::Array(a)),
                buckets@.len() == i,
                forall|x: int| 0 <= x < i ==> #[trigger] GeohashGridBucketResult::readable(a[x], *sub),
                forall|x: int| 0 <= x < i ==> (#[trigger] buckets@[x]).reads(a[x], *sub),
            decreases raw.len() - i,
        {
            assert(a[i as int] == jv(raw@[i as int]));
            match GeohashGridBucketResult::from(&raw[i], sub) {
                Ok(b) => buckets.push(b),
                Err(e) => {
                    assert(!Self::items_readable(a, *sub)[i as int]);
                    proof {
                        assert forall|k: int| 0 <= k < i implies #[trigger] Self::items_readable(a, *sub)[k] by {
                            assert(GeohashGridBucketResult::readable(a[k], *sub));
                        }
                        lemma_first_false(Self::items_readable(a, *sub), i as int);
                    }
                    return Err(e);
                },
            }
            i = i + 1;
        }
        assert forall|k: int| 0 <= k < a.len() implies #[trigger] Self::items_readable(a, *sub)[k] by {
            assert(GeohashGridBucketResult::readable(a[k], *sub));
        }
        assert(all_true(Self::items_read(buckets@, a, *sub)));
        assert(all_true(Self::items_readable(a, *sub)));
        assert(Self::readable(jv(*j), *sub));
        proof {
            lemma_first_false_none(Self::items_readable(a, *sub));
        }
        Ok(GeohashGridResult { buckets })
    }
}

/// The result of a bucket aggregation, of the kind asked for.
#[derive(Debug)]
pub enum BucketAggregationResult {
    Global(GlobalResult),
    Filter(FilterResult),
    Filters(FiltersResult),
    Missing(MissingResult),
    Nested(NestedResult),
    ReverseNested(ReverseNestedResult),
    Children(ChildrenResult),
    Terms(TermsResult),
    Range(RangeResult),
    DateRange(DateRangeResult),
    Histogram(HistogramResult),
    DateHistogram(DateHistogramResult),
    GeoDistance(GeoDistanceResult),
    GeohashGrid(GeohashGridResult),
}

/// Whether the JSON value can be read as the result of the bucket
/// aggregation, with its sub-aggregations.
pub open spec fn bucket_readable(ba: BucketAggregation, j: JsonV, sub: Option<Aggregations>) -> bool
    decreases sub, 9nat,
{
    match ba {
        BucketAggregation::Global(_) => GlobalResult::readable(j, sub),
        BucketAggregation::Filter(_) => FilterResult::readable(j, sub),
        BucketAggregation::Filters(_) => FiltersResult::readable(j, sub),
        BucketAggregation::Missing(_) => MissingResult::readable(j, sub),
        BucketAggregation::Nested(_) => NestedResult::readable(j, sub),
        BucketAggregation::ReverseNested(_) => ReverseNestedResult::readable(j, sub),
        BucketAggregation::Children(_) => ChildrenResult::readable(j, sub),
        BucketAggregation::Terms(_) => TermsResult::readable(j, sub),
        BucketAggregation::Range(_) => RangeResult::readable(j, sub),
        BucketAggregation::DateRange(_) => DateRangeResult::readable(j, sub),
        BucketAggregation::Histogram(_) => HistogramResult::readable(j, sub),
        BucketAggregation::DateHistogram(_) => DateHistogramResult::readable(j, sub),
        BucketAggregation::GeoDistance(_) => GeoDistanceResult::readable(j, sub),
        BucketAggregation::GeohashGrid(_) => GeohashGridResult::readable(j, sub),
    }
}

/// Whether the result is what the JSON value reads as, for the aggregation.
pub open spec fn bucket_reads(r: BucketAggregationResult, ba: BucketAggregation, j: JsonV, sub: Option<Aggregations>) -> bool
    decreases sub, 9nat,
{
    match (ba, r) {
        (BucketAggregation::Global(_), BucketAggregationResult::Global(x)) => x.reads(j, sub),
        (BucketAggregation::Filter(_), BucketAggregationResult::Filter(x)) => x.reads(j, sub),
        (BucketAggregation::Filters(_), BucketAggregationResult::Filters(x)) => x.reads(j, sub),
        (BucketAggregation::Missing(_), BucketAggregationResult::Missing(x)) => x.reads(j, sub),
        (BucketAggregation::Nested(_), BucketAggregationResult::Nested(x)) => x.reads(j, sub),
        (BucketAggregation::ReverseNested(_), BucketAggregationResult::ReverseNested(x)) => x.reads(j, sub),
        (BucketAggregation::Children(_), BucketAggregationResult::Children(x)) => x.reads(j, sub),
        (BucketAggregation::Terms(_), BucketAggregationResult::Terms(x)) => x.reads(j, sub),
        (BucketAggregation::Range(_), BucketAggregationResult::Range(x)) => x.reads(j, sub),
        (BucketAggregation::DateRange(_), BucketAggregationResult::DateRange(x)) => x.reads(j, sub),
        (BucketAggregation::Histogram(_), BucketAggregationResult::Histogram(x)) => x.reads(j, sub),
        (BucketAggregation::DateHistogram(_), BucketAggregationResult::DateHistogram(x)) => x.reads(j, sub),
        (BucketAggregation::GeoDistance(_), BucketAggregationResult::GeoDistance(x)) => x.reads(j, sub),
        (BucketAggregation::GeohashGrid(_), BucketAggregationResult::GeohashGrid(x)) => x.reads(j, sub),
        _ => false,
    }
}

/// The error that reading the result of the bucket aggregation gives, where
/// the first field that cannot be read is one of its own or of its first
/// bucket that cannot be read (not within sub-aggregations).
pub open spec fn bucket_known_error(ba: BucketAggregation, j: JsonV, sub: Option<Aggregations>) -> Option<Seq<char>> {
    match ba {
        BucketAggregation::Global(_) => GlobalResult::known_error(j, sub),
        BucketAggregation::Filter(_) => FilterResult::known_error(j, sub),
        BucketAggregation::Filters(_) => FiltersResult::known_error(j, sub),
        BucketAggregation::Missing(_) => MissingResult::known_error(j, sub),
        BucketAggregation::Nested(_) => NestedResult::known_error(j, sub),
        BucketAggregation::ReverseNested(_) => ReverseNestedResult::known_error(j, sub),
        BucketAggregation::Children(_) => ChildrenResult::known_error(j, sub),
        BucketAggregation::Terms(_) => TermsResult::known_error(j, sub),
        BucketAggregation::Range(_) => RangeResult::known_error(j, sub),
        BucketAggregation::DateRange(_) => DateRangeResult::known_error(j, sub),
        BucketAggregation::Histogram(_) => HistogramResult::known_error(j, sub),
        BucketAggregation::DateHistogram(_) => DateHistogramResult::known_error(j, sub),
        BucketAggregation::GeoDistance(_) => GeoDistanceResult::known_error(j, sub),
        BucketAggregation::GeohashGrid(_) => GeohashGridResult::known_error(j, sub),
    }
}

impl BucketAggregationResult {
    /// Reads the result of a bucket aggregation from its JSON form.
    pub fn from(ba: &BucketAggregation, json: &Json, aggs: &Option<Aggregations>) -> (r: Result<BucketAggregationResult, EsError>)
        ensures
            r is Ok <==> bucket_readable(*ba, jv(*json), *aggs),
            r matches Ok(v) ==> bucket_reads(v, *ba, jv(*json), *aggs),
            bucket_known_error(*ba, jv(*json), *aggs) matches Some(m) ==> (r matches Err(e) && is_error(e, m)),
        decreases *aggs, 9nat,
    {
        match ba {
            BucketAggregation::Global(_) => match GlobalResult::from(json, aggs) {
                Ok(x) => Ok(BucketAggregationResult::Global(x)),
                Err(e) => Err(e),
            },
            BucketAggregation::Filter(_) => match FilterResult::from(json, aggs) {
                Ok(x) => Ok(BucketAggregationResult::Filter(x)),
                Err(e) => Err(e),
            },
            BucketAggregation::Filters(_) => match FiltersResult::from(json, aggs) {
                Ok(x) => Ok(BucketAggregationResult::Filters(x)),
                Err(e) => Err(e),
            },
            BucketAggregation::Missing(_) => match MissingResult::from(json, aggs) {
                Ok(x) => Ok(BucketAggregationResult::Missing(x)),
                Err(e) => Err(e),
            },
            BucketAggregation::Nested(_) => match NestedResult::from(json, aggs) {
                Ok(x) => Ok(BucketAggregationResult::Nested(x)),
                Err(e) => Err(e),
            },
            BucketAggregation::ReverseNested(_) => match ReverseNestedResult::from(json, aggs) {
                Ok(x) => Ok(BucketAggregationResult::ReverseNested(x)),
                Err(e) => Err(e),
            },
            BucketAggregation::Children(_) => match ChildrenResult::from(json, aggs) {
                Ok(x) => Ok(BucketAggregationResult::Children(x)),
                Err(e) => Err(e),
            },
            BucketAggregation::Terms(_) => match TermsResult::from(json, aggs) {
                Ok(x) => Ok(BucketAggregationResult::Terms(x)),
                Err(e) => Err(e),
            },
            BucketAggregation::Range(_) => match RangeResult::from(json, aggs) {
                Ok(x) => Ok(BucketAggregationResult::Range(x)),
                Err(e) => Err(e),
            },
            BucketAggregation::DateRange(_) => match DateRangeResult::from(json, aggs) {
                Ok(x) => Ok(BucketAggregationResult::DateRange(x)),
                Err(e) => Err(e),
            },
            BucketAggregation::Histogram(_) => match HistogramResult::from(json, aggs) {
                Ok(x) => Ok(BucketAggregationResult::Histogram(x)),
                Err(e) => Err(e),
            },
            BucketAggregation::DateHistogram(_) => match DateHistogramResult::from(json, aggs) {
                Ok(x) => Ok(BucketAggregationResult::DateHistogram(x)),
                Err(e) => Err(e),
            },
            BucketAggregation::GeoDistance(_) => match GeoDistanceResult::from(json, aggs) {
                Ok(x) => Ok(BucketAggregationResult::GeoDistance(x)),
                Err(e) => Err(e),
            },
            BucketAggregation::GeohashGrid(_) => match GeohashGridResult::from(json, aggs) {
                Ok(x) => Ok(BucketAggregationResult::GeohashGrid(x)),
                Err(e) => Err(e),
            },
        }
    }
}

/// The results of bucket aggregations, by kind.
impl AggregationResult {
    pub fn as_global(&self) -> (r: Result<&GlobalResult, EsError>)
        ensures
            r is Ok <==> (*self matches AggregationResult::Bucket(BucketAggregationResult::Global(_))),
            *self matches AggregationResult::Bucket(BucketAggregationResult::Global(x)) ==> (r matches Ok(y) && *y == x),
            r is Err ==> is_error(r->Err_0, "Wrong type"@),
    {
        match self {
            AggregationResult::Bucket(BucketAggregationResult::Global(res)) => Ok(res),
            _ => Err(EsError::EsError("Wrong type".to_owned())),
        }
    }

    pub fn as_filter(&self) -> (r: Result<&FilterResult, EsError>)
        ensures
            r is Ok <==> (*self matches AggregationResult::Bucket(BucketAggregationResult::Filter(_))),
            *self matches AggregationResult::Bucket(BucketAggregationResult::Filter(x)) ==> (r matches Ok(y) && *y == x),
            r is Err ==> is_error(r->Err_0, "Wrong type"@),
    {
        match self {
            AggregationResult::Bucket(BucketAggregationResult::Filter(res)) => Ok(res),
            _ => Err(EsError::EsError("Wrong type".to_owned())),
        }
    }

    pub fn as_filters(&self) -> (r: Result<&FiltersResult, EsError>)
        ensures
            r is Ok <==> (*self matches AggregationResult::Bucket(BucketAggregationResult::Filters(_))),
            *self matches AggregationResult::Bucket(BucketAggregationResult::Filters(x)) ==> (r matches Ok(y) && *y == x),
            r is Err ==> is_error(r->Err_0, "Wrong type"@),
    {
        match self {
            AggregationResult::Bucket(BucketAggregationResult::Filters(res)) => Ok(res),
            _ => Err(EsError::EsError("Wrong type".to_owned())),
        }
    }

    pub fn as_missing(&self) -> (r: Result<&MissingResult, EsError>)
        ensures
            r is Ok <==> (*self matches AggregationResult::Bucket(BucketAggregationResult::Missing(_))),
            *self matches AggregationResult::Bucket(BucketAggregationResult::Missing(x)) ==> (r matches Ok(y) && *y == x),
            r is Err ==> is_error(r->Err_0, "Wrong type"@),
    {
        match self {
            AggregationResult::Bucket(BucketAggregationResult::Missing(res)) => Ok(res),
            _ => Err(EsError::EsError("Wrong type".to_owned())),
        }
    }

    pub fn as_nested(&self) -> (r: Result<&NestedResult, EsError>)
        ensures
            r is Ok <==> (*self matches AggregationResult::Bucket(BucketAggregationResult::Nested(_))),
            *self matches AggregationResult::Bucket(BucketAggregationResult::Nested(x)) ==> (r matches Ok(y) && *y == x),
            r is Err ==> is_error(r->Err_0, "Wrong type"@),
    {
        match self {
            AggregationResult::Bucket(BucketAggregationResult::Nested(res)) => Ok(res),
            _ => Err(EsError::EsError("Wrong type".to_owned())),
        }
    }

    pub fn as_reverse_nested(&self) -> (r: Result<&ReverseNestedResult, EsError>)
        ensures
            r is Ok <==> (*self matches AggregationResult::Bucket(BucketAggregationResult::ReverseNested(_))),
            *self matches AggregationResult::Bucket(BucketAggregationResult::ReverseNested(x)) ==> (r matches Ok(y) && *y == x),
            r is Err ==> is_error(r->Err_0, "Wrong type"@),
    {
        match self {
            AggregationResult::Bucket(BucketAggregationResult::ReverseNested(res)) => Ok(res),
            _ => Err(EsError::EsError("Wrong type".to_owned())),
        }
    }

    pub fn as_children(&self) -> (r: Result<&ChildrenResult, EsError>)
        ensures
            r is Ok <==> (*self matches AggregationResult::Bucket(BucketAggregationResult::Children(_))),
            *self matches AggregationResult::Bucket(BucketAggregationResult::Children(x)) ==> (r matches Ok(y) && *y == x),
            r is Err ==> is_error(r->Err_0, "Wrong type"@),
    {
        match self {
            AggregationResult::Bucket(BucketAggregationResult::Children(res)) => Ok(res),
            _ => Err(EsError::EsError("Wrong type".to_owned())),
        }
    }

    pub fn as_terms(&self) -> (r: Result<&TermsResult, EsError>)
        ensures
            r is Ok <==> (*self matches AggregationResult::Bucket(BucketAggregationResult::Terms(_))),
            *self matches AggregationResult::Bucket(BucketAggregationResult::Terms(x)) ==> (r matches Ok(y) && *y == x),
            r is Err ==> is_error(r->Err_0, "Wrong type"@),
    {
        match self {
            AggregationResult::Bucket(BucketAggregationResult::Terms(res)) => Ok(res),
            _ => Err(EsError::EsError("Wrong type".to_owned())),
        }
    }

    pub fn as_range(&self) -> (r: Result<&RangeResult, EsError>)
        ensures
            r is Ok <==> (*self matches AggregationResult::Bucket(BucketAggregationResult::Range(_))),
            *self matches AggregationResult::Bucket(BucketAggregationResult::Range(x)) ==> (r matches Ok(y) && *y == x),
            r is Err ==> is_error(r->Err_0, "Wrong type"@),
    {
        match self {
            AggregationResult::Bucket(BucketAggregationResult::Range(res)) => Ok(res),
            _ => Err(EsError::EsError("Wrong type".to_owned())),
        }
    }

    pub fn as_date_range(&self) -> (r: Result<&DateRangeResult, EsError>)
        ensures
            r is Ok <==> (*self matches AggregationResult::Bucket(BucketAggregationResult::DateRange(_))),
            *self matches AggregationResult::Bucket(BucketAggregationResult::DateRange(x)) ==> (r matches Ok(y) && *y == x),
            r is Err ==> is_error(r->Err_0, "Wrong type"@),
    {
        match self {
            AggregationResult::Bucket(BucketAggregationResult::DateRange(res)) => Ok(res),
            _ => Err(EsError::EsError("Wrong type".to_owned())),
        }
    }

    pub fn as_histogram(&self) -> (r: Result<&HistogramResult, EsError>)
        ensures
            r is Ok <==> (*self matches AggregationResult::Bucket(BucketAggregationResult::Histogram(_))),
            *self matches AggregationResult::Bucket(BucketAggregationResult::Histogram(x)) ==> (r matches Ok(y) && *y == x),
            r is Err ==> is_error(r->Err_0, "Wrong type"@),
    {
        match self {
            AggregationResult::Bucket(BucketAggregationResult::Histogram(res)) => Ok(res),
            _ => Err(EsError::EsError("Wrong type".to_owned())),
        }
    }

    pub fn as_date_histogram(&self) -> (r: Result<&DateHistogramResult, EsError>)
        ensures
            r is Ok <==> (*self matches AggregationResult::Bucket(BucketAggregationResult::DateHistogram(_))),
            *self matches AggregationResult::Bucket(BucketAggregationResult::DateHistogram(x)) ==> (r matches Ok(y) && *y == x),
            r is Err ==> is_error(r->Err_0, "Wrong type"@),
    {
        match self {
            AggregationResult::Bucket(BucketAggregationResult::DateHistogram(res)) => Ok(res),
            _ => Err(EsError::EsError("Wrong type".to_owned())),
        }
    }

    pub fn as_geo_distance(&self) -> (r: Result<&GeoDistanceResult, EsError>)
        ensures
            r is Ok <==> (*self matches AggregationResult::Bucket(BucketAggregationResult::GeoDistance(_))),
            *self matches AggregationResult::Bucket(BucketAggregationResult::GeoDistance(x)) ==> (r matches Ok(y) && *y == x),
            r is Err ==> is_error(r->Err_0, "Wrong type"@),
    {
        match self {
            AggregationResult::Bucket(BucketAggregationResult::GeoDistance(res)) => Ok(res),
            _ => Err(EsError::EsError("Wrong type".to_owned())),
        }
    }

    pub fn as_geohash_grid(&self) -> (r: Result<&GeohashGridResult, EsError>)
        ensures
            r is Ok <==> (*self matches AggregationResult::Bucket(BucketAggregationResult::GeohashGrid(_))),
            *self matches AggregationResult::Bucket(BucketAggregationResult::GeohashGrid(x)) ==> (r matches Ok(y) && *y == x),
            r is Err ==> is_error(r->Err_0, "Wrong type"@),
    {
        match self {
            AggregationResult::Bucket(BucketAggregationResult::GeohashGrid(res)) => Ok(res),
            _ => Err(EsError::EsError("Wrong type".to_owned())),
        }
    }
}

} // verus!
