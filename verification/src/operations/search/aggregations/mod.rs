//! Implementation of ElasticSearch aggregations

use vstd::prelude::*;

pub mod bucket;
pub mod common;
pub mod metrics;

use crate::error::EsError;
use crate::units::JsonVal;
use crate::json::{
    dec_pair, dec_v, entries_view, get_v, json_decimal, json_get, json_str, json_u64, jv, map_insert, object,
    one_entry, push_entry, push_entry_owned, str_v, u64_v, Decimal, Json, JsonV, KeyedMap, ToJson,
};
use self::bucket::{bucket_known_error, bucket_readable, bucket_reads, BucketAggregation, BucketAggregationResult};
use self::metrics::{metrics_readable, metrics_reads, MetricsAggregation, MetricsAggregationResult};

verus! {

/// Aggregations are either metrics or bucket-based aggregations
#[derive(Debug)]
pub enum Aggregation<'a> {
    /// A metric aggregation (e.g. min)
    Metrics(MetricsAggregation<'a>),
    /// A bucket aggregation, groups data into buckets and optionally applies
    /// sub-aggregations
    Bucket(BucketAggregation<'a>, Option<Aggregations<'a>>),
}

/// The set of aggregations, each under its name; a name added again replaces
/// the aggregation it had, so no name occurs twice.
#[derive(Debug)]
pub struct Aggregations<'a>(pub(crate) KeyedMap<Aggregation<'a>>);

/// The JSON form of an aggregation: `{kind: options}`, and for a bucket
/// aggregation with sub-aggregations, `"aggs"` beside it.
pub open spec fn agg_v(a: Aggregation) -> JsonV
    decreases a, 1nat,
{
    match a {
        Aggregation::Metrics(m) => JsonV::Object(one_entry(m.details_v(), m.json_v())),
        Aggregation::Bucket(b, sub) => JsonV::Object(
            one_entry(b.details_v(), b.json_v()) + match sub {
                Some(s) => one_entry("aggs"@, aggs_v(s)),
                None => Seq::empty(),
            },
        ),
    }
}

/// The JSON form of a set of aggregations: an object from names to their
/// aggregations.
pub closed spec fn aggs_v(m: Aggregations) -> JsonV
    decreases m, 0nat,
{
    JsonV::Object(
        Seq::new(
            m.0.0@.len(),
            |i: int|
                if 0 <= i < m.0.0@.len() {
                    proof {
                        assert(decreases_to!(m => m.0));
                        assert(decreases_to!(m.0 => m.0.0));
                        assert(decreases_to!(m.0.0 => m.0.0@));
                        assert(decreases_to!(m.0.0@ => m.0.0@[i]));
                        assert(decreases_to!(m.0.0@[i] => m.0.0@[i].1));
                    }
                    (m.0.0@[i].0@, agg_v(m.0.0@[i].1))
                } else {
                    (Seq::empty(), JsonV::Null)
                },
        ),
    )
}

/// Builds the JSON form of an aggregation.
pub fn agg_json(a: &Aggregation) -> (r: Json)
    ensures
        jv(r) == agg_v(*a),
    decreases a, 1nat,
{
    let mut e: Vec<(String, Json)> = Vec::new();
    match a {
        Aggregation::Metrics(m) => {
            push_entry(&mut e, m.details(), m.to_json());
        },
        Aggregation::Bucket(b, sub) => {
            push_entry(&mut e, b.details(), b.to_json());
            match sub {
                Some(s) => push_entry(&mut e, "aggs", aggs_json(s)),
                None => {},
            }
        },
    }
    assert(entries_view(e@) =~= agg_v(*a)->Object_0);
    object(e)
}

/// Builds the JSON form of a set of aggregations.
pub fn aggs_json(m: &Aggregations) -> (r: Json)
    ensures
        jv(r) == aggs_v(*m),
    decreases m, 0nat,
{
    let mut e: Vec<(String, Json)> = Vec::new();
    let mut i: usize = 0;
    while i < m.0.0.len()
        invariant
            i <= m.0.0@.len(),
            entries_view(e@) =~= Seq::new(i as nat, |j: int| (m.0.0@[j].0@, agg_v(m.0.0@[j].1))),
        decreases m.0.0.len() - i,
    {
        proof {
            assert(decreases_to!(m => m.0));
            assert(decreases_to!(m.0 => m.0.0));
            assert(decreases_to!(m.0.0 => m.0.0@));
            assert(decreases_to!(m.0.0@ => m.0.0@[i as int]));
            assert(decreases_to!(m.0.0@[i as int] => m.0.0@[i as int].1));
        }
        let k = m.0.0[i].0.clone();
        let v = agg_json(&m.0.0[i].1);
        push_entry_owned(&mut e, k, v);
        i = i + 1;
    }
    assert(entries_view(e@) =~= aggs_v(*m)->Object_0);
    object(e)
}

impl<'a> Aggregations<'a> {
    /// The aggregations under their names.
    pub closed spec fn view_v(&self) -> Seq<(Seq<char>, Aggregation<'a>)> {
        self.0.view_v()
    }

    /// In every set of aggregations, no name occurs twice.
    #[verifier::type_invariant]
    pub closed spec fn names_distinct(self) -> bool {
        crate::json::keys_distinct(self.0.view_v())
    }

    /// Create an empty-set of aggregations, individual aggregations should be
    /// added via the `add` method
    pub fn new() -> (r: Aggregations<'a>)
        ensures
            r.view_v().len() == 0,
            crate::json::keys_distinct(r.view_v()),
    {
        Aggregations(KeyedMap::new())
    }

    /// Add an aggregation to the set of aggregations
    pub fn add(&mut self, key: &str, val: Aggregation<'a>)
        ensures
            final(self).view_v() == map_insert(old(self).view_v(), key@, val),
            crate::json::keys_distinct(final(self).view_v()),
    {
        proof {
            use_type_invariant(&*self);
        }
        let mut m: KeyedMap<Aggregation<'a>> = KeyedMap::new();
        std::mem::swap(&mut m, &mut self.0);
        m.insert(key.to_owned(), val);
        self.0 = m;
    }

    /// The set holding the one aggregation.
    pub fn from_pair(key: &str, val: Aggregation<'a>) -> (r: Aggregations<'a>)
        ensures
            r.view_v() == seq![(key@, val)],
            crate::json::keys_distinct(r.view_v()),
    {
        let mut aggs = Aggregations::new();
        aggs.add(key, val);
        assert(aggs.view_v() =~= seq![(key@, val)]);
        aggs
    }

    /// The set holding each aggregation in turn.
    pub fn from_vec(from: Vec<(&str, Aggregation<'a>)>) -> (r: Aggregations<'a>)
        ensures
            r.view_v() == crate::json::inserted_all(
                Seq::empty(),
                Seq::new(from@.len(), |i: int| (from@[i].0@, from@[i].1)),
            ),
            crate::json::keys_distinct(r.view_v()),
    {
        let mut from = from;
        let ghost all = from@;
        let mut pairs: Vec<(String, Aggregation<'a>)> = Vec::new();
        let mut rev: Vec<(String, Aggregation<'a>)> = Vec::new();
        while from.len() > 0
            invariant
                from@ == all.subrange(0, from@.len() as int),
                rev@.len() + from@.len() == all.len(),
                forall|j: int|
                    0 <= j < rev@.len() ==> (#[trigger] rev@[j]).0@ == all[all.len() - 1 - j].0@ && rev@[j].1
                        == all[all.len() - 1 - j].1,
            decreases from.len(),
        {
            let (k, a) = from.pop().unwrap();
            rev.push((k.to_owned(), a));
        }
        while rev.len() > 0
            invariant
                pairs@.len() + rev@.len() == all.len(),
                forall|j: int|
                    0 <= j < rev@.len() ==> (#[trigger] rev@[j]).0@ == all[all.len() - 1 - j].0@ && rev@[j].1
                        == all[all.len() - 1 - j].1,
                forall|j: int|
                    0 <= j < pairs@.len() ==> (#[trigger] pairs@[j]).0@ == all[j].0@ && pairs@[j].1 == all[j].1,
            decreases rev.len(),
        {
            let p = rev.pop().unwrap();
            pairs.push(p);
        }
        let mut m: KeyedMap<Aggregation<'a>> = KeyedMap::new();
        assert(m.view_v() =~= Seq::empty());
        assert(KeyedMap::<Aggregation<'a>>::pairs_v(pairs@) =~= Seq::new(
            all.len(),
            |i: int| (all[i].0@, all[i].1),
        ));
        m.insert_all(pairs);
        Aggregations(m)
    }
}

// ---------------------------------------------------------------------------
// Reading fields of results
// ---------------------------------------------------------------------------

/// The message for a field that is missing or of the wrong kind.
pub open spec fn no_field_msg(f: Seq<char>) -> Seq<char> {
    "No valid field: "@ + f
}

/// An internal error with the given message.
pub open spec fn is_error(e: EsError, m: Seq<char>) -> bool {
    e matches EsError::EsError(s) && s@ == m
}

/// Of two errors that a contract names, the one met first: `a` if there is
/// one, else `b`.
pub open spec fn first_error(a: Option<Seq<char>>, b: Option<Seq<char>>) -> Option<Seq<char>> {
    if a is Some {
        a
    } else {
        b
    }
}

/// The error for a required whole-number field, when it is missing or not one.
pub open spec fn u64_error(j: JsonV, f: Seq<char>) -> Option<Seq<char>> {
    if u64_field(j, f) is None {
        Some(no_field_msg(f))
    } else {
        None
    }
}

/// The error for a required string field, when it is missing or not one.
pub open spec fn str_error(j: JsonV, f: Seq<char>) -> Option<Seq<char>> {
    if str_field(j, f) is None {
        Some(no_field_msg(f))
    } else {
        None
    }
}

/// The error for an optional number field that is present but not a number.
pub open spec fn opt_dec_error(j: JsonV, f: Seq<char>) -> Option<Seq<char>> {
    if !opt_dec_ok(j, f) {
        Some(no_field_msg(f))
    } else {
        None
    }
}

/// The error for an optional string field that is present but not a string.
pub open spec fn opt_str_error(j: JsonV, f: Seq<char>) -> Option<Seq<char>> {
    if !opt_str_ok(j, f) {
        Some(no_field_msg(f))
    } else {
        None
    }
}

/// The message for a value that is not a string, number or boolean, with the
/// value in serde_json's `Debug` form.
pub open spec fn not_jsonval_msg(v: JsonV) -> Seq<char> {
    "Not a JsonVal: "@ + crate::json::json_debug_text(crate::json::json_text(v))
}

/// The error for an optional field that is present but not a string, number
/// or boolean.
pub open spec fn optjv_error(j: JsonV, f: Seq<char>) -> Option<Seq<char>> {
    if !optjv_ok(j, f) {
        Some(not_jsonval_msg(get_v(j, f)->0))
    } else {
        None
    }
}

/// The error for a bucket's key, when it is missing or not a string, number
/// or boolean.
pub open spec fn key_error(j: JsonV) -> Option<Seq<char>> {
    match get_v(j, "key"@) {
        None => Some("No 'key'"@),
        Some(v) => if crate::json::scalar_v(v) {
            None
        } else {
            Some(not_jsonval_msg(v))
        },
    }
}

/// The error for sub-aggregations asked for of a value that is not an object.
pub open spec fn sub_error(j: JsonV, sub: Option<Aggregations>) -> Option<Seq<char>> {
    if sub is Some && !(j is Object) {
        Some("Not an object"@)
    } else {
        None
    }
}

/// Whether `i` is the place of the first `false`.
pub open spec fn is_first_false(s: Seq<bool>, i: int) -> bool {
    0 <= i < s.len() && !s[i] && forall|k: int| 0 <= k < i ==> #[trigger] s[k]
}

/// The place of the first `false`, or the length when there is none.
pub open spec fn first_false(s: Seq<bool>) -> int {
    if exists|i: int| is_first_false(s, i) {
        choose|i: int| is_first_false(s, i)
    } else {
        s.len() as int
    }
}

/// The first `false` is the one before which all are `true`.
pub proof fn lemma_first_false(s: Seq<bool>, i: int)
    requires
        is_first_false(s, i),
    ensures
        first_false(s) == i,
{
    let j = first_false(s);
    assert(is_first_false(s, j));
    if j < i {
        assert(s[j]);
    } else if j > i {
        assert(s[i]);
    }
}

/// Where all are `true`, there is no first `false`.
pub proof fn lemma_first_false_none(s: Seq<bool>)
    requires
        all_true(s),
    ensures
        first_false(s) == s.len(),
{
    if exists|i: int| is_first_false(s, i) {
        let i = choose|i: int| is_first_false(s, i);
        assert(s[i]);
    }
}

/// The whole number under a key.
pub open spec fn u64_field(j: JsonV, f: Seq<char>) -> Option<u64> {
    match get_v(j, f) {
        Some(v) => u64_v(v),
        None => None,
    }
}

/// The number under a key.
pub open spec fn dec_field(j: JsonV, f: Seq<char>) -> Option<(int, nat)> {
    match get_v(j, f) {
        Some(v) => dec_v(v),
        None => None,
    }
}

/// The string under a key.
pub open spec fn str_field(j: JsonV, f: Seq<char>) -> Option<Seq<char>> {
    match get_v(j, f) {
        Some(v) => str_v(v),
        None => None,
    }
}

/// An optional number: absent, or present and a number.
pub open spec fn opt_dec_ok(j: JsonV, f: Seq<char>) -> bool {
    get_v(j, f) matches Some(v) ==> dec_v(v) is Some
}

/// An optional string: absent, or present and a string.
pub open spec fn opt_str_ok(j: JsonV, f: Seq<char>) -> bool {
    get_v(j, f) matches Some(v) ==> str_v(v) is Some
}

/// What an optional decimal holds is what is under the key.
pub open spec fn opt_dec_is(o: Option<Decimal>, p: Option<(int, nat)>) -> bool {
    match o {
        Some(d) => p == Some(dec_pair(d)),
        None => p is None,
    }
}

/// What an optional string holds is what is under the key.
pub open spec fn opt_str_is(o: Option<String>, p: Option<Seq<char>>) -> bool {
    match o {
        Some(s) => p == Some(s@),
        None => p is None,
    }
}

/// The error for a missing or invalid field.
pub fn no_field(f: &str) -> (r: EsError)
    ensures
        is_error(r, no_field_msg(f@)),
{
    let mut m = "No valid field: ".to_owned();
    m.append(f);
    EsError::EsError(m)
}

/// Reads a required whole-number field.
pub fn read_u64(j: &Json, f: &str) -> (r: Result<u64, EsError>)
    ensures
        r matches Ok(n) ==> u64_field(jv(*j), f@) == Some(n),
        r is Err ==> u64_field(jv(*j), f@) is None && is_error(r->Err_0, no_field_msg(f@)),
{
    match json_get(j, f) {
        Some(v) => match json_u64(v) {
            Some(n) => Ok(n),
            None => Err(no_field(f)),
        },
        None => Err(no_field(f)),
    }
}

/// Reads a required number field.
pub fn read_decimal(j: &Json, f: &str) -> (r: Result<Decimal, EsError>)
    ensures
        r matches Ok(d) ==> dec_field(jv(*j), f@) == Some(dec_pair(d)),
        r is Err ==> dec_field(jv(*j), f@) is None && is_error(r->Err_0, no_field_msg(f@)),
{
    match json_get(j, f) {
        Some(v) => match json_decimal(v) {
            Some(d) => Ok(d),
            None => Err(no_field(f)),
        },
        None => Err(no_field(f)),
    }
}

/// Reads a required string field.
pub fn read_string(j: &Json, f: &str) -> (r: Result<String, EsError>)
    ensures
        r matches Ok(s) ==> str_field(jv(*j), f@) == Some(s@),
        r is Err ==> str_field(jv(*j), f@) is None && is_error(r->Err_0, no_field_msg(f@)),
{
    match json_get(j, f) {
        Some(v) => match json_str(v) {
            Some(s) => Ok(s),
            None => Err(no_field(f)),
        },
        None => Err(no_field(f)),
    }
}

/// Reads an optional number field: absent is `None`, present but not a
/// number is an error.
pub fn read_opt_decimal(j: &Json, f: &str) -> (r: Result<Option<Decimal>, EsError>)
    ensures
        r is Ok <==> opt_dec_ok(jv(*j), f@),
        r matches Ok(o) ==> opt_dec_is(o, dec_field(jv(*j), f@)),
        r is Err ==> is_error(r->Err_0, no_field_msg(f@)),
{
    match json_get(j, f) {
        Some(v) => match json_decimal(v) {
            Some(d) => Ok(Some(d)),
            None => Err(no_field(f)),
        },
        None => Ok(None),
    }
}

/// Reads an optional string field: absent is `None`, present but not a
/// string is an error.
pub fn read_opt_string(j: &Json, f: &str) -> (r: Result<Option<String>, EsError>)
    ensures
        r is Ok <==> opt_str_ok(jv(*j), f@),
        r matches Ok(o) ==> opt_str_is(o, str_field(jv(*j), f@)),
        r is Err ==> is_error(r->Err_0, no_field_msg(f@)),
{
    match json_get(j, f) {
        Some(v) => match json_str(v) {
            Some(s) => Ok(Some(s)),
            None => Err(no_field(f)),
        },
        None => Ok(None),
    }
}

/// A value under a key that is neither null, an array nor an object.
pub open spec fn jsonval_ok(j: JsonV, f: Seq<char>) -> bool {
    get_v(j, f) matches Some(v) && crate::json::scalar_v(v)
}

/// Reads a required field holding a string, number or boolean.
pub fn read_jsonval(j: &Json, f: &str) -> (r: Result<JsonVal, EsError>)
    ensures
        r is Ok <==> jsonval_ok(jv(*j), f@),
        r matches Ok(v) ==> get_v(jv(*j), f@) == Some(v.view_v()),
{
    match json_get(j, f) {
        Some(v) => JsonVal::from(v),
        None => Err(no_field(f)),
    }
}

/// An optional value that, when present, is neither null, an array nor an
/// object.
pub open spec fn optjv_ok(j: JsonV, f: Seq<char>) -> bool {
    get_v(j, f) matches Some(v) ==> crate::json::scalar_v(v)
}

/// What an optional value holds is what is under the key.
pub open spec fn optjv_is(o: Option<JsonVal>, p: Option<JsonV>) -> bool {
    match o {
        Some(x) => p == Some(x.view_v()),
        None => p is None,
    }
}

/// Reads an optional field holding a string, number or boolean; present but
/// of another kind is an error.
pub fn read_opt_jsonval(j: &Json, f: &str) -> (r: Result<Option<JsonVal>, EsError>)
    ensures
        r is Ok <==> optjv_ok(jv(*j), f@),
        r matches Ok(o) ==> optjv_is(o, get_v(jv(*j), f@)),
        optjv_error(jv(*j), f@) matches Some(m) ==> (r matches Err(e) && is_error(e, m)),
{
    match json_get(j, f) {
        Some(v) => match JsonVal::from(v) {
            Ok(x) => Ok(Some(x)),
            Err(e) => Err(e),
        },
        None => Ok(None),
    }
}

/// Reads the key of a bucket: a string, number or boolean.
pub fn read_key(j: &Json) -> (r: Result<JsonVal, EsError>)
    ensures
        r is Ok <==> jsonval_ok(jv(*j), "key"@),
        r matches Ok(v) ==> get_v(jv(*j), "key"@) == Some(v.view_v()),
        key_error(jv(*j)) matches Some(m) ==> (r matches Err(e) && is_error(e, m)),
{
    match json_get(j, "key") {
        Some(v) => JsonVal::from(v),
        None => Err(EsError::EsError("No 'key'".to_owned())),
    }
}

// ---------------------------------------------------------------------------
// Results of aggregations
// ---------------------------------------------------------------------------

/// The result of one specific aggregation
///
/// The data returned varies depending on aggregation type
#[derive(Debug)]
pub enum AggregationResult {
    /// Results of metrics aggregations
    Metrics(MetricsAggregationResult),
    /// Result of a bucket aggregation
    Bucket(BucketAggregationResult),
}

/// The results of a set of aggregations, each under its name; no name occurs
/// twice.
#[derive(Debug)]
pub struct AggregationsResult(pub(crate) KeyedMap<AggregationResult>);

impl AggregationsResult {
    /// The results under their names.
    pub closed spec fn view_v(&self) -> Seq<(Seq<char>, AggregationResult)> {
        self.0.view_v()
    }

    /// In every set of results, no name occurs twice.
    #[verifier::type_invariant]
    pub closed spec fn names_distinct(self) -> bool {
        crate::json::keys_distinct(self.0.view_v())
    }
}

/// Whether every one of the booleans holds.
pub open spec fn all_true(s: Seq<bool>) -> bool {
    forall|i: int| 0 <= i < s.len() ==> #[trigger] s[i]
}

/// Whether the JSON value can be read as the result of the aggregation.
pub open spec fn agg_readable(a: Aggregation, j: JsonV) -> bool
    decreases a, 10nat,
{
    match a {
        Aggregation::Metrics(m) => metrics_readable(m, j),
        Aggregation::Bucket(b, sub) => bucket_readable(b, j, sub),
    }
}

/// For each aggregation of a set, whether the object has a value under its
/// name that can be read as its result.
pub closed spec fn agg_readables(m: Aggregations, o: JsonV) -> Seq<bool>
    decreases m, 0nat,
{
    Seq::new(
        m.0.0@.len(),
        |i: int|
            if 0 <= i < m.0.0@.len() {
                proof {
                    assert(decreases_to!(m => m.0));
                    assert(decreases_to!(m.0 => m.0.0));
                    assert(decreases_to!(m.0.0 => m.0.0@));
                    assert(decreases_to!(m.0.0@ => m.0.0@[i]));
                    assert(decreases_to!(m.0.0@[i] => m.0.0@[i].1));
                }
                match get_v(o, m.0.0@[i].0@) {
                    Some(v) => agg_readable(m.0.0@[i].1, v),
                    None => false,
                }
            } else {
                true
            },
    )
}

/// Whether the object can be read as the results of the set of aggregations.
pub open spec fn aggs_readable(m: Aggregations, o: JsonV) -> bool
    decreases m, 1nat,
{
    all_true(agg_readables(m, o))
}

/// Whether the sub-aggregations asked for, if any, can be read from the
/// object.
pub open spec fn sub_readable(j: JsonV, sub: Option<Aggregations>) -> bool
    decreases sub, 5nat,
{
    match sub {
        Some(s) => j is Object && aggs_readable(s, j),
        None => true,
    }
}

/// Whether the result is what the JSON value reads as, for the aggregation.
pub open spec fn agg_reads(r: AggregationResult, a: Aggregation, j: JsonV) -> bool
    decreases a, 10nat,
{
    match (a, r) {
        (Aggregation::Metrics(m), AggregationResult::Metrics(x)) => metrics_reads(x, m, j),
        (Aggregation::Bucket(b, sub), AggregationResult::Bucket(x)) => bucket_reads(x, b, j, sub),
        _ => false,
    }
}

/// For each aggregation of a set, whether the result at its place is what the
/// value under its name reads as.
pub closed spec fn agg_reads_seq(r: AggregationsResult, m: Aggregations, o: JsonV) -> Seq<bool>
    decreases m, 0nat,
{
    Seq::new(
        m.0.0@.len(),
        |i: int|
            if 0 <= i < m.0.0@.len() && i < r.0.0@.len() {
                proof {
                    assert(decreases_to!(m => m.0));
                    assert(decreases_to!(m.0 => m.0.0));
                    assert(decreases_to!(m.0.0 => m.0.0@));
                    assert(decreases_to!(m.0.0@ => m.0.0@[i]));
                    assert(decreases_to!(m.0.0@[i] => m.0.0@[i].1));
                }
                match get_v(o, m.0.0@[i].0@) {
                    Some(v) => agg_reads(r.0.0@[i].1, m.0.0@[i].1, v),
                    None => false,
                }
            } else {
                false
            },
    )
}

/// Whether the results are what the object reads as: one result for each
/// aggregation, under its name, in the same order.
pub closed spec fn aggs_reads(r: AggregationsResult, m: Aggregations, o: JsonV) -> bool
    decreases m, 1nat,
{
    &&& r.0.0@.len() == m.0.0@.len()
    &&& forall|i: int| 0 <= i < m.0.0@.len() ==> (#[trigger] r.0.0@[i]).0@ == m.0.0@[i].0@
    &&& all_true(agg_reads_seq(r, m, o))
}

/// Whether the sub-aggregation results are what the object reads as.
pub open spec fn sub_reads(r: Option<AggregationsResult>, j: JsonV, sub: Option<Aggregations>) -> bool
    decreases sub, 5nat,
{
    match sub {
        Some(s) => r matches Some(x) && aggs_reads(x, s, j),
        None => r is None,
    }
}

/// The error that reading the result of an aggregation gives, where the
/// contracts name it: for a bucket aggregation, that of its own fields.
pub open spec fn agg_known_error(a: Aggregation, j: JsonV) -> Option<Seq<char>> {
    match a {
        Aggregation::Bucket(b, sub) => bucket_known_error(b, j, sub),
        Aggregation::Metrics(_) => None,
    }
}

/// The place of the first aggregation of a set whose result cannot be read
/// from the object.
pub open spec fn first_unreadable(m: Aggregations, o: JsonV) -> int {
    first_false(agg_readables(m, o))
}

/// The error that reading the results of a set gives, where the contracts
/// name it: at the first aggregation that cannot be read, `"No key: {name}"`
/// when the object has nothing under its name, else the error of that
/// aggregation's own fields.
pub closed spec fn aggs_known_error(m: Aggregations, o: JsonV) -> Option<Seq<char>> {
    let i = first_unreadable(m, o);
    if 0 <= i < m.0.0@.len() {
        match get_v(o, m.0.0@[i].0@) {
            None => Some("No key: "@ + m.0.0@[i].0@),
            Some(v) => agg_known_error(m.0.0@[i].1, v),
        }
    } else {
        None
    }
}

/// Whether the first aggregation of a set whose result cannot be read is a
/// metrics aggregation with a value under its name.
pub closed spec fn first_unreadable_is_metric(m: Aggregations, o: JsonV) -> bool {
    let i = first_unreadable(m, o);
    0 <= i < m.0.0@.len() && get_v(o, m.0.0@[i].0@) is Some && m.0.0@[i].1 is Metrics
}

/// Reads the results of the sub-aggregations asked for, if any, from the
/// object holding them.
pub fn extract_aggs(j: &Json, sub: &Option<Aggregations>) -> (r: Result<Option<AggregationsResult>, EsError>)
    ensures
        r is Ok <==> sub_readable(jv(*j), *sub),
        r matches Ok(x) ==> sub_reads(x, jv(*j), *sub),
        sub_error(jv(*j), *sub) matches Some(m) ==> (r matches Err(e) && is_error(e, m)),
    decreases *sub, 5nat,
{
    match sub {
        Some(aggs) => {
            match crate::json::json_object(j) {
                Some(_) => {},
                None => return Err(EsError::EsError("Not an object".to_owned())),
            }
            match object_to_result(aggs, j) {
                Ok(x) => Ok(Some(x)),
                Err(e) => Err(e),
            }
        },
        None => Ok(None),
    }
}

/// Reads the result of one aggregation.
pub fn agg_result(a: &Aggregation, j: &Json) -> (r: Result<AggregationResult, EsError>)
    ensures
        r is Ok <==> agg_readable(*a, jv(*j)),
        r matches Ok(x) ==> agg_reads(x, *a, jv(*j)),
        agg_known_error(*a, jv(*j)) matches Some(m) ==> (r matches Err(e) && is_error(e, m)),
        *a is Metrics && r is Err ==> r->Err_0 is JsonError,
    decreases *a, 10nat,
{
    match a {
        Aggregation::Metrics(m) => match MetricsAggregationResult::from(m, j) {
            Ok(x) => Ok(AggregationResult::Metrics(x)),
            Err(e) => Err(e),
        },
        Aggregation::Bucket(b, sub) => match BucketAggregationResult::from(b, j, sub) {
            Ok(x) => Ok(AggregationResult::Bucket(x)),
            Err(e) => Err(e),
        },
    }
}

/// Loads a Json object of aggregation results into an `AggregationsResult`:
/// for each aggregation asked for, the value under its name, read as its
/// result.
pub fn object_to_result(aggs: &Aggregations, object: &Json) -> (r: Result<AggregationsResult, EsError>)
    ensures
        r is Ok <==> aggs_readable(*aggs, jv(*object)),
        r matches Ok(x) ==> aggs_reads(x, *aggs, jv(*object)),
        r matches Ok(x) ==> crate::json::keys_distinct(x.view_v()),
        aggs_known_error(*aggs, jv(*object)) matches Some(m) ==> (r matches Err(e) && is_error(e, m)),
        first_unreadable_is_metric(*aggs, jv(*object)) ==> (r matches Err(e) && e is JsonError),
    decreases *aggs, 1nat,
{
    let ghost o = jv(*object);
    let ghost mut vals: Seq<JsonV> = Seq::empty();
    let mut out: Vec<(String, AggregationResult)> = Vec::new();
    let mut i: usize = 0;
    while i < aggs.0.0.len()
        invariant
            i <= aggs.0.0@.len(),
            o == jv(*object),
            out@.len() == i,
            forall|x: int| 0 <= x < i ==> #[trigger] agg_readables(*aggs, o)[x],
            agg_readables(*aggs, o).len() == aggs.0.0@.len(),
            forall|x: int| 0 <= x < i ==> (#[trigger] out@[x]).0@ == aggs.0.0@[x].0@,
            vals.len() == i,
            forall|x: int| 0 <= x < i ==> get_v(o, aggs.0.0@[x].0@) == Some(#[trigger] vals[x]),
            forall|x: int| 0 <= x < i ==> agg_reads((#[trigger] out@[x]).1, aggs.0.0@[x].1, vals[x]),
        decreases aggs.0.0.len() - i,
    {
        proof {
            assert(decreases_to!(aggs => aggs.0));
            assert(decreases_to!(aggs.0 => aggs.0.0));
            assert(decreases_to!(aggs.0.0 => aggs.0.0@));
            assert(decreases_to!(aggs.0.0@ => aggs.0.0@[i as int]));
            assert(decreases_to!(aggs.0.0@[i as int] => aggs.0.0@[i as int].1));
        }
        let key = &aggs.0.0[i].0;
        let json = match json_get(object, key.as_str()) {
            Some(v) => v,
            None => {
                assert(!agg_readables(*aggs, o)[i as int]);
                proof {
                    lemma_first_false(agg_readables(*aggs, o), i as int);
                }
                let mut m = "No key: ".to_owned();
                m.append(key.as_str());
                return Err(EsError::EsError(m));
            },
        };
        match agg_result(&aggs.0.0[i].1, json) {
            Ok(x) => {
                let k = key.clone();
                out.push((k, x));
                assert(get_v(o, aggs.0.0@[i as int].0@) == Some(jv(*json)));
                assert(out@[i as int].1 == x);
                assert(agg_reads(out@[i as int].1, aggs.0.0@[i as int].1, jv(*json)));
                proof {
                    vals = vals.push(jv(*json));
                }
            },
            Err(e) => {
                assert(!agg_readables(*aggs, o)[i as int]);
                proof {
                    lemma_first_false(agg_readables(*aggs, o), i as int);
                }
                return Err(e);
            },
        }
        i = i + 1;
    }
    proof {
        use_type_invariant(aggs);
    }
    let km = KeyedMap(out);
    assert forall|a: int, b: int| 0 <= a < b < km.view_v().len() implies km.view_v()[a].0 != km.view_v()[b].0 by {
        assert(km.view_v()[a].0 == aggs.view_v()[a].0);
        assert(km.view_v()[b].0 == aggs.view_v()[b].0);
    }
    let r = AggregationsResult(km);
    assert forall|x: int| 0 <= x < aggs.0.0@.len() implies #[trigger] agg_reads_seq(r, *aggs, o)[x] by {
        assert(r.0.0@[x] == out@[x]);
        assert(get_v(o, aggs.0.0@[x].0@) == Some(vals[x]));
        assert(agg_reads(out@[x].1, aggs.0.0@[x].1, vals[x]));
    }
    assert(all_true(agg_readables(*aggs, o)));
    proof {
        lemma_first_false_none(agg_readables(*aggs, o));
    }
    assert(r.0.0@ == out@);
    assert(r.0.0@.len() == aggs.0.0@.len());
    assert(forall|x: int| 0 <= x < aggs.0.0@.len() ==> (#[trigger] r.0.0@[x]).0@ == aggs.0.0@[x].0@);
    assert(all_true(agg_reads_seq(r, *aggs, o)));
    assert(aggs_reads(r, *aggs, o));
    assert forall|x: int| 0 <= x < r.0.view_v().len() implies #[trigger] r.0.view_v()[x].0 == aggs.view_v()[x].0 by {
        assert(r.0.0@[x].0@ == aggs.0.0@[x].0@);
    }
    Ok(r)
}

impl AggregationsResult {
    /// The result under a name.
    pub fn get(&self, key: &str) -> (r: Result<&AggregationResult, EsError>)
        ensures
            r matches Ok(x) ==> crate::json::map_get(self.view_v(), key@) == Some(*x),
            r is Err ==> crate::json::map_get(self.view_v(), key@) is None
                && is_error(r->Err_0, "No agg for key: "@ + key@),
    {
        let ghost s = self.0.view_v();
        let mut i: usize = 0;
        while i < self.0.0.len()
            invariant
                i <= self.0.0@.len(),
                s == self.0.view_v(),
                forall|x: int| 0 <= x < i ==> s[x].0 != key@,
            decreases self.0.0.len() - i,
        {
            if crate::util::str_eq(self.0.0[i].0.as_str(), key) {
                proof {
                    crate::json::lemma_key_index_at(s, key@, i as int);
                }
                return Ok(&self.0.0[i].1);
            }
            i = i + 1;
        }
        proof {
            crate::json::lemma_key_index_at(s, key@, i as int);
        }
        let mut m = "No agg for key: ".to_owned();
        m.append(key);
        Err(EsError::EsError(m))
    }

    /// Reads the results of the aggregations asked for from the JSON object
    /// of a response.
    pub fn from(aggs: &Aggregations, json: &Json) -> (r: Result<AggregationsResult, EsError>)
        ensures
            r is Ok <==> (jv(*json) is Object && aggs_readable(*aggs, jv(*json))),
            r matches Ok(x) ==> aggs_reads(x, *aggs, jv(*json)),
            !(jv(*json) is Object) ==> (r matches Err(e) && is_error(e, "Aggregations is not an object"@)),
            jv(*json) is Object ==> (aggs_known_error(*aggs, jv(*json)) matches Some(m) ==> (r matches Err(e)
                && is_error(e, m))),
            jv(*json) is Object && first_unreadable_is_metric(*aggs, jv(*json)) ==> (r matches Err(e) && e is JsonError),
    {
        match crate::json::json_object(json) {
            Some(_) => object_to_result(aggs, json),
            None => Err(EsError::EsError("Aggregations is not an object".to_owned())),
        }
    }
}

/// Law: the results read against a set of aggregations hold a result under
/// exactly the names of the aggregations, and the result under each name is
/// what the value under that name reads as, for the aggregation of that name
/// (so of the same kind).
pub proof fn lemma_results_by_name(r: AggregationsResult, m: Aggregations, o: JsonV)
    requires
        aggs_reads(r, m, o),
    ensures
        forall|k: Seq<char>|
            (#[trigger] crate::json::map_get(r.view_v(), k) is Some) <==> crate::json::map_get(m.view_v(), k) is Some,
        forall|k: Seq<char>|
            (#[trigger] crate::json::map_get(m.view_v(), k)) is Some ==> get_v(o, k) is Some
                && crate::json::map_get(r.view_v(), k) is Some && agg_reads(
                crate::json::map_get(r.view_v(), k)->Some_0,
                crate::json::map_get(m.view_v(), k)->Some_0,
                get_v(o, k)->Some_0,
            ),
{
    let rs = r.0.view_v();
    let ms = m.view_v();
    assert forall|k: Seq<char>| crate::json::key_index(rs, k) == crate::json::key_index(ms, k) by {
        crate::json::lemma_key_index(rs, k);
        crate::json::lemma_key_index(ms, k);
        let ki = crate::json::key_index(ms, k);
        if ki >= 0 {
            assert forall|x: int| 0 <= x < ki implies rs[x].0 != k by {
                assert(rs[x].0 == r.0.0@[x].0@);
                assert(ms[x].0 == m.0.0@[x].0@);
            }
            assert(rs[ki].0 == ms[ki].0);
            crate::json::lemma_key_index_at(rs, k, ki);
        } else {
            assert forall|x: int| 0 <= x < rs.len() implies rs[x].0 != k by {
                assert(rs[x].0 == r.0.0@[x].0@);
                assert(ms[x].0 == m.0.0@[x].0@);
            }
            crate::json::lemma_key_index_at(rs, k, rs.len() as int);
        }
    }
    assert forall|k: Seq<char>| (#[trigger] crate::json::map_get(m.view_v(), k)) is Some implies get_v(o, k) is Some
        && crate::json::map_get(r.view_v(), k) is Some && agg_reads(
        crate::json::map_get(r.view_v(), k)->Some_0,
        crate::json::map_get(m.view_v(), k)->Some_0,
        get_v(o, k)->Some_0,
    ) by {
        let ki = crate::json::key_index(ms, k);
        crate::json::lemma_key_index(ms, k);
        assert(crate::json::key_index(rs, k) == ki);
        assert(ms[ki] == (m.0.0@[ki].0@, m.0.0@[ki].1));
        assert(rs[ki] == (r.0.0@[ki].0@, r.0.0@[ki].1));
        assert(agg_reads_seq(r, m, o)[ki]);
    }
}

} // verus!
