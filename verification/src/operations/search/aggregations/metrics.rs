//! For metrics-based aggregations

use vstd::prelude::*;

use crate::json::{
    entries_view, object, one_entry, opt_entry, opt_v, push_entry, push_field, Decimal, Json, JsonV,
    MergeSerialize, NoOuter, ToJson,
};
use crate::error::EsError;
use crate::json::{dec_pair, dec_v, get_v, json_decimal, json_get, json_object, jv, KeyedMap};
use crate::units::{GeoBox, JsonVal, Location};
use super::common::{Agg, Script};
use super::{
    dec_field, is_error, jsonval_ok, no_field, read_decimal, read_jsonval, read_u64, u64_field, Aggregation,
    AggregationResult,
};

verus! {

/// Min aggregation
#[derive(Debug)]
pub struct Min<'a>(pub Agg<'a, NoOuter>);

impl<'a> ToJson for Min<'a> {
    open spec fn json_v(&self) -> JsonV {
        self.0.json_v()
    }

    fn to_json(&self) -> (r: Json) {
        self.0.to_json()
    }
}

impl<'a> Min<'a> {
    pub fn field(field: &'a str) -> (r: Self)
        ensures
            r.0.field == Some(field),
            r.0.script == Script::<'a>::empty_v(),
            r.0.missing is None,

    {
        Min(Agg { field: Some(field), script: Script::default(), missing: None, extra: NoOuter })
    }

    pub fn script(script: Script<'a>) -> (r: Self)
        ensures
            r.0.field is None,
            r.0.script == script,
            r.0.missing is None,

    {
        Min(Agg { field: None, script, missing: None, extra: NoOuter })
    }

    pub fn with_script(self, script: Script<'a>) -> (r: Self)
        ensures
            r.0 == (Agg { script, ..self.0 }),
    {
        Min(Agg { script, ..self.0 })
    }

    pub fn with_missing(self, missing: JsonVal) -> (r: Self)
        ensures
            r.0 == (Agg { missing: Some(missing), ..self.0 }),
    {
        Min(Agg { missing: Some(missing), ..self.0 })
    }
}


impl<'a> Min<'a> {
    /// This aggregation, as one of a set.
    pub fn build(self) -> (r: Aggregation<'a>)
        ensures
            r == Aggregation::Metrics(MetricsAggregation::Min(self)),
    {
        Aggregation::Metrics(MetricsAggregation::Min(self))
    }
}

/// Max aggregation
#[derive(Debug)]
pub struct Max<'a>(pub Agg<'a, NoOuter>);

impl<'a> ToJson for Max<'a> {
    open spec fn json_v(&self) -> JsonV {
        self.0.json_v()
    }

    fn to_json(&self) -> (r: Json) {
        self.0.to_json()
    }
}

impl<'a> Max<'a> {
    pub fn field(field: &'a str) -> (r: Self)
        ensures
            r.0.field == Some(field),
            r.0.script == Script::<'a>::empty_v(),
            r.0.missing is None,

    {
        Max(Agg { field: Some(field), script: Script::default(), missing: None, extra: NoOuter })
    }

    pub fn script(script: Script<'a>) -> (r: Self)
        ensures
            r.0.field is None,
            r.0.script == script,
            r.0.missing is None,

    {
        Max(Agg { field: None, script, missing: None, extra: NoOuter })
    }

    pub fn with_script(self, script: Script<'a>) -> (r: Self)
        ensures
            r.0 == (Agg { script, ..self.0 }),
    {
        Max(Agg { script, ..self.0 })
    }

    pub fn with_missing(self, missing: JsonVal) -> (r: Self)
        ensures
            r.0 == (Agg { missing: Some(missing), ..self.0 }),
    {
        Max(Agg { missing: Some(missing), ..self.0 })
    }
}


impl<'a> Max<'a> {
    /// This aggregation, as one of a set.
    pub fn build(self) -> (r: Aggregation<'a>)
        ensures
            r == Aggregation::Metrics(MetricsAggregation::Max(self)),
    {
        Aggregation::Metrics(MetricsAggregation::Max(self))
    }
}

/// Sum aggregation
#[derive(Debug)]
pub struct Sum<'a>(pub Agg<'a, NoOuter>);

impl<'a> ToJson for Sum<'a> {
    open spec fn json_v(&self) -> JsonV {
        self.0.json_v()
    }

    fn to_json(&self) -> (r: Json) {
        self.0.to_json()
    }
}

impl<'a> Sum<'a> {
    pub fn field(field: &'a str) -> (r: Self)
        ensures
            r.0.field == Some(field),
            r.0.script == Script::<'a>::empty_v(),
            r.0.missing is None,

    {
        Sum(Agg { field: Some(field), script: Script::default(), missing: None, extra: NoOuter })
    }

    pub fn script(script: Script<'a>) -> (r: Self)
        ensures
            r.0.field is None,
            r.0.script == script,
            r.0.missing is None,

    {
        Sum(Agg { field: None, script, missing: None, extra: NoOuter })
    }

    pub fn with_script(self, script: Script<'a>) -> (r: Self)
        ensures
            r.0 == (Agg { script, ..self.0 }),
    {
        Sum(Agg { script, ..self.0 })
    }

    pub fn with_missing(self, missing: JsonVal) -> (r: Self)
        ensures
            r.0 == (Agg { missing: Some(missing), ..self.0 }),
    {
        Sum(Agg { missing: Some(missing), ..self.0 })
    }
}


impl<'a> Sum<'a> {
    /// This aggregation, as one of a set.
    pub fn build(self) -> (r: Aggregation<'a>)
        ensures
            r == Aggregation::Metrics(MetricsAggregation::Sum(self)),
    {
        Aggregation::Metrics(MetricsAggregation::Sum(self))
    }
}

/// Avg aggregation
#[derive(Debug)]
pub struct Avg<'a>(pub Agg<'a, NoOuter>);

impl<'a> ToJson for Avg<'a> {
    open spec fn json_v(&self) -> JsonV {
        self.0.json_v()
    }

    fn to_json(&self) -> (r: Json) {
        self.0.to_json()
    }
}

impl<'a> Avg<'a> {
    pub fn field(field: &'a str) -> (r: Self)
        ensures
            r.0.field == Some(field),
            r.0.script == Script::<'a>::empty_v(),
            r.0.missing is None,

    {
        Avg(Agg { field: Some(field), script: Script::default(), missing: None, extra: NoOuter })
    }

    pub fn script(script: Script<'a>) -> (r: Self)
        ensures
            r.0.field is None,
            r.0.script == script,
            r.0.missing is None,

    {
        Avg(Agg { field: None, script, missing: None, extra: NoOuter })
    }

    pub fn with_script(self, script: Script<'a>) -> (r: Self)
        ensures
            r.0 == (Agg { script, ..self.0 }),
    {
        Avg(Agg { script, ..self.0 })
    }

    pub fn with_missing(self, missing: JsonVal) -> (r: Self)
        ensures
            r.0 == (Agg { missing: Some(missing), ..self.0 }),
    {
        Avg(Agg { missing: Some(missing), ..self.0 })
    }
}


impl<'a> Avg<'a> {
    /// This aggregation, as one of a set.
    pub fn build(self) -> (r: Aggregation<'a>)
        ensures
            r == Aggregation::Metrics(MetricsAggregation::Avg(self)),
    {
        Aggregation::Metrics(MetricsAggregation::Avg(self))
    }
}

/// Stats aggregation
#[derive(Debug)]
pub struct Stats<'a>(pub Agg<'a, NoOuter>);

impl<'a> ToJson for Stats<'a> {
    open spec fn json_v(&self) -> JsonV {
        self.0.json_v()
    }

    fn to_json(&self) -> (r: Json) {
        self.0.to_json()
    }
}

impl<'a> Stats<'a> {
    pub fn field(field: &'a str) -> (r: Self)
        ensures
            r.0.field == Some(field),
            r.0.script == Script::<'a>::empty_v(),
            r.0.missing is None,

    {
        Stats(Agg { field: Some(field), script: Script::default(), missing: None, extra: NoOuter })
    }

    pub fn script(script: Script<'a>) -> (r: Self)
        ensures
            r.0.field is None,
            r.0.script == script,
            r.0.missing is None,

    {
        Stats(Agg { field: None, script, missing: None, extra: NoOuter })
    }

    pub fn with_script(self, script: Script<'a>) -> (r: Self)
        ensures
            r.0 == (Agg { script, ..self.0 }),
    {
        Stats(Agg { script, ..self.0 })
    }

    pub fn with_missing(self, missing: JsonVal) -> (r: Self)
        ensures
            r.0 == (Agg { missing: Some(missing), ..self.0 }),
    {
        Stats(Agg { missing: Some(missing), ..self.0 })
    }
}


impl<'a> Stats<'a> {
    /// This aggregation, as one of a set.
    pub fn build(self) -> (r: Aggregation<'a>)
        ensures
            r == Aggregation::Metrics(MetricsAggregation::Stats(self)),
    {
        Aggregation::Metrics(MetricsAggregation::Stats(self))
    }
}

/// Extended stats aggregation
#[derive(Debug)]
pub struct ExtendedStats<'a>(pub Agg<'a, NoOuter>);

impl<'a> ToJson for ExtendedStats<'a> {
    open spec fn json_v(&self) -> JsonV {
        self.0.json_v()
    }

    fn to_json(&self) -> (r: Json) {
        self.0.to_json()
    }
}

impl<'a> ExtendedStats<'a> {
    pub fn field(field: &'a str) -> (r: Self)
        ensures
            r.0.field == Some(field),
            r.0.script == Script::<'a>::empty_v(),
            r.0.missing is None,

    {
        ExtendedStats(Agg { field: Some(field), script: Script::default(), missing: None, extra: NoOuter })
    }

    pub fn script(script: Script<'a>) -> (r: Self)
        ensures
            r.0.field is None,
            r.0.script == script,
            r.0.missing is None,

    {
        ExtendedStats(Agg { field: None, script, missing: None, extra: NoOuter })
    }

    pub fn with_script(self, script: Script<'a>) -> (r: Self)
        ensures
            r.0 == (Agg { script, ..self.0 }),
    {
        ExtendedStats(Agg { script, ..self.0 })
    }

    pub fn with_missing(self, missing: JsonVal) -> (r: Self)
        ensures
            r.0 == (Agg { missing: Some(missing), ..self.0 }),
    {
        ExtendedStats(Agg { missing: Some(missing), ..self.0 })
    }
}


impl<'a> ExtendedStats<'a> {
    /// This aggregation, as one of a set.
    pub fn build(self) -> (r: Aggregation<'a>)
        ensures
            r == Aggregation::Metrics(MetricsAggregation::ExtendedStats(self)),
    {
        Aggregation::Metrics(MetricsAggregation::ExtendedStats(self))
    }
}

/// Value count aggregation
#[derive(Debug)]
pub struct ValueCount<'a>(pub Agg<'a, NoOuter>);

impl<'a> ToJson for ValueCount<'a> {
    open spec fn json_v(&self) -> JsonV {
        self.0.json_v()
    }

    fn to_json(&self) -> (r: Json) {
        self.0.to_json()
    }
}

impl<'a> ValueCount<'a> {
    pub fn field(field: &'a str) -> (r: Self)
        ensures
            r.0.field == Some(field),
            r.0.script == Script::<'a>::empty_v(),
            r.0.missing is None,

    {
        ValueCount(Agg { field: Some(field), script: Script::default(), missing: None, extra: NoOuter })
    }

    pub fn script(script: Script<'a>) -> (r: Self)
        ensures
            r.0.field is None,
            r.0.script == script,
            r.0.missing is None,

    {
        ValueCount(Agg { field: None, script, missing: None, extra: NoOuter })
    }

    pub fn with_script(self, script: Script<'a>) -> (r: Self)
        ensures
            r.0 == (Agg { script, ..self.0 }),
    {
        ValueCount(Agg { script, ..self.0 })
    }

    pub fn with_missing(self, missing: JsonVal) -> (r: Self)
        ensures
            r.0 == (Agg { missing: Some(missing), ..self.0 }),
    {
        ValueCount(Agg { missing: Some(missing), ..self.0 })
    }
}


impl<'a> ValueCount<'a> {
    /// This aggregation, as one of a set.
    pub fn build(self) -> (r: Aggregation<'a>)
        ensures
            r == Aggregation::Metrics(MetricsAggregation::ValueCount(self)),
    {
        Aggregation::Metrics(MetricsAggregation::ValueCount(self))
    }
}

/// The options of a percentiles aggregation.
#[derive(Debug)]
pub struct PercentilesExtra {
    pub percents: Option<Vec<Decimal>>,
    pub compression: Option<u64>,
}

impl MergeSerialize for PercentilesExtra {
    open spec fn merge_entries(&self) -> Seq<(Seq<char>, JsonV)> {
        opt_entry("percents"@, opt_v(self.percents))
                + opt_entry("compression"@, opt_v(self.compression))
    }

    fn merge_serialize(&self, e: &mut Vec<(String, Json)>) {
        push_field(e, "percents", &self.percents);
        push_field(e, "compression", &self.compression);
        assert(entries_view(e@) =~= entries_view(old(e)@) + self.merge_entries());
    }
}

/// Percentiles aggregation
#[derive(Debug)]
pub struct Percentiles<'a>(pub Agg<'a, PercentilesExtra>);

impl<'a> ToJson for Percentiles<'a> {
    open spec fn json_v(&self) -> JsonV {
        self.0.json_v()
    }

    fn to_json(&self) -> (r: Json) {
        self.0.to_json()
    }
}

impl<'a> Percentiles<'a> {
    pub fn field(field: &'a str) -> (r: Self)
        ensures
            r.0.field == Some(field),
            r.0.script == Script::<'a>::empty_v(),
            r.0.missing is None,
            r.0.extra.percents is None,
            r.0.extra.compression is None,
    {
        Percentiles(Agg { field: Some(field), script: Script::default(), missing: None, extra: PercentilesExtra { percents: None, compression: None } })
    }

    pub fn script(script: Script<'a>) -> (r: Self)
        ensures
            r.0.field is None,
            r.0.script == script,
            r.0.missing is None,
            r.0.extra.percents is None,
            r.0.extra.compression is None,
    {
        Percentiles(Agg { field: None, script, missing: None, extra: PercentilesExtra { percents: None, compression: None } })
    }

    pub fn with_script(self, script: Script<'a>) -> (r: Self)
        ensures
            r.0 == (Agg { script, ..self.0 }),
    {
        Percentiles(Agg { script, ..self.0 })
    }

    pub fn with_missing(self, missing: JsonVal) -> (r: Self)
        ensures
            r.0 == (Agg { missing: Some(missing), ..self.0 }),
    {
        Percentiles(Agg { missing: Some(missing), ..self.0 })
    }

    pub fn with_percents(self, val: Vec<Decimal>) -> (r: Self)
        ensures
            r.0 == (Agg { extra: (PercentilesExtra { percents: Some(val), ..self.0.extra }), ..self.0 }),
    {
        let mut s = self;
        s.0.extra.percents = Some(val);
        s
    }

    pub fn with_compression(self, val: u64) -> (r: Self)
        ensures
            r.0 == (Agg { extra: (PercentilesExtra { compression: Some(val), ..self.0.extra }), ..self.0 }),
    {
        let mut s = self;
        s.0.extra.compression = Some(val);
        s
    }
}


impl<'a> Percentiles<'a> {
    /// This aggregation, as one of a set.
    pub fn build(self) -> (r: Aggregation<'a>)
        ensures
            r == Aggregation::Metrics(MetricsAggregation::Percentiles(self)),
    {
        Aggregation::Metrics(MetricsAggregation::Percentiles(self))
    }
}

/// The options of a percentile ranks aggregation.
#[derive(Debug)]
pub struct PercentileRanksExtra {
    pub values: Vec<Decimal>,
}

impl MergeSerialize for PercentileRanksExtra {
    open spec fn merge_entries(&self) -> Seq<(Seq<char>, JsonV)> {
        one_entry("values"@, self.values.json_v())
    }

    fn merge_serialize(&self, e: &mut Vec<(String, Json)>) {
        push_entry(e, "values", self.values.to_json());
        assert(entries_view(e@) =~= entries_view(old(e)@) + self.merge_entries());
    }
}

/// Percentile Ranks aggregation
#[derive(Debug)]
pub struct PercentileRanks<'a>(pub Agg<'a, PercentileRanksExtra>);

impl<'a> ToJson for PercentileRanks<'a> {
    open spec fn json_v(&self) -> JsonV {
        self.0.json_v()
    }

    fn to_json(&self) -> (r: Json) {
        self.0.to_json()
    }
}

impl<'a> PercentileRanks<'a> {
    pub fn field(field: &'a str) -> (r: Self)
        ensures
            r.0.field == Some(field),
            r.0.script == Script::<'a>::empty_v(),
            r.0.missing is None,
            r.0.extra.values@.len() == 0,
    {
        PercentileRanks(Agg { field: Some(field), script: Script::default(), missing: None, extra: PercentileRanksExtra { values: Vec::new() } })
    }

    pub fn script(script: Script<'a>) -> (r: Self)
        ensures
            r.0.field is None,
            r.0.script == script,
            r.0.missing is None,
            r.0.extra.values@.len() == 0,
    {
        PercentileRanks(Agg { field: None, script, missing: None, extra: PercentileRanksExtra { values: Vec::new() } })
    }

    pub fn with_script(self, script: Script<'a>) -> (r: Self)
        ensures
            r.0 == (Agg { script, ..self.0 }),
    {
        PercentileRanks(Agg { script, ..self.0 })
    }

    pub fn with_missing(self, missing: JsonVal) -> (r: Self)
        ensures
            r.0 == (Agg { missing: Some(missing), ..self.0 }),
    {
        PercentileRanks(Agg { missing: Some(missing), ..self.0 })
    }
}


impl<'a> PercentileRanks<'a> {
    pub fn with_values(self, values: Vec<Decimal>) -> (r: Self)
        ensures
            r.0 == (Agg { extra: PercentileRanksExtra { values }, ..self.0 }),
    {
        PercentileRanks(Agg { extra: PercentileRanksExtra { values }, ..self.0 })
    }
}


impl<'a> PercentileRanks<'a> {
    /// This aggregation, as one of a set.
    pub fn build(self) -> (r: Aggregation<'a>)
        ensures
            r == Aggregation::Metrics(MetricsAggregation::PercentileRanks(self)),
    {
        Aggregation::Metrics(MetricsAggregation::PercentileRanks(self))
    }
}

/// The options of a cardinality aggregation.
#[derive(Debug)]
pub struct CardinalityExtra {
    pub precision_threshold: Option<u64>,
    pub rehash: Option<bool>,
}

impl MergeSerialize for CardinalityExtra {
    open spec fn merge_entries(&self) -> Seq<(Seq<char>, JsonV)> {
        opt_entry("precision_threshold"@, opt_v(self.precision_threshold))
                + opt_entry("rehash"@, opt_v(self.rehash))
    }

    fn merge_serialize(&self, e: &mut Vec<(String, Json)>) {
        push_field(e, "precision_threshold", &self.precision_threshold);
        push_field(e, "rehash", &self.rehash);
        assert(entries_view(e@) =~= entries_view(old(e)@) + self.merge_entries());
    }
}

/// Cardinality aggregation
#[derive(Debug)]
pub struct Cardinality<'a>(pub Agg<'a, CardinalityExtra>);

impl<'a> ToJson for Cardinality<'a> {
    open spec fn json_v(&self) -> JsonV {
        self.0.json_v()
    }

    fn to_json(&self) -> (r: Json) {
        self.0.to_json()
    }
}

impl<'a> Cardinality<'a> {
    pub fn field(field: &'a str) -> (r: Self)
        ensures
            r.0.field == Some(field),
            r.0.script == Script::<'a>::empty_v(),
            r.0.missing is None,
            r.0.extra.precision_threshold is None,
            r.0.extra.rehash is None,
    {
        Cardinality(Agg { field: Some(field), script: Script::default(), missing: None, extra: CardinalityExtra { precision_threshold: None, rehash: None } })
    }

    pub fn script(script: Script<'a>) -> (r: Self)
        ensures
            r.0.field is None,
            r.0.script == script,
            r.0.missing is None,
            r.0.extra.precision_threshold is None,
            r.0.extra.rehash is None,
    {
        Cardinality(Agg { field: None, script, missing: None, extra: CardinalityExtra { precision_threshold: None, rehash: None } })
    }

    pub fn with_script(self, script: Script<'a>) -> (r: Self)
        ensures
            r.0 == (Agg { script, ..self.0 }),
    {
        Cardinality(Agg { script, ..self.0 })
    }

    pub fn with_missing(self, missing: JsonVal) -> (r: Self)
        ensures
            r.0 == (Agg { missing: Some(missing), ..self.0 }),
    {
        Cardinality(Agg { missing: Some(missing), ..self.0 })
    }

    pub fn with_precision_threshold(self, val: u64) -> (r: Self)
        ensures
            r.0 == (Agg { extra: (CardinalityExtra { precision_threshold: Some(val), ..self.0.extra }), ..self.0 }),
    {
        let mut s = self;
        s.0.extra.precision_threshold = Some(val);
        s
    }

    pub fn with_rehash(self, val: bool) -> (r: Self)
        ensures
            r.0 == (Agg { extra: (CardinalityExtra { rehash: Some(val), ..self.0.extra }), ..self.0 }),
    {
        let mut s = self;
        s.0.extra.rehash = Some(val);
        s
    }
}


impl<'a> Cardinality<'a> {
    /// This aggregation, as one of a set.
    pub fn build(self) -> (r: Aggregation<'a>)
        ensures
            r == Aggregation::Metrics(MetricsAggregation::Cardinality(self)),
    {
        Aggregation::Metrics(MetricsAggregation::Cardinality(self))
    }
}

/// Geo Bounds aggregation
#[derive(Debug)]
pub struct GeoBounds<'a> {
    pub field: &'a str,
    pub wrap_longitude: Option<bool>,
}

impl<'a> ToJson for GeoBounds<'a> {
    open spec fn json_v(&self) -> JsonV {
        JsonV::Object(
            one_entry("field"@, self.field.json_v())
                + opt_entry("wrap_longitude"@, opt_v(self.wrap_longitude))
        )
    }

    fn to_json(&self) -> (r: Json) {
        let mut e: Vec<(String, Json)> = Vec::new();
        push_entry(&mut e, "field", self.field.to_json());
        push_field(&mut e, "wrap_longitude", &self.wrap_longitude);
        assert(entries_view(e@) =~= self.json_v()->Object_0);
        object(e)
    }
}

impl<'a> GeoBounds<'a> {
    pub fn new(field: &'a str) -> (r: GeoBounds<'a>)
        ensures
            r == (GeoBounds { field, wrap_longitude: None }),
    {
        GeoBounds { field, wrap_longitude: None }
    }

    pub fn with_wrap_longitude(self, val: bool) -> (r: Self)
        ensures
            r == (GeoBounds { wrap_longitude: Some(val), ..self }),
    {
        GeoBounds { wrap_longitude: Some(val), ..self }
    }
}


impl<'a> GeoBounds<'a> {
    /// This aggregation, as one of a set.
    pub fn build(self) -> (r: Aggregation<'a>)
        ensures
            r == Aggregation::Metrics(MetricsAggregation::GeoBounds(self)),
    {
        Aggregation::Metrics(MetricsAggregation::GeoBounds(self))
    }
}

/// Scripted metric aggregation
#[derive(Debug)]
pub struct ScriptedMetric<'a> {
    pub init_script: Option<&'a str>,
    pub map_script: &'a str,
    pub combine_script: Option<&'a str>,
    pub reduce_script: Option<&'a str>,
    pub params: Option<Json>,
    pub reduce_params: Option<Json>,
    pub lang: Option<&'a str>,
    pub init_script_file: Option<&'a str>,
    pub init_script_id: Option<&'a str>,
    pub map_script_file: Option<&'a str>,
    pub map_script_id: Option<&'a str>,
    pub combine_script_file: Option<&'a str>,
    pub combine_script_id: Option<&'a str>,
    pub reduce_script_file: Option<&'a str>,
    pub reduce_script_id: Option<&'a str>,
}

impl<'a> ToJson for ScriptedMetric<'a> {
    open spec fn json_v(&self) -> JsonV {
        JsonV::Object(
            opt_entry("init_script"@, opt_v(self.init_script))
                + one_entry("map_script"@, self.map_script.json_v())
                + opt_entry("combine_script"@, opt_v(self.combine_script))
                + opt_entry("reduce_script"@, opt_v(self.reduce_script))
                + opt_entry("params"@, opt_v(self.params))
                + opt_entry("reduce_params"@, opt_v(self.reduce_params))
                + opt_entry("lang"@, opt_v(self.lang))
                + opt_entry("init_script_file"@, opt_v(self.init_script_file))
                + opt_entry("init_script_id"@, opt_v(self.init_script_id))
                + opt_entry("map_script_file"@, opt_v(self.map_script_file))
                + opt_entry("map_script_id"@, opt_v(self.map_script_id))
                + opt_entry("combine_script_file"@, opt_v(self.combine_script_file))
                + opt_entry("combine_script_id"@, opt_v(self.combine_script_id))
                + opt_entry("reduce_script_file"@, opt_v(self.reduce_script_file))
                + opt_entry("reduce_script_id"@, opt_v(self.reduce_script_id))
        )
    }

    fn to_json(&self) -> (r: Json) {
        let mut e: Vec<(String, Json)> = Vec::new();
        push_field(&mut e, "init_script", &self.init_script);
        push_entry(&mut e, "map_script", self.map_script.to_json());
        push_field(&mut e, "combine_script", &self.combine_script);
        push_field(&mut e, "reduce_script", &self.reduce_script);
        push_field(&mut e, "params", &self.params);
        push_field(&mut e, "reduce_params", &self.reduce_params);
        push_field(&mut e, "lang", &self.lang);
        push_field(&mut e, "init_script_file", &self.init_script_file);
        push_field(&mut e, "init_script_id", &self.init_script_id);
        push_field(&mut e, "map_script_file", &self.map_script_file);
        push_field(&mut e, "map_script_id", &self.map_script_id);
        push_field(&mut e, "combine_script_file", &self.combine_script_file);
        push_field(&mut e, "combine_script_id", &self.combine_script_id);
        push_field(&mut e, "reduce_script_file", &self.reduce_script_file);
        push_field(&mut e, "reduce_script_id", &self.reduce_script_id);
        assert(entries_view(e@) =~= self.json_v()->Object_0);
        object(e)
    }
}

impl<'a> ScriptedMetric<'a> {
    pub fn new(map_script: &'a str) -> (r: ScriptedMetric<'a>)
        ensures
            r == (ScriptedMetric { init_script: None, map_script, combine_script: None, reduce_script: None, params: None, reduce_params: None, lang: None, init_script_file: None, init_script_id: None, map_script_file: None, map_script_id: None, combine_script_file: None, combine_script_id: None, reduce_script_file: None, reduce_script_id: None }),
    {
        ScriptedMetric { init_script: None, map_script, combine_script: None, reduce_script: None, params: None, reduce_params: None, lang: None, init_script_file: None, init_script_id: None, map_script_file: None, map_script_id: None, combine_script_file: None, combine_script_id: None, reduce_script_file: None, reduce_script_id: None }
    }

    pub fn with_init_script(self, val: &'a str) -> (r: Self)
        ensures
            r == (ScriptedMetric { init_script: Some(val), ..self }),
    {
        ScriptedMetric { init_script: Some(val), ..self }
    }

    pub fn with_combine_script(self, val: &'a str) -> (r: Self)
        ensures
            r == (ScriptedMetric { combine_script: Some(val), ..self }),
    {
        ScriptedMetric { combine_script: Some(val), ..self }
    }

    pub fn with_reduce_script(self, val: &'a str) -> (r: Self)
        ensures
            r == (ScriptedMetric { reduce_script: Some(val), ..self }),
    {
        ScriptedMetric { reduce_script: Some(val), ..self }
    }

    pub fn with_params(self, val: Json) -> (r: Self)
        ensures
            r == (ScriptedMetric { params: Some(val), ..self }),
    {
        ScriptedMetric { params: Some(val), ..self }
    }

    pub fn with_reduce_params(self, val: Json) -> (r: Self)
        ensures
            r == (ScriptedMetric { reduce_params: Some(val), ..self }),
    {
        ScriptedMetric { reduce_params: Some(val), ..self }
    }

    pub fn with_lang(self, val: &'a str) -> (r: Self)
        ensures
            r == (ScriptedMetric { lang: Some(val), ..self }),
    {
        ScriptedMetric { lang: Some(val), ..self }
    }

    pub fn with_init_script_file(self, val: &'a str) -> (r: Self)
        ensures
            r == (ScriptedMetric { init_script_file: Some(val), ..self }),
    {
        ScriptedMetric { init_script_file: Some(val), ..self }
    }

    pub fn with_init_script_id(self, val: &'a str) -> (r: Self)
        ensures
            r == (ScriptedMetric { init_script_id: Some(val), ..self }),
    {
        ScriptedMetric { init_script_id: Some(val), ..self }
    }

    pub fn with_map_script_file(self, val: &'a str) -> (r: Self)
        ensures
            r == (ScriptedMetric { map_script_file: Some(val), ..self }),
    {
        ScriptedMetric { map_script_file: Some(val), ..self }
    }

    pub fn with_map_script_id(self, val: &'a str) -> (r: Self)
        ensures
            r == (ScriptedMetric { map_script_id: Some(val), ..self }),
    {
        ScriptedMetric { map_script_id: Some(val), ..self }
    }

    pub fn with_combine_script_file(self, val: &'a str) -> (r: Self)
        ensures
            r == (ScriptedMetric { combine_script_file: Some(val), ..self }),
    {
        ScriptedMetric { combine_script_file: Some(val), ..self }
    }

    pub fn with_combine_script_id(self, val: &'a str) -> (r: Self)
        ensures
            r == (ScriptedMetric { combine_script_id: Some(val), ..self }),
    {
        ScriptedMetric { combine_script_id: Some(val), ..self }
    }

    pub fn with_reduce_script_file(self, val: &'a str) -> (r: Self)
        ensures
            r == (ScriptedMetric { reduce_script_file: Some(val), ..self }),
    {
        ScriptedMetric { reduce_script_file: Some(val), ..self }
    }

    pub fn with_reduce_script_id(self, val: &'a str) -> (r: Self)
        ensures
            r == (ScriptedMetric { reduce_script_id: Some(val), ..self }),
    {
        ScriptedMetric { reduce_script_id: Some(val), ..self }
    }
}


impl<'a> ScriptedMetric<'a> {
    /// This aggregation, as one of a set.
    pub fn build(self) -> (r: Aggregation<'a>)
        ensures
            r == Aggregation::Metrics(MetricsAggregation::ScriptedMetric(self)),
    {
        Aggregation::Metrics(MetricsAggregation::ScriptedMetric(self))
    }
}

/// Individual aggregations and their options
#[derive(Debug)]
pub enum MetricsAggregation<'a> {
    Min(Min<'a>),
    Max(Max<'a>),
    Sum(Sum<'a>),
    Avg(Avg<'a>),
    Stats(Stats<'a>),
    ExtendedStats(ExtendedStats<'a>),
    ValueCount(ValueCount<'a>),
    Percentiles(Percentiles<'a>),
    PercentileRanks(PercentileRanks<'a>),
    Cardinality(Cardinality<'a>),
    GeoBounds(GeoBounds<'a>),
    ScriptedMetric(ScriptedMetric<'a>),
}


/// Law: each value is written by its ElasticSearch name (`min`, `max`, `sum`, `avg`, `stats`,
/// `extended_stats`, `value_count`, `percentiles`, `percentile_ranks`, `cardinality`,
/// `geo_bounds`, `scripted_metric`, in the order of the variants).
pub proof fn lemma_metrics_aggregation_names(x: MetricsAggregation)
    ensures
        x is Min ==> x.details_v() == "min"@,
        x is Max ==> x.details_v() == "max"@,
        x is Sum ==> x.details_v() == "sum"@,
        x is Avg ==> x.details_v() == "avg"@,
        x is Stats ==> x.details_v() == "stats"@,
        x is ExtendedStats ==> x.details_v() == "extended_stats"@,
        x is ValueCount ==> x.details_v() == "value_count"@,
        x is Percentiles ==> x.details_v() == "percentiles"@,
        x is PercentileRanks ==> x.details_v() == "percentile_ranks"@,
        x is Cardinality ==> x.details_v() == "cardinality"@,
        x is GeoBounds ==> x.details_v() == "geo_bounds"@,
        x is ScriptedMetric ==> x.details_v() == "scripted_metric"@,
{
}

impl<'a> MetricsAggregation<'a> {
    /// The name of the kind of aggregation.
    pub open spec fn details_v(&self) -> Seq<char> {
        match self {
            MetricsAggregation::Min(_) => "min"@,
            MetricsAggregation::Max(_) => "max"@,
            MetricsAggregation::Sum(_) => "sum"@,
            MetricsAggregation::Avg(_) => "avg"@,
            MetricsAggregation::Stats(_) => "stats"@,
            MetricsAggregation::ExtendedStats(_) => "extended_stats"@,
            MetricsAggregation::ValueCount(_) => "value_count"@,
            MetricsAggregation::Percentiles(_) => "percentiles"@,
            MetricsAggregation::PercentileRanks(_) => "percentile_ranks"@,
            MetricsAggregation::Cardinality(_) => "cardinality"@,
            MetricsAggregation::GeoBounds(_) => "geo_bounds"@,
            MetricsAggregation::ScriptedMetric(_) => "scripted_metric"@,
        }
    }

    pub fn details(&self) -> (r: &'static str)
        ensures
            r@ == self.details_v(),
    {
        match self {
            MetricsAggregation::Min(_) => "min",
            MetricsAggregation::Max(_) => "max",
            MetricsAggregation::Sum(_) => "sum",
            MetricsAggregation::Avg(_) => "avg",
            MetricsAggregation::Stats(_) => "stats",
            MetricsAggregation::ExtendedStats(_) => "extended_stats",
            MetricsAggregation::ValueCount(_) => "value_count",
            MetricsAggregation::Percentiles(_) => "percentiles",
            MetricsAggregation::PercentileRanks(_) => "percentile_ranks",
            MetricsAggregation::Cardinality(_) => "cardinality",
            MetricsAggregation::GeoBounds(_) => "geo_bounds",
            MetricsAggregation::ScriptedMetric(_) => "scripted_metric",
        }
    }
}

/// Written as the aggregation it holds.
impl<'a> ToJson for MetricsAggregation<'a> {
    open spec fn json_v(&self) -> JsonV {
        match self {
            MetricsAggregation::Min(a) => a.json_v(),
            MetricsAggregation::Max(a) => a.json_v(),
            MetricsAggregation::Sum(a) => a.json_v(),
            MetricsAggregation::Avg(a) => a.json_v(),
            MetricsAggregation::Stats(a) => a.json_v(),
            MetricsAggregation::ExtendedStats(a) => a.json_v(),
            MetricsAggregation::ValueCount(a) => a.json_v(),
            MetricsAggregation::Percentiles(a) => a.json_v(),
            MetricsAggregation::PercentileRanks(a) => a.json_v(),
            MetricsAggregation::Cardinality(a) => a.json_v(),
            MetricsAggregation::GeoBounds(a) => a.json_v(),
            MetricsAggregation::ScriptedMetric(a) => a.json_v(),
        }
    }

    fn to_json(&self) -> (r: Json) {
        match self {
            MetricsAggregation::Min(a) => a.to_json(),
            MetricsAggregation::Max(a) => a.to_json(),
            MetricsAggregation::Sum(a) => a.to_json(),
            MetricsAggregation::Avg(a) => a.to_json(),
            MetricsAggregation::Stats(a) => a.to_json(),
            MetricsAggregation::ExtendedStats(a) => a.to_json(),
            MetricsAggregation::ValueCount(a) => a.to_json(),
            MetricsAggregation::Percentiles(a) => a.to_json(),
            MetricsAggregation::PercentileRanks(a) => a.to_json(),
            MetricsAggregation::Cardinality(a) => a.to_json(),
            MetricsAggregation::GeoBounds(a) => a.to_json(),
            MetricsAggregation::ScriptedMetric(a) => a.to_json(),
        }
    }
}

// results

/// Min Result
#[derive(Debug)]
pub struct MinResult {
    pub value: JsonVal,
}

impl MinResult {
    /// Whether the JSON value can be read as this result.
    pub open spec fn readable(j: JsonV) -> bool {
        jsonval_ok(j, "value"@)
    }

    /// Whether this result is what the JSON value reads as.
    pub open spec fn reads(self, j: JsonV) -> bool {
        get_v(j, "value"@) == Some(self.value.view_v())
    }

    /// Reads the result from its JSON form.
    pub fn from(j: &Json) -> (r: Result<MinResult, EsError>)
        ensures
            r is Ok <==> Self::readable(jv(*j)),
            r matches Ok(v) ==> v.reads(jv(*j)),
    {
        let value = match read_jsonval(j, "value") {
            Ok(x) => x,
            Err(e) => return Err(e),
        };
        Ok(MinResult { value })
    }
}

/// Max Result
#[derive(Debug)]
pub struct MaxResult {
    pub value: JsonVal,
}

impl MaxResult {
    /// Whether the JSON value can be read as this result.
    pub open spec fn readable(j: JsonV) -> bool {
        jsonval_ok(j, "value"@)
    }

    /// Whether this result is what the JSON value reads as.
    pub open spec fn reads(self, j: JsonV) -> bool {
        get_v(j, "value"@) == Some(self.value.view_v())
    }

    /// Reads the result from its JSON form.
    pub fn from(j: &Json) -> (r: Result<MaxResult, EsError>)
        ensures
            r is Ok <==> Self::readable(jv(*j)),
            r matches Ok(v) ==> v.reads(jv(*j)),
    {
        let value = match read_jsonval(j, "value") {
            Ok(x) => x,
            Err(e) => return Err(e),
        };
        Ok(MaxResult { value })
    }
}

/// Sum Result
#[derive(Debug)]
pub struct SumResult {
    pub value: Decimal,
}

impl SumResult {
    /// Whether the JSON value can be read as this result.
    pub open spec fn readable(j: JsonV) -> bool {
        dec_field(j, "value"@) is Some
    }

    /// Whether this result is what the JSON value reads as.
    pub open spec fn reads(self, j: JsonV) -> bool {
        dec_field(j, "value"@) == Some(dec_pair(self.value))
    }

    /// Reads the result from its JSON form.
    pub fn from(j: &Json) -> (r: Result<SumResult, EsError>)
        ensures
            r is Ok <==> Self::readable(jv(*j)),
            r matches Ok(v) ==> v.reads(jv(*j)),
    {
        let value = match read_decimal(j, "value") {
            Ok(x) => x,
            Err(e) => return Err(e),
        };
        Ok(SumResult { value })
    }
}

/// Avg Result
#[derive(Debug)]
pub struct AvgResult {
    pub value: Decimal,
}

impl AvgResult {
    /// Whether the JSON value can be read as this result.
    pub open spec fn readable(j: JsonV) -> bool {
        dec_field(j, "value"@) is Some
    }

    /// Whether this result is what the JSON value reads as.
    pub open spec fn reads(self, j: JsonV) -> bool {
        dec_field(j, "value"@) == Some(dec_pair(self.value))
    }

    /// Reads the result from its JSON form.
    pub fn from(j: &Json) -> (r: Result<AvgResult, EsError>)
        ensures
            r is Ok <==> Self::readable(jv(*j)),
            r matches Ok(v) ==> v.reads(jv(*j)),
    {
        let value = match read_decimal(j, "value") {
            Ok(x) => x,
            Err(e) => return Err(e),
        };
        Ok(AvgResult { value })
    }
}

/// Stats Result
#[derive(Debug)]
pub struct StatsResult {
    pub count: u64,
    pub min: Decimal,
    pub max: Decimal,
    pub avg: Decimal,
    pub sum: Decimal,
}

impl StatsResult {
    /// Whether the JSON value can be read as this result.
    pub open spec fn readable(j: JsonV) -> bool {
        u64_field(j, "count"@) is Some
        && dec_field(j, "min"@) is Some
        && dec_field(j, "max"@) is Some
        && dec_field(j, "avg"@) is Some
        && dec_field(j, "sum"@) is Some
    }

    /// Whether this result is what the JSON value reads as.
    pub open spec fn reads(self, j: JsonV) -> bool {
        u64_field(j, "count"@) == Some(self.count)
        && dec_field(j, "min"@) == Some(dec_pair(self.min))
        && dec_field(j, "max"@) == Some(dec_pair(self.max))
        && dec_field(j, "avg"@) == Some(dec_pair(self.avg))
        && dec_field(j, "sum"@) == Some(dec_pair(self.sum))
    }

    /// Reads the result from its JSON form.
    pub fn from(j: &Json) -> (r: Result<StatsResult, EsError>)
        ensures
            r is Ok <==> Self::readable(jv(*j)),
            r matches Ok(v) ==> v.reads(jv(*j)),
    {
        let count = match read_u64(j, "count") {
            Ok(x) => x,
            Err(e) => return Err(e),
        };
        let min = match read_decimal(j, "min") {
            Ok(x) => x,
            Err(e) => return Err(e),
        };
        let max = match read_decimal(j, "max") {
            Ok(x) => x,
            Err(e) => return Err(e),
        };
        let avg = match read_decimal(j, "avg") {
            Ok(x) => x,
            Err(e) => return Err(e),
        };
        let sum = match read_decimal(j, "sum") {
            Ok(x) => x,
            Err(e) => return Err(e),
        };
        Ok(StatsResult { count, min, max, avg, sum })
    }
}

/// Used by the `ExtendedStatsResult`
#[derive(Debug)]
pub struct Bounds {
    pub upper: Decimal,
    pub lower: Decimal,
}

impl Bounds {
    /// Whether the JSON value can be read as this result.
    pub open spec fn readable(j: JsonV) -> bool {
        dec_field(j, "upper"@) is Some
        && dec_field(j, "lower"@) is Some
    }

    /// Whether this result is what the JSON value reads as.
    pub open spec fn reads(self, j: JsonV) -> bool {
        dec_field(j, "upper"@) == Some(dec_pair(self.upper))
        && dec_field(j, "lower"@) == Some(dec_pair(self.lower))
    }

    /// Reads the result from its JSON form.
    pub fn from(j: &Json) -> (r: Result<Bounds, EsError>)
        ensures
            r is Ok <==> Self::readable(jv(*j)),
            r matches Ok(v) ==> v.reads(jv(*j)),
    {
        let upper = match read_decimal(j, "upper") {
            Ok(x) => x,
            Err(e) => return Err(e),
        };
        let lower = match read_decimal(j, "lower") {
            Ok(x) => x,
            Err(e) => return Err(e),
        };
        Ok(Bounds { upper, lower })
    }
}

/// Extended Stats Result
#[derive(Debug)]
pub struct ExtendedStatsResult {
    pub count: u64,
    pub min: Decimal,
    pub max: Decimal,
    pub avg: Decimal,
    pub sum: Decimal,
    pub sum_of_squares: Decimal,
    pub variance: Decimal,
    pub std_deviation: Decimal,
    pub std_deviation_bounds: Bounds,
}

impl ExtendedStatsResult {
    /// Whether the JSON value can be read as this result.
    pub open spec fn readable(j: JsonV) -> bool {
        u64_field(j, "count"@) is Some
        && dec_field(j, "min"@) is Some
        && dec_field(j, "max"@) is Some
        && dec_field(j, "avg"@) is Some
        && dec_field(j, "sum"@) is Some
        && dec_field(j, "sum_of_squares"@) is Some
        && dec_field(j, "variance"@) is Some
        && dec_field(j, "std_deviation"@) is Some
        && (get_v(j, "std_deviation_bounds"@) matches Some(v) && Bounds::readable(v))
    }

    /// Whether this result is what the JSON value reads as.
    pub open spec fn reads(self, j: JsonV) -> bool {
        u64_field(j, "count"@) == Some(self.count)
        && dec_field(j, "min"@) == Some(dec_pair(self.min))
        && dec_field(j, "max"@) == Some(dec_pair(self.max))
        && dec_field(j, "avg"@) == Some(dec_pair(self.avg))
        && dec_field(j, "sum"@) == Some(dec_pair(self.sum))
        && dec_field(j, "sum_of_squares"@) == Some(dec_pair(self.sum_of_squares))
        && dec_field(j, "variance"@) == Some(dec_pair(self.variance))
        && dec_field(j, "std_deviation"@) == Some(dec_pair(self.std_deviation))
        && (get_v(j, "std_deviation_bounds"@) matches Some(v) && self.std_deviation_bounds.reads(v))
    }

    /// Reads the result from its JSON form.
    pub fn from(j: &Json) -> (r: Result<ExtendedStatsResult, EsError>)
        ensures
            r is Ok <==> Self::readable(jv(*j)),
            r matches Ok(v) ==> v.reads(jv(*j)),
    {
        let count = match read_u64(j, "count") {
            Ok(x) => x,
            Err(e) => return Err(e),
        };
        let min = match read_decimal(j, "min") {
            Ok(x) => x,
            Err(e) => return Err(e),
        };
        let max = match read_decimal(j, "max") {
            Ok(x) => x,
            Err(e) => return Err(e),
        };
        let avg = match read_decimal(j, "avg") {
            Ok(x) => x,
            Err(e) => return Err(e),
        };
        let sum = match read_decimal(j, "sum") {
            Ok(x) => x,
            Err(e) => return Err(e),
        };
        let sum_of_squares = match read_decimal(j, "sum_of_squares") {
            Ok(x) => x,
            Err(e) => return Err(e),
        };
        let variance = match read_decimal(j, "variance") {
            Ok(x) => x,
            Err(e) => return Err(e),
        };
        let std_deviation = match read_decimal(j, "std_deviation") {
            Ok(x) => x,
            Err(e) => return Err(e),
        };
        let std_deviation_bounds = match match json_get(j, "std_deviation_bounds") { Some(v) => Bounds::from(v), None => Err(no_field("std_deviation_bounds")) } {
            Ok(x) => x,
            Err(e) => return Err(e),
        };
        Ok(ExtendedStatsResult { count, min, max, avg, sum, sum_of_squares, variance, std_deviation, std_deviation_bounds })
    }
}

/// Value Count Result
#[derive(Debug)]
pub struct ValueCountResult {
    pub value: u64,
}

impl ValueCountResult {
    /// Whether the JSON value can be read as this result.
    pub open spec fn readable(j: JsonV) -> bool {
        u64_field(j, "value"@) is Some
    }

    /// Whether this result is what the JSON value reads as.
    pub open spec fn reads(self, j: JsonV) -> bool {
        u64_field(j, "value"@) == Some(self.value)
    }

    /// Reads the result from its JSON form.
    pub fn from(j: &Json) -> (r: Result<ValueCountResult, EsError>)
        ensures
            r is Ok <==> Self::readable(jv(*j)),
            r matches Ok(v) ==> v.reads(jv(*j)),
    {
        let value = match read_u64(j, "value") {
            Ok(x) => x,
            Err(e) => return Err(e),
        };
        Ok(ValueCountResult { value })
    }
}

/// Percentiles Result
#[derive(Debug)]
pub struct PercentilesResult {
    pub values: KeyedMap<Decimal>,
}

impl PercentilesResult {
    /// Whether the JSON value can be read as this result.
    pub open spec fn readable(j: JsonV) -> bool {
        (get_v(j, "values"@) matches Some(v) && decmap_readable(v))
    }

    /// Whether this result is what the JSON value reads as.
    pub open spec fn reads(self, j: JsonV) -> bool {
        (get_v(j, "values"@) matches Some(v) && decmap_reads(self.values, v))
    }

    /// Reads the result from its JSON form.
    pub fn from(j: &Json) -> (r: Result<PercentilesResult, EsError>)
        ensures
            r is Ok <==> Self::readable(jv(*j)),
            r matches Ok(v) ==> v.reads(jv(*j)),
    {
        let values = match match json_get(j, "values") { Some(v) => read_decmap(v), None => Err(no_field("values")) } {
            Ok(x) => x,
            Err(e) => return Err(e),
        };
        Ok(PercentilesResult { values })
    }
}

/// Percentile Ranks Result
#[derive(Debug)]
pub struct PercentileRanksResult {
    pub values: KeyedMap<Decimal>,
}

impl PercentileRanksResult {
    /// Whether the JSON value can be read as this result.
    pub open spec fn readable(j: JsonV) -> bool {
        (get_v(j, "values"@) matches Some(v) && decmap_readable(v))
    }

    /// Whether this result is what the JSON value reads as.
    pub open spec fn reads(self, j: JsonV) -> bool {
        (get_v(j, "values"@) matches Some(v) && decmap_reads(self.values, v))
    }

    /// Reads the result from its JSON form.
    pub fn from(j: &Json) -> (r: Result<PercentileRanksResult, EsError>)
        ensures
            r is Ok <==> Self::readable(jv(*j)),
            r matches Ok(v) ==> v.reads(jv(*j)),
    {
        let values = match match json_get(j, "values") { Some(v) => read_decmap(v), None => Err(no_field("values")) } {
            Ok(x) => x,
            Err(e) => return Err(e),
        };
        Ok(PercentileRanksResult { values })
    }
}

/// Cardinality Result
#[derive(Debug)]
pub struct CardinalityResult {
    pub value: u64,
}

impl CardinalityResult {
    /// Whether the JSON value can be read as this result.
    pub open spec fn readable(j: JsonV) -> bool {
        u64_field(j, "value"@) is Some
    }

    /// Whether this result is what the JSON value reads as.
    pub open spec fn reads(self, j: JsonV) -> bool {
        u64_field(j, "value"@) == Some(self.value)
    }

    /// Reads the result from its JSON form.
    pub fn from(j: &Json) -> (r: Result<CardinalityResult, EsError>)
        ensures
            r is Ok <==> Self::readable(jv(*j)),
            r matches Ok(v) ==> v.reads(jv(*j)),
    {
        let value = match read_u64(j, "value") {
            Ok(x) => x,
            Err(e) => return Err(e),
        };
        Ok(CardinalityResult { value })
    }
}

/// Geo Bounds Result
#[derive(Debug)]
pub struct GeoBoundsResult {
    pub bounds: GeoBox,
}

impl GeoBoundsResult {
    /// Whether the JSON value can be read as this result.
    pub open spec fn readable(j: JsonV) -> bool {
        (get_v(j, "bounds"@) matches Some(v) && geobox_readable(v))
    }

    /// Whether this result is what the JSON value reads as.
    pub open spec fn reads(self, j: JsonV) -> bool {
        (get_v(j, "bounds"@) matches Some(v) && geobox_reads(self.bounds, v))
    }

    /// Reads the result from its JSON form.
    pub fn from(j: &Json) -> (r: Result<GeoBoundsResult, EsError>)
        ensures
            r is Ok <==> Self::readable(jv(*j)),
            r matches Ok(v) ==> v.reads(jv(*j)),
    {
        let bounds = match match json_get(j, "bounds") { Some(v) => read_geobox(v), None => Err(no_field("bounds")) } {
            Ok(x) => x,
            Err(e) => return Err(e),
        };
        Ok(GeoBoundsResult { bounds })
    }
}

/// Scripted Metric Result
#[derive(Debug)]
pub struct ScriptedMetricResult {
    pub value: JsonVal,
}

impl ScriptedMetricResult {
    /// Whether the JSON value can be read as this result.
    pub open spec fn readable(j: JsonV) -> bool {
        jsonval_ok(j, "value"@)
    }

    /// Whether this result is what the JSON value reads as.
    pub open spec fn reads(self, j: JsonV) -> bool {
        get_v(j, "value"@) == Some(self.value.view_v())
    }

    /// Reads the result from its JSON form.
    pub fn from(j: &Json) -> (r: Result<ScriptedMetricResult, EsError>)
        ensures
            r is Ok <==> Self::readable(jv(*j)),
            r matches Ok(v) ==> v.reads(jv(*j)),
    {
        let value = match read_jsonval(j, "value") {
            Ok(x) => x,
            Err(e) => return Err(e),
        };
        Ok(ScriptedMetricResult { value })
    }
}

/// The result of a metrics aggregation, of the kind asked for.
#[derive(Debug)]
pub enum MetricsAggregationResult {
    Min(MinResult),
    Max(MaxResult),
    Sum(SumResult),
    Avg(AvgResult),
    Stats(StatsResult),
    ExtendedStats(ExtendedStatsResult),
    ValueCount(ValueCountResult),
    Percentiles(PercentilesResult),
    PercentileRanks(PercentileRanksResult),
    Cardinality(CardinalityResult),
    GeoBounds(GeoBoundsResult),
    ScriptedMetric(ScriptedMetricResult),
}

/// Whether the JSON value can be read as the result of the aggregation.
pub open spec fn metrics_readable(ma: MetricsAggregation, j: JsonV) -> bool {
    match ma {
        MetricsAggregation::Min(_) => MinResult::readable(j),
        MetricsAggregation::Max(_) => MaxResult::readable(j),
        MetricsAggregation::Sum(_) => SumResult::readable(j),
        MetricsAggregation::Avg(_) => AvgResult::readable(j),
        MetricsAggregation::Stats(_) => StatsResult::readable(j),
        MetricsAggregation::ExtendedStats(_) => ExtendedStatsResult::readable(j),
        MetricsAggregation::ValueCount(_) => ValueCountResult::readable(j),
        MetricsAggregation::Percentiles(_) => PercentilesResult::readable(j),
        MetricsAggregation::PercentileRanks(_) => PercentileRanksResult::readable(j),
        MetricsAggregation::Cardinality(_) => CardinalityResult::readable(j),
        MetricsAggregation::GeoBounds(_) => GeoBoundsResult::readable(j),
        MetricsAggregation::ScriptedMetric(_) => ScriptedMetricResult::readable(j),
    }
}

/// Whether the result is what the JSON value reads as, for the aggregation.
pub open spec fn metrics_reads(r: MetricsAggregationResult, ma: MetricsAggregation, j: JsonV) -> bool {
    match (ma, r) {
        (MetricsAggregation::Min(_), MetricsAggregationResult::Min(x)) => x.reads(j),
        (MetricsAggregation::Max(_), MetricsAggregationResult::Max(x)) => x.reads(j),
        (MetricsAggregation::Sum(_), MetricsAggregationResult::Sum(x)) => x.reads(j),
        (MetricsAggregation::Avg(_), MetricsAggregationResult::Avg(x)) => x.reads(j),
        (MetricsAggregation::Stats(_), MetricsAggregationResult::Stats(x)) => x.reads(j),
        (MetricsAggregation::ExtendedStats(_), MetricsAggregationResult::ExtendedStats(x)) => x.reads(j),
        (MetricsAggregation::ValueCount(_), MetricsAggregationResult::ValueCount(x)) => x.reads(j),
        (MetricsAggregation::Percentiles(_), MetricsAggregationResult::Percentiles(x)) => x.reads(j),
        (MetricsAggregation::PercentileRanks(_), MetricsAggregationResult::PercentileRanks(x)) => x.reads(j),
        (MetricsAggregation::Cardinality(_), MetricsAggregationResult::Cardinality(x)) => x.reads(j),
        (MetricsAggregation::GeoBounds(_), MetricsAggregationResult::GeoBounds(x)) => x.reads(j),
        (MetricsAggregation::ScriptedMetric(_), MetricsAggregationResult::ScriptedMetric(x)) => x.reads(j),
        _ => false,
    }
}

impl MetricsAggregationResult {
    /// Reads the result of a metrics aggregation from its JSON form.
    pub fn from(ma: &MetricsAggregation, json: &Json) -> (r: Result<MetricsAggregationResult, EsError>)
        ensures
            r is Ok <==> metrics_readable(*ma, jv(*json)),
            r matches Ok(v) ==> metrics_reads(v, *ma, jv(*json)),
            r is Err ==> r->Err_0 is JsonError,
    {
        match Self::read(ma, json) {
            Ok(x) => Ok(x),
            Err(e) => Err(as_json_error(e)),
        }
    }

    /// Reads the result of a metrics aggregation, by the reader of its kind.
    fn read(ma: &MetricsAggregation, json: &Json) -> (r: Result<MetricsAggregationResult, EsError>)
        ensures
            r is Ok <==> metrics_readable(*ma, jv(*json)),
            r matches Ok(v) ==> metrics_reads(v, *ma, jv(*json)),
    {
        match ma {
            MetricsAggregation::Min(_) => match MinResult::from(json) {
                Ok(x) => Ok(MetricsAggregationResult::Min(x)),
                Err(e) => Err(e),
            },
            MetricsAggregation::Max(_) => match MaxResult::from(json) {
                Ok(x) => Ok(MetricsAggregationResult::Max(x)),
                Err(e) => Err(e),
            },
            MetricsAggregation::Sum(_) => match SumResult::from(json) {
                Ok(x) => Ok(MetricsAggregationResult::Sum(x)),
                Err(e) => Err(e),
            },
            MetricsAggregation::Avg(_) => match AvgResult::from(json) {
                Ok(x) => Ok(MetricsAggregationResult::Avg(x)),
                Err(e) => Err(e),
            },
            MetricsAggregation::Stats(_) => match StatsResult::from(json) {
                Ok(x) => Ok(MetricsAggregationResult::Stats(x)),
                Err(e) => Err(e),
            },
            MetricsAggregation::ExtendedStats(_) => match ExtendedStatsResult::from(json) {
                Ok(x) => Ok(MetricsAggregationResult::ExtendedStats(x)),
                Err(e) => Err(e),
            },
            MetricsAggregation::ValueCount(_) => match ValueCountResult::from(json) {
                Ok(x) => Ok(MetricsAggregationResult::ValueCount(x)),
                Err(e) => Err(e),
            },
            MetricsAggregation::Percentiles(_) => match PercentilesResult::from(json) {
                Ok(x) => Ok(MetricsAggregationResult::Percentiles(x)),
                Err(e) => Err(e),
            },
            MetricsAggregation::PercentileRanks(_) => match PercentileRanksResult::from(json) {
                Ok(x) => Ok(MetricsAggregationResult::PercentileRanks(x)),
                Err(e) => Err(e),
            },
            MetricsAggregation::Cardinality(_) => match CardinalityResult::from(json) {
                Ok(x) => Ok(MetricsAggregationResult::Cardinality(x)),
                Err(e) => Err(e),
            },
            MetricsAggregation::GeoBounds(_) => match GeoBoundsResult::from(json) {
                Ok(x) => Ok(MetricsAggregationResult::GeoBounds(x)),
                Err(e) => Err(e),
            },
            MetricsAggregation::ScriptedMetric(_) => match ScriptedMetricResult::from(json) {
                Ok(x) => Ok(MetricsAggregationResult::ScriptedMetric(x)),
                Err(e) => Err(e),
            },
        }
    }
}

/// The text of an error.
pub open spec fn error_text(e: EsError) -> Seq<char> {
    match e {
        EsError::EsError(m) => m@,
        EsError::EsServerError(m) => m@,
        EsError::JsonError(m) => m@,
    }
}

/// A result that cannot be read is an error in decoding the reply: the
/// same message, as a JSON error.
pub fn as_json_error(e: EsError) -> (r: EsError)
    ensures
        r matches EsError::JsonError(m) && m@ == error_text(e),
{
    match e {
        EsError::EsError(m) => EsError::JsonError(m),
        EsError::EsServerError(m) => EsError::JsonError(m),
        EsError::JsonError(m) => EsError::JsonError(m),
    }
}

/// An object whose every value is a number.
pub open spec fn decmap_readable(j: JsonV) -> bool {
    j matches JsonV::Object(es) && forall|i: int| 0 <= i < es.len() ==> (#[trigger] dec_v(es[i].1)) is Some
}

/// The map holds the entries of the object, in order, with their numbers.
pub open spec fn decmap_reads(m: KeyedMap<Decimal>, j: JsonV) -> bool {
    j matches JsonV::Object(es) && m.view_v().len() == es.len() && forall|i: int|
        0 <= i < es.len() ==> (#[trigger] m.view_v()[i]).0 == es[i].0 && dec_v(es[i].1) == Some(dec_pair(m.view_v()[i].1))
}

/// Reads an object of numbers.
pub fn read_decmap(j: &Json) -> (r: Result<KeyedMap<Decimal>, EsError>)
    ensures
        r is Ok <==> decmap_readable(jv(*j)),
        r matches Ok(m) ==> decmap_reads(m, jv(*j)),
{
    match json_object(j) {
        Some(v) => {
            let ghost es = entries_view(v@);
            let mut out: Vec<(String, Decimal)> = Vec::new();
            let mut i: usize = 0;
            while i < v.len()
                invariant
                    i <= v@.len(),
                    es == entries_view(v@),
                    jv(*j) == JsonV::Object(es),
                    out@.len() == i,
                    forall|x: int| 0 <= x < i ==> (#[trigger] out@[x]).0@ == es[x].0 && dec_v(es[x].1) == Some(dec_pair(out@[x].1)),
                decreases v.len() - i,
            {
                match json_decimal(&v[i].1) {
                    Some(d) => out.push((v[i].0.clone(), d)),
                    None => {
                        assert(es[i as int].1 == jv(v@[i as int].1));
                        assert(dec_v(es[i as int].1) is None);
                        return Err(EsError::EsError("Not a number".to_owned()));
                    },
                }
                i = i + 1;
            }
            let m = KeyedMap(out);
            assert(m.view_v().len() == es.len());
            assert forall|x: int| 0 <= x < es.len() implies (#[trigger] dec_v(es[x].1)) is Some by {
                assert(dec_v(es[x].1) == Some(dec_pair(out@[x].1)));
            }
            Ok(m)
        },
        None => Err(EsError::EsError("Not an object".to_owned())),
    }
}

/// A location read from an object of numbers with `lat` and `lon`.
pub open spec fn location_readable(j: JsonV) -> bool {
    decmap_readable(j) && dec_field(j, "lat"@) is Some && dec_field(j, "lon"@) is Some
}

/// The location holds the `lat` and `lon` of the object.
pub open spec fn location_reads(l: Location, j: JsonV) -> bool {
    l matches Location::LatLon(a, b) && dec_field(j, "lat"@) == Some(dec_pair(a))
        && dec_field(j, "lon"@) == Some(dec_pair(b))
}

/// Reads a location; one without `lat` or `lon` is an error.
pub fn read_location(j: &Json) -> (r: Result<Location, EsError>)
    ensures
        r is Ok <==> location_readable(jv(*j)),
        r matches Ok(l) ==> location_reads(l, jv(*j)),
{
    match read_decmap(j) {
        Ok(_) => {},
        Err(e) => return Err(e),
    }
    let lat = match read_decimal(j, "lat") {
        Ok(x) => x,
        Err(e) => return Err(e),
    };
    let lon = match read_decimal(j, "lon") {
        Ok(x) => x,
        Err(e) => return Err(e),
    };
    Ok(Location::LatLon(lat, lon))
}

/// A box read from an object of locations with `top_left` and `bottom_right`.
pub open spec fn geobox_readable(j: JsonV) -> bool {
    &&& j matches JsonV::Object(es) && forall|i: int| 0 <= i < es.len() ==> #[trigger] location_readable(es[i].1)
    &&& get_v(j, "top_left"@) is Some
    &&& get_v(j, "bottom_right"@) is Some
}

/// The box holds the corners of the object.
pub open spec fn geobox_reads(g: GeoBox, j: JsonV) -> bool {
    g matches GeoBox::Corners(tl, br) && location_reads(tl, get_v(j, "top_left"@)->0)
        && location_reads(br, get_v(j, "bottom_right"@)->0)
}

/// Reads a box by its corners; one without either corner is an error.
pub fn read_geobox(j: &Json) -> (r: Result<GeoBox, EsError>)
    ensures
        r is Ok <==> geobox_readable(jv(*j)),
        r matches Ok(g) ==> geobox_reads(g, jv(*j)),
{
    match json_object(j) {
        Some(v) => {
            let ghost es = entries_view(v@);
            let mut i: usize = 0;
            while i < v.len()
                invariant
                    i <= v@.len(),
                    es == entries_view(v@),
                    jv(*j) == JsonV::Object(es),
                    forall|x: int| 0 <= x < i ==> #[trigger] location_readable(es[x].1),
                decreases v.len() - i,
            {
                assert(es[i as int].1 == jv(v@[i as int].1));
                match read_location(&v[i].1) {
                    Ok(_) => {},
                    Err(e) => return Err(e),
                }
                i = i + 1;
            }
            proof {
                crate::json::lemma_key_index(es, "top_left"@);
                crate::json::lemma_key_index(es, "bottom_right"@);
            }
            let tl = match json_get(j, "top_left") {
                Some(x) => match read_location(x) {
                    Ok(l) => l,
                    Err(e) => return Err(e),
                },
                None => return Err(no_field("top_left")),
            };
            let br = match json_get(j, "bottom_right") {
                Some(x) => match read_location(x) {
                    Ok(l) => l,
                    Err(e) => return Err(e),
                },
                None => return Err(no_field("bottom_right")),
            };
            Ok(GeoBox::Corners(tl, br))
        },
        None => Err(EsError::EsError("Not an object".to_owned())),
    }
}

/// The results of metrics aggregations, by kind.
impl AggregationResult {
    pub fn as_min(&self) -> (r: Result<&MinResult, EsError>)
        ensures
            r is Ok <==> (*self matches AggregationResult::Metrics(MetricsAggregationResult::Min(_))),
            *self matches AggregationResult::Metrics(MetricsAggregationResult::Min(x)) ==> (r matches Ok(y) && *y == x),
            r is Err ==> is_error(r->Err_0, "Wrong type"@),
    {
        match self {
            AggregationResult::Metrics(MetricsAggregationResult::Min(res)) => Ok(res),
            _ => Err(EsError::EsError("Wrong type".to_owned())),
        }
    }

    pub fn as_max(&self) -> (r: Result<&MaxResult, EsError>)
        ensures
            r is Ok <==> (*self matches AggregationResult::Metrics(MetricsAggregationResult::Max(_))),
            *self matches AggregationResult::Metrics(MetricsAggregationResult::Max(x)) ==> (r matches Ok(y) && *y == x),
            r is Err ==> is_error(r->Err_0, "Wrong type"@),
    {
        match self {
            AggregationResult::Metrics(MetricsAggregationResult::Max(res)) => Ok(res),
            _ => Err(EsError::EsError("Wrong type".to_owned())),
        }
    }

    pub fn as_sum(&self) -> (r: Result<&SumResult, EsError>)
        ensures
            r is Ok <==> (*self matches AggregationResult::Metrics(MetricsAggregationResult::Sum(_))),
            *self matches AggregationResult::Metrics(MetricsAggregationResult::Sum(x)) ==> (r matches Ok(y) && *y == x),
            r is Err ==> is_error(r->Err_0, "Wrong type"@),
    {
        match self {
            AggregationResult::Metrics(MetricsAggregationResult::Sum(res)) => Ok(res),
            _ => Err(EsError::EsError("Wrong type".to_owned())),
        }
    }

    pub fn as_avg(&self) -> (r: Result<&AvgResult, EsError>)
        ensures
            r is Ok <==> (*self matches AggregationResult::Metrics(MetricsAggregationResult::Avg(_))),
            *self matches AggregationResult::Metrics(MetricsAggregationResult::Avg(x)) ==> (r matches Ok(y) && *y == x),
            r is Err ==> is_error(r->Err_0, "Wrong type"@),
    {
        match self {
            AggregationResult::Metrics(MetricsAggregationResult::Avg(res)) => Ok(res),
            _ => Err(EsError::EsError("Wrong type".to_owned())),
        }
    }

    pub fn as_stats(&self) -> (r: Result<&StatsResult, EsError>)
        ensures
            r is Ok <==> (*self matches AggregationResult::Metrics(MetricsAggregationResult::Stats(_))),
            *self matches AggregationResult::Metrics(MetricsAggregationResult::Stats(x)) ==> (r matches Ok(y) && *y == x),
            r is Err ==> is_error(r->Err_0, "Wrong type"@),
    {
        match self {
            AggregationResult::Metrics(MetricsAggregationResult::Stats(res)) => Ok(res),
            _ => Err(EsError::EsError("Wrong type".to_owned())),
        }
    }

    pub fn as_extended_stats(&self) -> (r: Result<&ExtendedStatsResult, EsError>)
        ensures
            r is Ok <==> (*self matches AggregationResult::Metrics(MetricsAggregationResult::ExtendedStats(_))),
            *self matches AggregationResult::Metrics(MetricsAggregationResult::ExtendedStats(x)) ==> (r matches Ok(y) && *y == x),
            r is Err ==> is_error(r->Err_0, "Wrong type"@),
    {
        match self {
            AggregationResult::Metrics(MetricsAggregationResult::ExtendedStats(res)) => Ok(res),
            _ => Err(EsError::EsError("Wrong type".to_owned())),
        }
    }

    pub fn as_value_count(&self) -> (r: Result<&ValueCountResult, EsError>)
        ensures
            r is Ok <==> (*self matches AggregationResult::Metrics(MetricsAggregationResult::ValueCount(_))),
            *self matches AggregationResult::Metrics(MetricsAggregationResult::ValueCount(x)) ==> (r matches Ok(y) && *y == x),
            r is Err ==> is_error(r->Err_0, "Wrong type"@),
    {
        match self {
            AggregationResult::Metrics(MetricsAggregationResult::ValueCount(res)) => Ok(res),
            _ => Err(EsError::EsError("Wrong type".to_owned())),
        }
    }

    pub fn as_percentiles(&self) -> (r: Result<&PercentilesResult, EsError>)
        ensures
            r is Ok <==> (*self matches AggregationResult::Metrics(MetricsAggregationResult::Percentiles(_))),
            *self matches AggregationResult::Metrics(MetricsAggregationResult::Percentiles(x)) ==> (r matches Ok(y) && *y == x),
            r is Err ==> is_error(r->Err_0, "Wrong type"@),
    {
        match self {
            AggregationResult::Metrics(MetricsAggregationResult::Percentiles(res)) => Ok(res),
            _ => Err(EsError::EsError("Wrong type".to_owned())),
        }
    }

    pub fn as_percentile_ranks(&self) -> (r: Result<&PercentileRanksResult, EsError>)
        ensures
            r is Ok <==> (*self matches AggregationResult::Metrics(MetricsAggregationResult::PercentileRanks(_))),
            *self matches AggregationResult::Metrics(MetricsAggregationResult::PercentileRanks(x)) ==> (r matches Ok(y) && *y == x),
            r is Err ==> is_error(r->Err_0, "Wrong type"@),
    {
        match self {
            AggregationResult::Metrics(MetricsAggregationResult::PercentileRanks(res)) => Ok(res),
            _ => Err(EsError::EsError("Wrong type".to_owned())),
        }
    }

    pub fn as_cardinality(&self) -> (r: Result<&CardinalityResult, EsError>)
        ensures
            r is Ok <==> (*self matches AggregationResult::Metrics(MetricsAggregationResult::Cardinality(_))),
            *self matches AggregationResult::Metrics(MetricsAggregationResult::Cardinality(x)) ==> (r matches Ok(y) && *y == x),
            r is Err ==> is_error(r->Err_0, "Wrong type"@),
    {
        match self {
            AggregationResult::Metrics(MetricsAggregationResult::Cardinality(res)) => Ok(res),
            _ => Err(EsError::EsError("Wrong type".to_owned())),
        }
    }

    pub fn as_geo_bounds(&self) -> (r: Result<&GeoBoundsResult, EsError>)
        ensures
            r is Ok <==> (*self matches AggregationResult::Metrics(MetricsAggregationResult::GeoBounds(_))),
            *self matches AggregationResult::Metrics(MetricsAggregationResult::GeoBounds(x)) ==> (r matches Ok(y) && *y == x),
            r is Err ==> is_error(r->Err_0, "Wrong type"@),
    {
        match self {
            AggregationResult::Metrics(MetricsAggregationResult::GeoBounds(res)) => Ok(res),
            _ => Err(EsError::EsError("Wrong type".to_owned())),
        }
    }

    pub fn as_scripted_metric(&self) -> (r: Result<&ScriptedMetricResult, EsError>)
        ensures
            r is Ok <==> (*self matches AggregationResult::Metrics(MetricsAggregationResult::ScriptedMetric(_))),
            *self matches AggregationResult::Metrics(MetricsAggregationResult::ScriptedMetric(x)) ==> (r matches Ok(y) && *y == x),
            r is Err ==> is_error(r->Err_0, "Wrong type"@),
    {
        match self {
            AggregationResult::Metrics(MetricsAggregationResult::ScriptedMetric(res)) => Ok(res),
            _ => Err(EsError::EsError("Wrong type".to_owned())),
        }
    }
}

} // verus!
