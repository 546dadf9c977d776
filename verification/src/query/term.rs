//! Specific Term level queries

use vstd::prelude::*;

use crate::json::{
    entries_view, int_text, int_to_string, list_json, list_v, object, one_entry, opt_entry, opt_v,
    push_entry, push_field, str_json, Decimal, FieldBased, Json, JsonV, NoOuter,
    ToJson,
};
use crate::units::{JsonVal, OneOrMany};
use super::{FlagName, Flags, Fuzziness, Query};

verus! {

/// Values of the rewrite option used by multi-term queries
#[derive(Debug, Clone, Copy, PartialEq, Eq)]
pub enum Rewrite {
    ConstantScoreAuto,
    ScoringBoolean,
    ConstantScoreBoolean,
    ConstantScoreFilter,
    TopTerms(i64),
    TopTermsBoost(i64),
    TopTermsBlendedFreqs(i64),
}

impl Rewrite {
    pub open spec fn text(self) -> Seq<char> {
        match self {
            Rewrite::ConstantScoreAuto => "constant_score_auto"@,
            Rewrite::ScoringBoolean => "scoring_boolean"@,
            Rewrite::ConstantScoreBoolean => "constant_score_boolean"@,
            Rewrite::ConstantScoreFilter => "constant_score_filter"@,
            Rewrite::TopTerms(n) => "top_terms_"@ + int_text(n as int),
            Rewrite::TopTermsBoost(n) => "top_terms_boost_"@ + int_text(n as int),
            Rewrite::TopTermsBlendedFreqs(n) => "top_terms_blended_freqs_"@ + int_text(n as int),
        }
    }

    pub fn to_string(&self) -> (r: String)
        ensures
            r@ == self.text(),
    {
        match self {
            Rewrite::ConstantScoreAuto => "constant_score_auto".to_owned(),
            Rewrite::ScoringBoolean => "scoring_boolean".to_owned(),
            Rewrite::ConstantScoreBoolean => "constant_score_boolean".to_owned(),
            Rewrite::ConstantScoreFilter => "constant_score_filter".to_owned(),
            Rewrite::TopTerms(n) => {
                let mut s = "top_terms_".to_owned();
                s.append(int_to_string(*n).as_str());
                s
            },
            Rewrite::TopTermsBoost(n) => {
                let mut s = "top_terms_boost_".to_owned();
                s.append(int_to_string(*n).as_str());
                s
            },
            Rewrite::TopTermsBlendedFreqs(n) => {
                let mut s = "top_terms_blended_freqs_".to_owned();
                s.append(int_to_string(*n).as_str());
                s
            },
        }
    }
}

impl ToJson for Rewrite {
    open spec fn json_v(&self) -> JsonV {
        JsonV::Str(self.text())
    }

    fn to_json(&self) -> (r: Json) {
        Json::Str(self.to_string())
    }
}

/// Term query
#[derive(Debug)]
pub struct TermQueryInner {
    pub value: JsonVal,
    pub boost: Option<Decimal>,
}

impl ToJson for TermQueryInner {
    open spec fn json_v(&self) -> JsonV {
        JsonV::Object(
            one_entry("value"@, self.value.json_v())
            + opt_entry("boost"@, opt_v(self.boost))
        )
    }

    fn to_json(&self) -> (r: Json) {
        let mut e: Vec<(String, Json)> = Vec::new();
        push_entry(&mut e, "value", self.value.to_json());
        push_field(&mut e, "boost", &self.boost);
        assert(entries_view(e@) =~= self.json_v()->Object_0);
        object(e)
    }
}

#[derive(Debug)]
pub struct TermQuery(pub FieldBased<String, TermQueryInner, NoOuter>);

impl TermQuery {
    pub fn with_boost(self, val: Decimal) -> (r: Self)
        ensures
            r.0.inner == (TermQueryInner { boost: Some(val), ..self.0.inner }),
            r.0.field == self.0.field,
            r.0.outer == self.0.outer,
    {
        let mut s = self;
        s.0.inner.boost = Some(val);
        s
    }

}

impl ToJson for TermQuery {
    open spec fn json_v(&self) -> JsonV {
        self.0.json_v()
    }

    fn to_json(&self) -> (r: Json) {
        self.0.to_json()
    }
}
impl TermQuery {
    pub fn build(self) -> (r: Query)
        ensures
            r == Query::Term(Box::new(self)),
    {
        Query::Term(Box::new(self))
    }
}

impl Query {
    pub fn build_term(field: &str, value: JsonVal) -> (r: TermQuery)
        ensures
            r.0.field@ == field@,
            r.0.inner == (TermQueryInner { value: value, boost: None }),
    {
        TermQuery(FieldBased::new(field.to_owned(), TermQueryInner { value: value, boost: None }, NoOuter))
    }
}

/// Terms Query Lookup
#[derive(Debug)]
pub struct TermsQueryLookup {
    pub id: JsonVal,
    pub index: Option<String>,
    pub doc_type: Option<String>,
    pub path: String,
    pub routing: Option<String>,
}

impl ToJson for TermsQueryLookup {
    open spec fn json_v(&self) -> JsonV {
        JsonV::Object(
            one_entry("id"@, self.id.json_v())
            + opt_entry("index"@, opt_v(self.index))
            + opt_entry("doc_type"@, opt_v(self.doc_type))
            + one_entry("path"@, self.path.json_v())
            + opt_entry("routing"@, opt_v(self.routing))
        )
    }

    fn to_json(&self) -> (r: Json) {
        let mut e: Vec<(String, Json)> = Vec::new();
        push_entry(&mut e, "id", self.id.to_json());
        push_field(&mut e, "index", &self.index);
        push_field(&mut e, "doc_type", &self.doc_type);
        push_entry(&mut e, "path", self.path.to_json());
        push_field(&mut e, "routing", &self.routing);
        assert(entries_view(e@) =~= self.json_v()->Object_0);
        object(e)
    }
}

impl TermsQueryLookup {
    pub fn new(id: JsonVal, path: &str) -> (r: TermsQueryLookup)
        ensures
            r == (TermsQueryLookup { id: id, index: None, doc_type: None, path: r.path, routing: None }),
            r.path@ == path@,
    {
        TermsQueryLookup { id: id, index: None, doc_type: None, path: path.to_owned(), routing: None }
    }
    pub fn with_index(self, val: &str) -> (r: Self)
        ensures
            r.index is Some,
            r.index.unwrap()@ == val@,
            r == (TermsQueryLookup { index: r.index, ..self }),
    {
        let mut s = self;
        s.index = Some(val.to_owned());
        s
    }

    pub fn with_type(self, val: &str) -> (r: Self)
        ensures
            r.doc_type is Some,
            r.doc_type.unwrap()@ == val@,
            r == (TermsQueryLookup { doc_type: r.doc_type, ..self }),
    {
        let mut s = self;
        s.doc_type = Some(val.to_owned());
        s
    }

    pub fn with_routing(self, val: &str) -> (r: Self)
        ensures
            r.routing is Some,
            r.routing.unwrap()@ == val@,
            r == (TermsQueryLookup { routing: r.routing, ..self }),
    {
        let mut s = self;
        s.routing = Some(val.to_owned());
        s
    }
}

/// TermsQueryIn
#[derive(Debug)]
pub enum TermsQueryIn {
    /// A `Vec` of values
    Values(Vec<JsonVal>),
    /// An indirect reference to another document
    Lookup(TermsQueryLookup),
}

impl TermsQueryIn {
    /// No values.
    pub fn default() -> (r: TermsQueryIn)
        ensures
            r matches TermsQueryIn::Values(v) && v@.len() == 0,
    {
        TermsQueryIn::Values(Vec::new())
    }

    /// The given strings as values.
    pub fn from_strs(values: &[&str]) -> (r: TermsQueryIn)
        ensures
            r matches TermsQueryIn::Values(v) && v@.len() == values@.len()
                && forall|i: int| 0 <= i < values@.len() ==> (#[trigger] v@[i]).view_v() == JsonV::Str(values@[i]@),
    {
        let mut v: Vec<JsonVal> = Vec::new();
        let mut i: usize = 0;
        while i < values.len()
            invariant
                i <= values@.len(),
                v@.len() == i,
                forall|k: int| 0 <= k < i ==> (#[trigger] v@[k]).view_v() == JsonV::Str(values@[k]@),
            decreases values.len() - i,
        {
            v.push(JsonVal::from_str(values[i]));
            i = i + 1;
        }
        TermsQueryIn::Values(v)
    }
}

impl ToJson for TermsQueryIn {
    open spec fn json_v(&self) -> JsonV {
        match self {
            TermsQueryIn::Values(v) => list_v(v@),
            TermsQueryIn::Lookup(l) => l.json_v(),
        }
    }

    fn to_json(&self) -> (r: Json) {
        match self {
            TermsQueryIn::Values(v) => list_json(v),
            TermsQueryIn::Lookup(l) => l.to_json(),
        }
    }
}

/// Terms Query
#[derive(Debug)]
pub struct TermsQuery(pub FieldBased<String, TermsQueryIn, NoOuter>);

impl ToJson for TermsQuery {
    open spec fn json_v(&self) -> JsonV {
        self.0.json_v()
    }

    fn to_json(&self) -> (r: Json) {
        self.0.to_json()
    }
}

impl TermsQuery {
    pub fn with_values(self, values: TermsQueryIn) -> (r: Self)
        ensures
            r.0.inner == values,
            r.0.field == self.0.field,
    {
        let mut s = self;
        s.0.inner = values;
        s
    }
}

impl Query {
    pub fn build_terms(field: &str) -> (r: TermsQuery)
        ensures
            r.0.field@ == field@,
            r.0.inner matches TermsQueryIn::Values(v) && v@.len() == 0,
    {
        TermsQuery(FieldBased::new(field.to_owned(), TermsQueryIn::default(), NoOuter))
    }
}

impl TermsQuery {
    pub fn build(self) -> (r: Query)
        ensures
            r == Query::Terms(Box::new(self)),
    {
        Query::Terms(Box::new(self))
    }
}

/// Range query
#[derive(Debug)]
pub struct RangeQueryInner {
    pub gte: Option<JsonVal>,
    pub gt: Option<JsonVal>,
    pub lte: Option<JsonVal>,
    pub lt: Option<JsonVal>,
    pub boost: Option<Decimal>,
    pub time_zone: Option<String>,
    pub format: Option<String>,
}

impl ToJson for RangeQueryInner {
    open spec fn json_v(&self) -> JsonV {
        JsonV::Object(
            opt_entry("gte"@, opt_v(self.gte))
            + opt_entry("gt"@, opt_v(self.gt))
            + opt_entry("lte"@, opt_v(self.lte))
            + opt_entry("lt"@, opt_v(self.lt))
            + opt_entry("boost"@, opt_v(self.boost))
            + opt_entry("time_zone"@, opt_v(self.time_zone))
            + opt_entry("format"@, opt_v(self.format))
        )
    }

    fn to_json(&self) -> (r: Json) {
        let mut e: Vec<(String, Json)> = Vec::new();
        push_field(&mut e, "gte", &self.gte);
        push_field(&mut e, "gt", &self.gt);
        push_field(&mut e, "lte", &self.lte);
        push_field(&mut e, "lt", &self.lt);
        push_field(&mut e, "boost", &self.boost);
        push_field(&mut e, "time_zone", &self.time_zone);
        push_field(&mut e, "format", &self.format);
        assert(entries_view(e@) =~= self.json_v()->Object_0);
        object(e)
    }
}

#[derive(Debug)]
pub struct RangeQuery(pub FieldBased<String, RangeQueryInner, NoOuter>);

impl RangeQuery {
    pub fn with_gte(self, val: JsonVal) -> (r: Self)
        ensures
            r.0.inner == (RangeQueryInner { gte: Some(val), ..self.0.inner }),
            r.0.field == self.0.field,
            r.0.outer == self.0.outer,
    {
        let mut s = self;
        s.0.inner.gte = Some(val);
        s
    }

    pub fn with_gt(self, val: JsonVal) -> (r: Self)
        ensures
            r.0.inner == (RangeQueryInner { gt: Some(val), ..self.0.inner }),
            r.0.field == self.0.field,
            r.0.outer == self.0.outer,
    {
        let mut s = self;
        s.0.inner.gt = Some(val);
        s
    }

    pub fn with_lte(self, val: JsonVal) -> (r: Self)
        ensures
            r.0.inner == (RangeQueryInner { lte: Some(val), ..self.0.inner }),
            r.0.field == self.0.field,
            r.0.outer == self.0.outer,
    {
        let mut s = self;
        s.0.inner.lte = Some(val);
        s
    }

    pub fn with_lt(self, val: JsonVal) -> (r: Self)
        ensures
            r.0.inner == (RangeQueryInner { lt: Some(val), ..self.0.inner }),
            r.0.field == self.0.field,
            r.0.outer == self.0.outer,
    {
        let mut s = self;
        s.0.inner.lt = Some(val);
        s
    }

    pub fn with_boost(self, val: Decimal) -> (r: Self)
        ensures
            r.0.inner == (RangeQueryInner { boost: Some(val), ..self.0.inner }),
            r.0.field == self.0.field,
            r.0.outer == self.0.outer,
    {
        let mut s = self;
        s.0.inner.boost = Some(val);
        s
    }

    pub fn with_time_zone(self, val: &str) -> (r: Self)
        ensures
            r.0.inner.time_zone is Some,
            r.0.inner.time_zone.unwrap()@ == val@,
            r.0.inner == (RangeQueryInner { time_zone: r.0.inner.time_zone, ..self.0.inner }),
            r.0.field == self.0.field,
            r.0.outer == self.0.outer,
    {
        let mut s = self;
        s.0.inner.time_zone = Some(val.to_owned());
        s
    }

    pub fn with_format(self, val: &str) -> (r: Self)
        ensures
            r.0.inner.format is Some,
            r.0.inner.format.unwrap()@ == val@,
            r.0.inner == (RangeQueryInner { format: r.0.inner.format, ..self.0.inner }),
            r.0.field == self.0.field,
            r.0.outer == self.0.outer,
    {
        let mut s = self;
        s.0.inner.format = Some(val.to_owned());
        s
    }

}

impl ToJson for RangeQuery {
    open spec fn json_v(&self) -> JsonV {
        self.0.json_v()
    }

    fn to_json(&self) -> (r: Json) {
        self.0.to_json()
    }
}
impl RangeQuery {
    pub fn build(self) -> (r: Query)
        ensures
            r == Query::Range(Box::new(self)),
    {
        Query::Range(Box::new(self))
    }
}

impl Query {
    pub fn build_range(field: &str) -> (r: RangeQuery)
        ensures
            r.0.field@ == field@,
            r.0.inner == (RangeQueryInner { gte: None, gt: None, lte: None, lt: None, boost: None, time_zone: None, format: None }),
    {
        RangeQuery(FieldBased::new(field.to_owned(), RangeQueryInner { gte: None, gt: None, lte: None, lt: None, boost: None, time_zone: None, format: None }, NoOuter))
    }
}

/// Exists query
#[derive(Debug)]
pub struct ExistsQuery {
    pub field: String,
}

impl ToJson for ExistsQuery {
    open spec fn json_v(&self) -> JsonV {
        JsonV::Object(
            one_entry("field"@, self.field.json_v())
        )
    }

    fn to_json(&self) -> (r: Json) {
        let mut e: Vec<(String, Json)> = Vec::new();
        push_entry(&mut e, "field", self.field.to_json());
        assert(entries_view(e@) =~= self.json_v()->Object_0);
        object(e)
    }
}

impl ExistsQuery {
    pub fn build(self) -> (r: Query)
        ensures
            r == Query::Exists(Box::new(self)),
    {
        Query::Exists(Box::new(self))
    }
}

impl Query {
    pub fn build_exists(field: &str) -> (r: ExistsQuery)
        ensures
            r.field@ == field@,
    {
        ExistsQuery { field: field.to_owned() }
    }
}

/// Prefix query: `{field: {boost, rewrite, value}}`, the inner keys in sorted order
#[derive(Debug)]
pub struct PrefixQueryInner {
    pub boost: Option<Decimal>,
    pub rewrite: Option<Rewrite>,
    pub value: String,
}

impl ToJson for PrefixQueryInner {
    open spec fn json_v(&self) -> JsonV {
        JsonV::Object(
            opt_entry("boost"@, opt_v(self.boost))
            + opt_entry("rewrite"@, opt_v(self.rewrite))
            + one_entry("value"@, self.value.json_v())
        )
    }

    fn to_json(&self) -> (r: Json) {
        let mut e: Vec<(String, Json)> = Vec::new();
        push_field(&mut e, "boost", &self.boost);
        push_field(&mut e, "rewrite", &self.rewrite);
        push_entry(&mut e, "value", self.value.to_json());
        assert(entries_view(e@) =~= self.json_v()->Object_0);
        object(e)
    }
}

#[derive(Debug)]
pub struct PrefixQuery(pub FieldBased<String, PrefixQueryInner, NoOuter>);

impl PrefixQuery {
    pub fn with_boost(self, val: Decimal) -> (r: Self)
        ensures
            r.0.inner == (PrefixQueryInner { boost: Some(val), ..self.0.inner }),
            r.0.field == self.0.field,
            r.0.outer == self.0.outer,
    {
        let mut s = self;
        s.0.inner.boost = Some(val);
        s
    }

    pub fn with_rewrite(self, val: Rewrite) -> (r: Self)
        ensures
            r.0.inner == (PrefixQueryInner { rewrite: Some(val), ..self.0.inner }),
            r.0.field == self.0.field,
            r.0.outer == self.0.outer,
    {
        let mut s = self;
        s.0.inner.rewrite = Some(val);
        s
    }

}

impl ToJson for PrefixQuery {
    open spec fn json_v(&self) -> JsonV {
        self.0.json_v()
    }

    fn to_json(&self) -> (r: Json) {
        self.0.to_json()
    }
}
impl PrefixQuery {
    pub fn build(self) -> (r: Query)
        ensures
            r == Query::Prefix(Box::new(self)),
    {
        Query::Prefix(Box::new(self))
    }
}

impl Query {
    pub fn build_prefix(field: &str, value: &str) -> (r: PrefixQuery)
        ensures
            r.0.field@ == field@,
            r.0.inner == (PrefixQueryInner { boost: None, rewrite: None, value: r.0.inner.value }),
            r.0.inner.value@ == value@,
    {
        PrefixQuery(FieldBased::new(field.to_owned(), PrefixQueryInner { boost: None, rewrite: None, value: value.to_owned() }, NoOuter))
    }
}

/// Wildcard query: `{field: {boost, rewrite, value}}`, the inner keys in sorted order
#[derive(Debug)]
pub struct WildcardQueryInner {
    pub boost: Option<Decimal>,
    pub rewrite: Option<Rewrite>,
    pub value: String,
}

impl ToJson for WildcardQueryInner {
    open spec fn json_v(&self) -> JsonV {
        JsonV::Object(
            opt_entry("boost"@, opt_v(self.boost))
            + opt_entry("rewrite"@, opt_v(self.rewrite))
            + one_entry("value"@, self.value.json_v())
        )
    }

    fn to_json(&self) -> (r: Json) {
        let mut e: Vec<(String, Json)> = Vec::new();
        push_field(&mut e, "boost", &self.boost);
        push_field(&mut e, "rewrite", &self.rewrite);
        push_entry(&mut e, "value", self.value.to_json());
        assert(entries_view(e@) =~= self.json_v()->Object_0);
        object(e)
    }
}

#[derive(Debug)]
pub struct WildcardQuery(pub FieldBased<String, WildcardQueryInner, NoOuter>);

impl WildcardQuery {
    pub fn with_boost(self, val: Decimal) -> (r: Self)
        ensures
            r.0.inner == (WildcardQueryInner { boost: Some(val), ..self.0.inner }),
            r.0.field == self.0.field,
            r.0.outer == self.0.outer,
    {
        let mut s = self;
        s.0.inner.boost = Some(val);
        s
    }

    pub fn with_rewrite(self, val: Rewrite) -> (r: Self)
        ensures
            r.0.inner == (WildcardQueryInner { rewrite: Some(val), ..self.0.inner }),
            r.0.field == self.0.field,
            r.0.outer == self.0.outer,
    {
        let mut s = self;
        s.0.inner.rewrite = Some(val);
        s
    }

}

impl ToJson for WildcardQuery {
    open spec fn json_v(&self) -> JsonV {
        self.0.json_v()
    }

    fn to_json(&self) -> (r: Json) {
        self.0.to_json()
    }
}
impl WildcardQuery {
    pub fn build(self) -> (r: Query)
        ensures
            r == Query::Wildcard(Box::new(self)),
    {
        Query::Wildcard(Box::new(self))
    }
}

impl Query {
    pub fn build_wildcard(field: &str, value: &str) -> (r: WildcardQuery)
        ensures
            r.0.field@ == field@,
            r.0.inner == (WildcardQueryInner { boost: None, rewrite: None, value: r.0.inner.value }),
            r.0.inner.value@ == value@,
    {
        WildcardQuery(FieldBased::new(field.to_owned(), WildcardQueryInner { boost: None, rewrite: None, value: value.to_owned() }, NoOuter))
    }
}

/// Flags for the Regexp query
#[derive(Debug, Clone, Copy, PartialEq, Eq)]
pub enum RegexpQueryFlags {
    All,
    Anystring,
    Complement,
    Empty,
    Intersection,
    Interval,
    Nothing,
}

/// Law: each value is written by its ElasticSearch name (`ALL`, `ANYSTRING`, `COMPLEMENT`,
/// `EMPTY`, `INTERSECTION`, `INTERVAL`, `NONE`, in the order of the variants), and different
/// values are written differently.
pub proof fn lemma_regexp_query_flags_names(x: RegexpQueryFlags)
    ensures
        x is All ==> x.text() == "ALL"@,
        x is Anystring ==> x.text() == "ANYSTRING"@,
        x is Complement ==> x.text() == "COMPLEMENT"@,
        x is Empty ==> x.text() == "EMPTY"@,
        x is Intersection ==> x.text() == "INTERSECTION"@,
        x is Interval ==> x.text() == "INTERVAL"@,
        x is Nothing ==> x.text() == "NONE"@,
        forall|a: RegexpQueryFlags, b: RegexpQueryFlags| a != b ==> #[trigger] a.text() != #[trigger] b.text(),
{
    reveal_strlit("ALL");
    assert("ALL"@.len() == 3 && "ALL"@[0] == 'A' && "ALL"@[1] == 'L' && "ALL"@[2] == 'L');
    reveal_strlit("ANYSTRING");
    assert("ANYSTRING"@.len() == 9 && "ANYSTRING"@[0] == 'A' && "ANYSTRING"@[1] == 'N' && "ANYSTRING"@[2] == 'Y' && "ANYSTRING"@[3] == 'S' && "ANYSTRING"@[4] == 'T' && "ANYSTRING"@[5] == 'R' && "ANYSTRING"@[6] == 'I' && "ANYSTRING"@[7] == 'N' && "ANYSTRING"@[8] == 'G');
    reveal_strlit("COMPLEMENT");
    assert("COMPLEMENT"@.len() == 10 && "COMPLEMENT"@[0] == 'C' && "COMPLEMENT"@[1] == 'O' && "COMPLEMENT"@[2] == 'M' && "COMPLEMENT"@[3] == 'P' && "COMPLEMENT"@[4] == 'L' && "COMPLEMENT"@[5] == 'E' && "COMPLEMENT"@[6] == 'M' && "COMPLEMENT"@[7] == 'E' && "COMPLEMENT"@[8] == 'N' && "COMPLEMENT"@[9] == 'T');
    reveal_strlit("EMPTY");
    assert("EMPTY"@.len() == 5 && "EMPTY"@[0] == 'E' && "EMPTY"@[1] == 'M' && "EMPTY"@[2] == 'P' && "EMPTY"@[3] == 'T' && "EMPTY"@[4] == 'Y');
    reveal_strlit("INTERSECTION");
    assert("INTERSECTION"@.len() == 12 && "INTERSECTION"@[0] == 'I' && "INTERSECTION"@[1] == 'N' && "INTERSECTION"@[2] == 'T' && "INTERSECTION"@[3] == 'E' && "INTERSECTION"@[4] == 'R' && "INTERSECTION"@[5] == 'S' && "INTERSECTION"@[6] == 'E' && "INTERSECTION"@[7] == 'C' && "INTERSECTION"@[8] == 'T' && "INTERSECTION"@[9] == 'I' && "INTERSECTION"@[10] == 'O' && "INTERSECTION"@[11] == 'N');
    reveal_strlit("INTERVAL");
    assert("INTERVAL"@.len() == 8 && "INTERVAL"@[0] == 'I' && "INTERVAL"@[1] == 'N' && "INTERVAL"@[2] == 'T' && "INTERVAL"@[3] == 'E' && "INTERVAL"@[4] == 'R' && "INTERVAL"@[5] == 'V' && "INTERVAL"@[6] == 'A' && "INTERVAL"@[7] == 'L');
    reveal_strlit("NONE");
    assert("NONE"@.len() == 4 && "NONE"@[0] == 'N' && "NONE"@[1] == 'O' && "NONE"@[2] == 'N' && "NONE"@[3] == 'E');
}

impl RegexpQueryFlags {
    /// The name written for this value.
    pub open spec fn text(self) -> Seq<char> {
        match self {
            RegexpQueryFlags::All => "ALL"@,
            RegexpQueryFlags::Anystring => "ANYSTRING"@,
            RegexpQueryFlags::Complement => "COMPLEMENT"@,
            RegexpQueryFlags::Empty => "EMPTY"@,
            RegexpQueryFlags::Intersection => "INTERSECTION"@,
            RegexpQueryFlags::Interval => "INTERVAL"@,
            RegexpQueryFlags::Nothing => "NONE"@,
        }
    }

    pub fn as_str(&self) -> (r: &'static str)
        ensures
            r@ == self.text(),
    {
        match self {
            RegexpQueryFlags::All => "ALL",
            RegexpQueryFlags::Anystring => "ANYSTRING",
            RegexpQueryFlags::Complement => "COMPLEMENT",
            RegexpQueryFlags::Empty => "EMPTY",
            RegexpQueryFlags::Intersection => "INTERSECTION",
            RegexpQueryFlags::Interval => "INTERVAL",
            RegexpQueryFlags::Nothing => "NONE",
        }
    }
}

impl ToJson for RegexpQueryFlags {
    open spec fn json_v(&self) -> JsonV {
        JsonV::Str(self.text())
    }

    fn to_json(&self) -> (r: Json) {
        str_json(self.as_str())
    }
}

impl FlagName for RegexpQueryFlags {
    open spec fn name_v(&self) -> Seq<char> {
        self.text()
    }

    fn name(&self) -> (r: &'static str) {
        self.as_str()
    }
}

/// Regexp query, inner keys in sorted order
#[derive(Debug)]
pub struct RegexpQueryInner {
    pub boost: Option<Decimal>,
    pub flags: Option<Flags<RegexpQueryFlags>>,
    pub max_determined_states: Option<u64>,
    pub value: String,
}

impl ToJson for RegexpQueryInner {
    open spec fn json_v(&self) -> JsonV {
        JsonV::Object(
            opt_entry("boost"@, opt_v(self.boost))
            + opt_entry("flags"@, opt_v(self.flags))
            + opt_entry("max_determined_states"@, opt_v(self.max_determined_states))
            + one_entry("value"@, self.value.json_v())
        )
    }

    fn to_json(&self) -> (r: Json) {
        let mut e: Vec<(String, Json)> = Vec::new();
        push_field(&mut e, "boost", &self.boost);
        push_field(&mut e, "flags", &self.flags);
        push_field(&mut e, "max_determined_states", &self.max_determined_states);
        push_entry(&mut e, "value", self.value.to_json());
        assert(entries_view(e@) =~= self.json_v()->Object_0);
        object(e)
    }
}

#[derive(Debug)]
pub struct RegexpQuery(pub FieldBased<String, RegexpQueryInner, NoOuter>);

impl RegexpQuery {
    pub fn with_boost(self, val: Decimal) -> (r: Self)
        ensures
            r.0.inner == (RegexpQueryInner { boost: Some(val), ..self.0.inner }),
            r.0.field == self.0.field,
            r.0.outer == self.0.outer,
    {
        let mut s = self;
        s.0.inner.boost = Some(val);
        s
    }

    pub fn with_flags(self, val: Flags<RegexpQueryFlags>) -> (r: Self)
        ensures
            r.0.inner == (RegexpQueryInner { flags: Some(val), ..self.0.inner }),
            r.0.field == self.0.field,
            r.0.outer == self.0.outer,
    {
        let mut s = self;
        s.0.inner.flags = Some(val);
        s
    }

    pub fn with_max_determined_states(self, val: u64) -> (r: Self)
        ensures
            r.0.inner == (RegexpQueryInner { max_determined_states: Some(val), ..self.0.inner }),
            r.0.field == self.0.field,
            r.0.outer == self.0.outer,
    {
        let mut s = self;
        s.0.inner.max_determined_states = Some(val);
        s
    }

}

impl ToJson for RegexpQuery {
    open spec fn json_v(&self) -> JsonV {
        self.0.json_v()
    }

    fn to_json(&self) -> (r: Json) {
        self.0.to_json()
    }
}
impl RegexpQuery {
    pub fn build(self) -> (r: Query)
        ensures
            r == Query::Regexp(Box::new(self)),
    {
        Query::Regexp(Box::new(self))
    }
}

impl Query {
    /// A regexp query.
    pub fn build_query(field: &str, value: &str) -> (r: RegexpQuery)
        ensures
            r.0.field@ == field@,
            r.0.inner == (RegexpQueryInner { boost: None, flags: None, max_determined_states: None, value: r.0.inner.value }),
            r.0.inner.value@ == value@,
    {
        RegexpQuery(FieldBased::new(field.to_owned(), RegexpQueryInner { boost: None, flags: None, max_determined_states: None, value: value.to_owned() }, NoOuter))
    }
}

/// Fuzzy query, inner keys in sorted order
#[derive(Debug)]
pub struct FuzzyQueryInner {
    pub boost: Option<Decimal>,
    pub fuzziness: Option<Fuzziness>,
    pub max_expansions: Option<u64>,
    pub prefix_length: Option<u64>,
    pub value: String,
}

impl ToJson for FuzzyQueryInner {
    open spec fn json_v(&self) -> JsonV {
        JsonV::Object(
            opt_entry("boost"@, opt_v(self.boost))
            + opt_entry("fuzziness"@, opt_v(self.fuzziness))
            + opt_entry("max_expansions"@, opt_v(self.max_expansions))
            + opt_entry("prefix_length"@, opt_v(self.prefix_length))
            + one_entry("value"@, self.value.json_v())
        )
    }

    fn to_json(&self) -> (r: Json) {
        let mut e: Vec<(String, Json)> = Vec::new();
        push_field(&mut e, "boost", &self.boost);
        push_field(&mut e, "fuzziness", &self.fuzziness);
        push_field(&mut e, "max_expansions", &self.max_expansions);
        push_field(&mut e, "prefix_length", &self.prefix_length);
        push_entry(&mut e, "value", self.value.to_json());
        assert(entries_view(e@) =~= self.json_v()->Object_0);
        object(e)
    }
}

#[derive(Debug)]
pub struct FuzzyQuery(pub FieldBased<String, FuzzyQueryInner, NoOuter>);

impl FuzzyQuery {
    pub fn with_boost(self, val: Decimal) -> (r: Self)
        ensures
            r.0.inner == (FuzzyQueryInner { boost: Some(val), ..self.0.inner }),
            r.0.field == self.0.field,
            r.0.outer == self.0.outer,
    {
        let mut s = self;
        s.0.inner.boost = Some(val);
        s
    }

    pub fn with_fuzziness(self, val: Fuzziness) -> (r: Self)
        ensures
            r.0.inner == (FuzzyQueryInner { fuzziness: Some(val), ..self.0.inner }),
            r.0.field == self.0.field,
            r.0.outer == self.0.outer,
    {
        let mut s = self;
        s.0.inner.fuzziness = Some(val);
        s
    }

    pub fn with_max_expansions(self, val: u64) -> (r: Self)
        ensures
            r.0.inner == (FuzzyQueryInner { max_expansions: Some(val), ..self.0.inner }),
            r.0.field == self.0.field,
            r.0.outer == self.0.outer,
    {
        let mut s = self;
        s.0.inner.max_expansions = Some(val);
        s
    }

    pub fn with_prefix_length(self, val: u64) -> (r: Self)
        ensures
            r.0.inner == (FuzzyQueryInner { prefix_length: Some(val), ..self.0.inner }),
            r.0.field == self.0.field,
            r.0.outer == self.0.outer,
    {
        let mut s = self;
        s.0.inner.prefix_length = Some(val);
        s
    }

}

impl ToJson for FuzzyQuery {
    open spec fn json_v(&self) -> JsonV {
        self.0.json_v()
    }

    fn to_json(&self) -> (r: Json) {
        self.0.to_json()
    }
}
impl FuzzyQuery {
    pub fn build(self) -> (r: Query)
        ensures
            r == Query::Fuzzy(Box::new(self)),
    {
        Query::Fuzzy(Box::new(self))
    }
}

impl Query {
    pub fn build_fuzzy(field: &str, value: &str) -> (r: FuzzyQuery)
        ensures
            r.0.field@ == field@,
            r.0.inner == (FuzzyQueryInner { boost: None, fuzziness: None, max_expansions: None, prefix_length: None, value: r.0.inner.value }),
            r.0.inner.value@ == value@,
    {
        FuzzyQuery(FieldBased::new(field.to_owned(), FuzzyQueryInner { boost: None, fuzziness: None, max_expansions: None, prefix_length: None, value: value.to_owned() }, NoOuter))
    }
}

/// Type query
#[derive(Debug)]
pub struct TypeQuery {
    pub value: String,
}

impl ToJson for TypeQuery {
    open spec fn json_v(&self) -> JsonV {
        JsonV::Object(
            one_entry("value"@, self.value.json_v())
        )
    }

    fn to_json(&self) -> (r: Json) {
        let mut e: Vec<(String, Json)> = Vec::new();
        push_entry(&mut e, "value", self.value.to_json());
        assert(entries_view(e@) =~= self.json_v()->Object_0);
        object(e)
    }
}

impl TypeQuery {
    pub fn build(self) -> (r: Query)
        ensures
            r == Query::Type(Box::new(self)),
    {
        Query::Type(Box::new(self))
    }
}

impl Query {
    pub fn build_type(value: &str) -> (r: TypeQuery)
        ensures
            r.value@ == value@,
    {
        TypeQuery { value: value.to_owned() }
    }
}

/// Ids query
#[derive(Debug)]
pub struct IdsQuery {
    pub doc_type: Option<OneOrMany<String>>,
    pub values: Vec<JsonVal>,
}

impl ToJson for IdsQuery {
    open spec fn json_v(&self) -> JsonV {
        JsonV::Object(
            opt_entry("type"@, opt_v(self.doc_type))
            + one_entry("values"@, self.values.json_v())
        )
    }

    fn to_json(&self) -> (r: Json) {
        let mut e: Vec<(String, Json)> = Vec::new();
        push_field(&mut e, "type", &self.doc_type);
        push_entry(&mut e, "values", self.values.to_json());
        assert(entries_view(e@) =~= self.json_v()->Object_0);
        object(e)
    }
}

impl IdsQuery {
    pub fn with_type(self, val: OneOrMany<String>) -> (r: Self)
        ensures
            r == (IdsQuery { doc_type: Some(val), ..self }),
    {
        let mut s = self;
        s.doc_type = Some(val);
        s
    }
}

impl IdsQuery {
    pub fn build(self) -> (r: Query)
        ensures
            r == Query::Ids(Box::new(self)),
    {
        Query::Ids(Box::new(self))
    }
}

impl Query {
    pub fn build_ids(values: Vec<JsonVal>) -> (r: IdsQuery)
        ensures
            r.values == values,
            r.doc_type is None,
    {
        IdsQuery { doc_type: None, values }
    }
}

} // verus!
