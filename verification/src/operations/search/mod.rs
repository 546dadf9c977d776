//! Implementations of both Search-by-URI and Search-by-Query operations

use vstd::prelude::*;

pub mod aggregations;
pub mod count;
pub mod highlight;

use crate::error::EsError;
use crate::json::{
    entries_view, jv, list_json, list_v, object, one_entry, opt_entry, opt_v, push_entry, push_entry_owned,
    push_field, seq_join, str_json, to_json_string, json_text, Decimal, FieldBased, Json, JsonV, KeyedMap,
    NoOuter, ToJson, inclusion_key, inclusion_key_string, map_insert,
};
use crate::query::{query_json, query_v, Query};
use crate::units::{DistanceType, DistanceUnit, Duration, JsonVal, Location, OneOrMany};
use crate::util::{lemma_str_join_single_char, StrJoin};
use super::common::{options_text, OptionVal, Options, ToOptionVal};
use super::get::comma_list;
use super::{format_indexes_and_types, indexes_and_types_text, names_v, Method, Request};
use self::aggregations::{aggs_json, aggs_v, Aggregations};
use self::highlight::Highlight;

verus! {

/// Options for the various search_type parameters
#[derive(Debug, Clone, Copy, PartialEq, Eq)]
pub enum SearchType {
    DFSQueryThenFetch,
    DFSQueryAndFetch,
    QueryThenFetch,
    QueryAndFetch,
}

impl SearchType {
    /// The name written for this value.
    pub open spec fn text(self) -> Seq<char> {
        match self {
            SearchType::DFSQueryThenFetch => "dfs_query_then_fetch"@,
            SearchType::DFSQueryAndFetch => "dfs_query_and_fetch"@,
            SearchType::QueryThenFetch => "query_then_fetch"@,
            SearchType::QueryAndFetch => "query_and_fetch"@,
        }
    }

    pub fn to_string(&self) -> (r: String)
        ensures
            r@ == self.text(),
    {
        match self {
            SearchType::DFSQueryThenFetch => "dfs_query_then_fetch".to_owned(),
            SearchType::DFSQueryAndFetch => "dfs_query_and_fetch".to_owned(),
            SearchType::QueryThenFetch => "query_then_fetch".to_owned(),
            SearchType::QueryAndFetch => "query_and_fetch".to_owned(),
        }
    }
}

/// Law: the `search_type` option of each search type is its ElasticSearch
/// name (`dfs_query_then_fetch`, `dfs_query_and_fetch`, `query_then_fetch`,
/// `query_and_fetch`), and different search types are written differently.
pub proof fn lemma_search_type_names(st: SearchType)
    ensures
        st == SearchType::DFSQueryThenFetch ==> st.option_text() == "dfs_query_then_fetch"@,
        st == SearchType::DFSQueryAndFetch ==> st.option_text() == "dfs_query_and_fetch"@,
        st == SearchType::QueryThenFetch ==> st.option_text() == "query_then_fetch"@,
        st == SearchType::QueryAndFetch ==> st.option_text() == "query_and_fetch"@,
        forall|a: SearchType, b: SearchType| a != b ==> #[trigger] a.option_text() != #[trigger] b.option_text(),
{
    reveal_strlit("dfs_query_then_fetch");
    reveal_strlit("dfs_query_and_fetch");
    reveal_strlit("query_then_fetch");
    reveal_strlit("query_and_fetch");
    assert("dfs_query_then_fetch"@.len() == 20 && "dfs_query_and_fetch"@.len() == 19);
    assert("query_then_fetch"@.len() == 16 && "query_and_fetch"@.len() == 15);
}

impl ToOptionVal for SearchType {
    open spec fn option_text(&self) -> Seq<char> {
        self.text()
    }

    fn to_option_val(&self) -> (r: OptionVal) {
        OptionVal(self.to_string())
    }
}

/// Order of a sort
#[derive(Debug, Clone, Copy, PartialEq, Eq)]
pub enum Order {
    Asc,
    Desc,
}

/// Law: each value is written by its ElasticSearch name (`asc`, `desc`, in the order of the
/// variants), and different values are written differently.
pub proof fn lemma_order_names(x: Order)
    ensures
        x is Asc ==> x.text() == "asc"@,
        x is Desc ==> x.text() == "desc"@,
        forall|a: Order, b: Order| a != b ==> #[trigger] a.text() != #[trigger] b.text(),
{
    reveal_strlit("asc");
    assert("asc"@.len() == 3 && "asc"@[0] == 'a' && "asc"@[1] == 's' && "asc"@[2] == 'c');
    reveal_strlit("desc");
    assert("desc"@.len() == 4 && "desc"@[0] == 'd' && "desc"@[1] == 'e' && "desc"@[2] == 's' && "desc"@[3] == 'c');
}

impl Order {
    /// The name written for this value.
    pub open spec fn text(self) -> Seq<char> {
        match self {
            Order::Asc => "asc"@,
            Order::Desc => "desc"@,
        }
    }

    pub fn to_string(&self) -> (r: String)
        ensures
            r@ == self.text(),
    {
        match self {
            Order::Asc => "asc".to_owned(),
            Order::Desc => "desc".to_owned(),
        }
    }
}

impl ToJson for Order {
    open spec fn json_v(&self) -> JsonV {
        JsonV::Str(self.text())
    }

    fn to_json(&self) -> (r: Json) {
        Json::Str(self.to_string())
    }
}

/// The sort mode option.
#[derive(Debug, Clone, Copy, PartialEq, Eq)]
pub enum Mode {
    Min,
    Max,
    Sum,
    Avg,
}

/// Law: each value is written in JSON by its ElasticSearch name (`min`, `max`, `sum`, `avg`, in
/// the order of the variants), and different values are written differently.
pub proof fn lemma_mode_json_names(x: Mode)
    ensures
        x is Min ==> x.json_v() == JsonV::Str("min"@),
        x is Max ==> x.json_v() == JsonV::Str("max"@),
        x is Sum ==> x.json_v() == JsonV::Str("sum"@),
        x is Avg ==> x.json_v() == JsonV::Str("avg"@),
        forall|a: Mode, b: Mode| a != b ==> #[trigger] a.json_v() != #[trigger] b.json_v(),
{
    reveal_strlit("avg");
    assert("avg"@.len() == 3 && "avg"@[0] == 'a' && "avg"@[1] == 'v' && "avg"@[2] == 'g');
    reveal_strlit("max");
    assert("max"@.len() == 3 && "max"@[0] == 'm' && "max"@[1] == 'a' && "max"@[2] == 'x');
    reveal_strlit("min");
    assert("min"@.len() == 3 && "min"@[0] == 'm' && "min"@[1] == 'i' && "min"@[2] == 'n');
    reveal_strlit("sum");
    assert("sum"@.len() == 3 && "sum"@[0] == 's' && "sum"@[1] == 'u' && "sum"@[2] == 'm');
}

impl ToJson for Mode {
    open spec fn json_v(&self) -> JsonV {
        JsonV::Str(
            match self {
                Mode::Min => "min"@,
                Mode::Max => "max"@,
                Mode::Sum => "sum"@,
                Mode::Avg => "avg"@,
            },
        )
    }

    fn to_json(&self) -> (r: Json) {
        match self {
            Mode::Min => str_json("min"),
            Mode::Max => str_json("max"),
            Mode::Sum => str_json("sum"),
            Mode::Avg => str_json("avg"),
        }
    }
}

/// Options for handling missing values
#[derive(Debug, Clone)]
pub enum Missing {
    First,
    Last,
    Custom(String),
}

impl ToJson for Missing {
    open spec fn json_v(&self) -> JsonV {
        match self {
            Missing::First => JsonV::Str("first"@),
            Missing::Last => JsonV::Str("last"@),
            Missing::Custom(s) => JsonV::Str(s@),
        }
    }

    fn to_json(&self) -> (r: Json) {
        match self {
            Missing::First => str_json("first"),
            Missing::Last => str_json("last"),
            Missing::Custom(s) => Json::Str(s.clone()),
        }
    }
}

/// The options of a sort on a field.
#[derive(Debug)]
pub struct SortFieldInner {
    pub order: Option<Order>,
    pub mode: Option<Mode>,
    pub nested_path: Option<String>,
    pub nested_filter: Option<Query>,
    pub missing: Option<Missing>,
    pub unmapped_type: Option<String>,
}

impl ToJson for SortFieldInner {
    open spec fn json_v(&self) -> JsonV {
        JsonV::Object(
            opt_entry("order"@, opt_v(self.order)) + opt_entry("mode"@, opt_v(self.mode))
                + opt_entry("nested_path"@, opt_v(self.nested_path))
                + opt_entry("nested_filter"@, opt_v(self.nested_filter))
                + opt_entry("missing"@, opt_v(self.missing))
                + opt_entry("unmapped_type"@, opt_v(self.unmapped_type)),
        )
    }

    fn to_json(&self) -> (r: Json) {
        let mut e: Vec<(String, Json)> = Vec::new();
        push_field(&mut e, "order", &self.order);
        push_field(&mut e, "mode", &self.mode);
        push_field(&mut e, "nested_path", &self.nested_path);
        push_field(&mut e, "nested_filter", &self.nested_filter);
        push_field(&mut e, "missing", &self.missing);
        push_field(&mut e, "unmapped_type", &self.unmapped_type);
        assert(entries_view(e@) =~= self.json_v()->Object_0);
        object(e)
    }
}

/// Representing sort options for a specific field, can be combined with others
/// to produce the full sort clause
#[derive(Debug)]
pub struct SortField(pub FieldBased<String, SortFieldInner, NoOuter>);

impl ToJson for SortField {
    open spec fn json_v(&self) -> JsonV {
        self.0.json_v()
    }

    fn to_json(&self) -> (r: Json) {
        self.0.to_json()
    }
}

impl SortField {
    /// Create a `SortField` for a given `field` and `order`
    pub fn new(field: String, order: Option<Order>) -> (r: Self)
        ensures
            r.0.field == field,
            r.0.inner == (SortFieldInner {
                order,
                mode: None,
                nested_path: None,
                nested_filter: None,
                missing: None,
                unmapped_type: None,
            }),
    {
        SortField(
            FieldBased::new(
                field,
                SortFieldInner {
                    order,
                    mode: None,
                    nested_path: None,
                    nested_filter: None,
                    missing: None,
                    unmapped_type: None,
                },
                NoOuter,
            ),
        )
    }

    pub fn with_mode(self, val: Mode) -> (r: Self)
        ensures
            r.0.field == self.0.field,
            r.0.inner == (SortFieldInner { mode: Some(val), ..self.0.inner }),
    {
        let mut s = self;
        s.0.inner.mode = Some(val);
        s
    }

    pub fn with_nested_path(self, val: String) -> (r: Self)
        ensures
            r.0.field == self.0.field,
            r.0.inner == (SortFieldInner { nested_path: Some(val), ..self.0.inner }),
    {
        let mut s = self;
        s.0.inner.nested_path = Some(val);
        s
    }

    pub fn with_nested_filter(self, val: Query) -> (r: Self)
        ensures
            r.0.field == self.0.field,
            r.0.inner == (SortFieldInner { nested_filter: Some(val), ..self.0.inner }),
    {
        let mut s = self;
        s.0.inner.nested_filter = Some(val);
        s
    }

    pub fn with_missing(self, val: Missing) -> (r: Self)
        ensures
            r.0.field == self.0.field,
            r.0.inner == (SortFieldInner { missing: Some(val), ..self.0.inner }),
    {
        let mut s = self;
        s.0.inner.missing = Some(val);
        s
    }

    pub fn with_unmapped_type(self, val: String) -> (r: Self)
        ensures
            r.0.field == self.0.field,
            r.0.inner == (SortFieldInner { unmapped_type: Some(val), ..self.0.inner }),
    {
        let mut s = self;
        s.0.inner.unmapped_type = Some(val);
        s
    }

    pub fn build(self) -> (r: SortBy)
        ensures
            r == SortBy::Field(self),
    {
        SortBy::Field(self)
    }

    /// The text of a sort on a field in a URI: `field`, or `field:order`.
    pub open spec fn text(&self) -> Seq<char> {
        match self.0.inner.order {
            Some(o) => self.0.field@ + ":"@ + o.text(),
            None => self.0.field@,
        }
    }

    pub fn to_string(&self) -> (r: String)
        ensures
            r@ == self.text(),
    {
        let mut s = self.0.field.clone();
        match &self.0.inner.order {
            Some(order) => {
                s.append(":");
                let o = order.to_string();
                s.append(o.as_str());
            },
            None => {},
        }
        s
    }
}

/// Representing sort options for sort by geodistance
#[derive(Debug)]
pub struct GeoDistance {
    pub field: String,
    pub location: OneOrMany<Location>,
    pub order: Option<Order>,
    pub unit: Option<DistanceUnit>,
    pub mode: Option<Mode>,
    pub distance_type: Option<DistanceType>,
}

impl ToJson for GeoDistance {
    open spec fn json_v(&self) -> JsonV {
        JsonV::Object(
            one_entry("field"@, JsonV::Str(self.field@)) + one_entry("location"@, self.location.json_v())
                + opt_entry("order"@, opt_v(self.order)) + opt_entry("unit"@, opt_v(self.unit))
                + opt_entry("mode"@, opt_v(self.mode)) + opt_entry("distance_type"@, opt_v(self.distance_type)),
        )
    }

    fn to_json(&self) -> (r: Json) {
        let mut e: Vec<(String, Json)> = Vec::new();
        push_entry(&mut e, "field", Json::Str(self.field.clone()));
        push_entry(&mut e, "location", self.location.to_json());
        push_field(&mut e, "order", &self.order);
        push_field(&mut e, "unit", &self.unit);
        push_field(&mut e, "mode", &self.mode);
        push_field(&mut e, "distance_type", &self.distance_type);
        assert(entries_view(e@) =~= self.json_v()->Object_0);
        object(e)
    }
}

impl GeoDistance {
    pub fn new(field: String) -> (r: GeoDistance)
        ensures
            r.field == field,
            r.location matches OneOrMany::Many(v) && v@.len() == 0,
            r.order is None,
            r.unit is None,
            r.mode is None,
            r.distance_type is None,
    {
        GeoDistance {
            field,
            location: OneOrMany::Many(Vec::new()),
            order: None,
            unit: None,
            mode: None,
            distance_type: None,
        }
    }

    pub fn with_location(self, location: Location) -> (r: Self)
        ensures
            r == (GeoDistance { location: OneOrMany::One(location), ..self }),
    {
        GeoDistance { location: OneOrMany::One(location), ..self }
    }

    pub fn with_locations(self, location: Vec<Location>) -> (r: Self)
        ensures
            r == (GeoDistance { location: OneOrMany::Many(location), ..self }),
    {
        GeoDistance { location: OneOrMany::Many(location), ..self }
    }

    pub fn with_order(self, val: Order) -> (r: Self)
        ensures
            r == (GeoDistance { order: Some(val), ..self }),
    {
        GeoDistance { order: Some(val), ..self }
    }

    pub fn with_unit(self, val: DistanceUnit) -> (r: Self)
        ensures
            r == (GeoDistance { unit: Some(val), ..self }),
    {
        GeoDistance { unit: Some(val), ..self }
    }

    pub fn with_mode(self, val: Mode) -> (r: Self)
        ensures
            r == (GeoDistance { mode: Some(val), ..self }),
    {
        GeoDistance { mode: Some(val), ..self }
    }

    pub fn with_distance_type(self, val: DistanceType) -> (r: Self)
        ensures
            r == (GeoDistance { distance_type: Some(val), ..self }),
    {
        GeoDistance { distance_type: Some(val), ..self }
    }

    pub fn build(self) -> (r: SortBy)
        ensures
            r == SortBy::Distance(self),
    {
        SortBy::Distance(self)
    }
}

/// Representing options for sort by script
#[derive(Debug)]
pub struct Script {
    pub script: String,
    pub script_type: String,
    pub params: KeyedMap<JsonVal>,
    pub order: Option<Order>,
}

impl ToJson for Script {
    open spec fn json_v(&self) -> JsonV {
        JsonV::Object(
            one_entry("script"@, JsonV::Str(self.script@)) + one_entry("type"@, JsonV::Str(self.script_type@))
                + one_entry("params"@, self.params.json_v()) + opt_entry("order"@, opt_v(self.order)),
        )
    }

    fn to_json(&self) -> (r: Json) {
        let mut e: Vec<(String, Json)> = Vec::new();
        push_entry(&mut e, "script", Json::Str(self.script.clone()));
        push_entry(&mut e, "type", Json::Str(self.script_type.clone()));
        push_entry(&mut e, "params", self.params.to_json());
        push_field(&mut e, "order", &self.order);
        assert(entries_view(e@) =~= self.json_v()->Object_0);
        object(e)
    }
}

impl Script {
    pub fn new(script: String, script_type: String) -> (r: Script)
        ensures
            r.script == script,
            r.script_type == script_type,
            r.params.view_v().len() == 0,
            r.order is None,
    {
        Script { script, script_type, params: KeyedMap::new(), order: None }
    }

    pub fn with_order(self, val: Order) -> (r: Self)
        ensures
            r == (Script { order: Some(val), ..self }),
    {
        Script { order: Some(val), ..self }
    }

    pub fn add_param(self, key: String, value: JsonVal) -> (r: Self)
        ensures
            r.script == self.script,
            r.script_type == self.script_type,
            r.order == self.order,
            r.params.view_v() == map_insert(self.params.view_v(), key@, value),
            crate::json::keys_distinct(self.params.view_v()) ==> crate::json::keys_distinct(r.params.view_v()),
    {
        let mut s = self;
        s.params.insert(key, value);
        s
    }

    pub fn build(self) -> (r: SortBy)
        ensures
            r == SortBy::Script(self),
    {
        SortBy::Script(self)
    }
}

/// One sort criterion.
#[derive(Debug)]
pub enum SortBy {
    Field(SortField),
    Distance(GeoDistance),
    Script(Script),
}

/// Written as the criterion it holds.
impl ToJson for SortBy {
    open spec fn json_v(&self) -> JsonV {
        match self {
            SortBy::Field(f) => f.json_v(),
            SortBy::Distance(d) => d.json_v(),
            SortBy::Script(s) => s.json_v(),
        }
    }

    fn to_json(&self) -> (r: Json) {
        match self {
            SortBy::Field(f) => f.to_json(),
            SortBy::Distance(d) => d.to_json(),
            SortBy::Script(s) => s.to_json(),
        }
    }
}

impl SortBy {
    /// The URI text of a sort on a field; only field sorts have one.
    pub open spec fn text(&self) -> Seq<char> {
        match self {
            SortBy::Field(f) => f.text(),
            _ => Seq::empty(),
        }
    }

    pub fn to_string(&self) -> (r: String)
        requires
            *self is Field,
        ensures
            r@ == self.text(),
    {
        match self {
            SortBy::Field(field) => field.to_string(),
            _ => String::new(),
        }
    }
}

/// A full sort clause
#[derive(Debug)]
pub struct Sort {
    pub fields: Vec<SortBy>,
}

/// Written as the array of its criteria.
impl ToJson for Sort {
    open spec fn json_v(&self) -> JsonV {
        list_v(self.fields@)
    }

    fn to_json(&self) -> (r: Json) {
        list_json(&self.fields)
    }
}

/// A sort on the given field, in the given order.
pub open spec fn sorts_on(s: SortBy, field: String, order: Option<Order>) -> bool {
    s matches SortBy::Field(f) && f.0.field == field && f.0.inner.order == order
}

impl Sort {
    /// Whether every criterion sorts on a field.
    pub open spec fn all_fields(&self) -> bool {
        forall|i: int| 0 <= i < self.fields@.len() ==> #[trigger] self.fields@[i] is Field
    }

    /// The text of each criterion.
    pub open spec fn texts(&self) -> Seq<Seq<char>> {
        Seq::new(self.fields@.len(), |i: int| self.fields@[i].text())
    }

    pub fn new(fields: Vec<SortBy>) -> (r: Self)
        ensures
            r.fields == fields,
    {
        Sort { fields }
    }

    /// Convenience function for a single field default
    pub fn field(fieldname: String) -> (r: Self)
        ensures
            r.fields@.len() == 1,
            r.fields@[0] matches SortBy::Field(f) && f.0.field == fieldname && f.0.inner.order is None,
            r.all_fields(),
    {
        let mut fields: Vec<SortBy> = Vec::new();
        fields.push(SortField::new(fieldname, None).build());
        Sort { fields }
    }

    pub fn field_order(fieldname: String, order: Order) -> (r: Self)
        ensures
            r.fields@.len() == 1,
            r.fields@[0] matches SortBy::Field(f) && f.0.field == fieldname && f.0.inner.order == Some(order),
            r.all_fields(),
    {
        let mut fields: Vec<SortBy> = Vec::new();
        fields.push(SortField::new(fieldname, Some(order)).build());
        Sort { fields }
    }

    pub fn fields(fieldnames: Vec<String>) -> (r: Self)
        ensures
            r.fields@.len() == fieldnames@.len(),
            forall|i: int|
                0 <= i < fieldnames@.len() ==> sorts_on(#[trigger] r.fields@[i], fieldnames@[i], None),
            r.all_fields(),
    {
        let mut names = fieldnames;
        let ghost all = names@;
        let mut rev: Vec<SortBy> = Vec::new();
        while names.len() > 0
            invariant
                names@ == all.subrange(0, names@.len() as int),
                rev@.len() + names@.len() == all.len(),
                forall|j: int|
                    0 <= j < rev@.len() ==> sorts_on(#[trigger] rev@[j], all[all.len() - 1 - j], None),
            decreases names.len(),
        {
            let n = names.pop().unwrap();
            rev.push(SortField::new(n, None).build());
        }
        let mut fields: Vec<SortBy> = Vec::new();
        while rev.len() > 0
            invariant
                fields@.len() + rev@.len() == all.len(),
                forall|j: int|
                    0 <= j < rev@.len() ==> sorts_on(#[trigger] rev@[j], all[all.len() - 1 - j], None),
                forall|j: int|
                    0 <= j < fields@.len() ==> sorts_on(#[trigger] fields@[j], all[j], None),
            decreases rev.len(),
        {
            let s = rev.pop().unwrap();
            fields.push(s);
        }
        Sort { fields }
    }

    pub fn field_orders(fields: Vec<(String, Order)>) -> (r: Self)
        ensures
            r.fields@.len() == fields@.len(),
            forall|i: int|
                0 <= i < fields@.len() ==> sorts_on(#[trigger] r.fields@[i], fields@[i].0, Some(fields@[i].1)),
            r.all_fields(),
    {
        let mut names = fields;
        let ghost all = names@;
        let mut rev: Vec<SortBy> = Vec::new();
        while names.len() > 0
            invariant
                names@ == all.subrange(0, names@.len() as int),
                rev@.len() + names@.len() == all.len(),
                forall|j: int|
                    0 <= j < rev@.len() ==> sorts_on(#[trigger] rev@[j], all[all.len() - 1 - j].0, Some(all[all.len() - 1 - j].1)),
            decreases names.len(),
        {
            let (n, o) = names.pop().unwrap();
            rev.push(SortField::new(n, Some(o)).build());
        }
        let mut out: Vec<SortBy> = Vec::new();
        while rev.len() > 0
            invariant
                out@.len() + rev@.len() == all.len(),
                forall|j: int|
                    0 <= j < rev@.len() ==> sorts_on(#[trigger] rev@[j], all[all.len() - 1 - j].0, Some(all[all.len() - 1 - j].1)),
                forall|j: int|
                    0 <= j < out@.len() ==> sorts_on(#[trigger] out@[j], all[j].0, Some(all[j].1)),
            decreases rev.len(),
        {
            let s = rev.pop().unwrap();
            out.push(s);
        }
        Sort { fields: out }
    }

    /// The sort as a URI option: the texts of its criteria separated by
    /// commas, as in `a:asc,b`.  Only sorts on fields have such a text.
    pub fn to_option_val(&self) -> (r: OptionVal)
        requires
            self.all_fields(),
        ensures
            r.0@ == seq_join(self.texts(), seq![',']),
    {
        let mut texts: Vec<String> = Vec::new();
        let mut i: usize = 0;
        while i < self.fields.len()
            invariant
                i <= self.fields@.len(),
                texts@.len() == i,
                self.all_fields(),
                forall|k: int| 0 <= k < i ==> (#[trigger] texts@[k])@ == self.fields@[k].text(),
            decreases self.fields.len() - i,
        {
            assert(self.fields@[i as int] is Field);
            texts.push(self.fields[i].to_string());
            i = i + 1;
        }
        assert(texts.parts_v() =~= self.texts());
        let r = StrJoin::join(&texts, ",");
        proof {
            reveal_strlit(",");
            assert(","@ =~= seq![',']);
            lemma_str_join_single_char(self.texts(), ',');
        }
        OptionVal(r)
    }
}

/// A search-by-URI operation.
#[derive(Debug)]
pub struct SearchURIOperation<'b> {
    pub indexes: &'b [&'b str],
    pub doc_types: &'b [&'b str],
    pub options: Options<'b>,
}

impl<'b> SearchURIOperation<'b> {
    /// All but the options are the same.
    pub open spec fn keeps(self, other: Self) -> bool {
        self.indexes@ == other.indexes@ && self.doc_types@ == other.doc_types@
    }

    pub fn new() -> (r: Self)
        ensures
            r.indexes@.len() == 0,
            r.doc_types@.len() == 0,
            r.options.view_v().len() == 0,
    {
        SearchURIOperation { indexes: &[], doc_types: &[], options: Options::default() }
    }

    pub fn with_indexes(self, indexes: &'b [&'b str]) -> (r: Self)
        ensures
            r.indexes == indexes,
            r.doc_types == self.doc_types,
            r.options == self.options,
    {
        SearchURIOperation { indexes, ..self }
    }

    pub fn with_types(self, doc_types: &'b [&'b str]) -> (r: Self)
        ensures
            r.doc_types == doc_types,
            r.indexes == self.indexes,
            r.options == self.options,
    {
        SearchURIOperation { doc_types, ..self }
    }

    /// Adds a query-string option.
    pub fn with_option<T: ToOptionVal>(self, key: &'b str, val: T) -> (r: Self)
        ensures
            r.options.view_v() == self.options.view_v().push((key@, val.option_text())),
            r.keeps(self),
    {
        let mut s = self;
        s.options.push(key, val);
        s
    }

    /// The query string, as the option `q`.
    pub fn with_query(self, qs: String) -> (r: Self)
        ensures
            r.options.view_v() == self.options.view_v().push(("q"@, qs@)),
            r.keeps(self),
    {
        self.with_option("q", qs)
    }

    pub fn with_df<T: ToOptionVal>(self, val: T) -> (r: Self)
        ensures
            r.options.view_v() == self.options.view_v().push(("df"@, val.option_text())),
            r.keeps(self),
    {
        self.with_option("df", val)
    }

    pub fn with_analyzer<T: ToOptionVal>(self, val: T) -> (r: Self)
        ensures
            r.options.view_v() == self.options.view_v().push(("analyzer"@, val.option_text())),
            r.keeps(self),
    {
        self.with_option("analyzer", val)
    }

    pub fn with_lowercase_expanded_terms<T: ToOptionVal>(self, val: T) -> (r: Self)
        ensures
            r.options.view_v() == self.options.view_v().push(("lowercase_expanded_terms"@, val.option_text())),
            r.keeps(self),
    {
        self.with_option("lowercase_expanded_terms", val)
    }

    pub fn with_analyze_wildcard<T: ToOptionVal>(self, val: T) -> (r: Self)
        ensures
            r.options.view_v() == self.options.view_v().push(("analyze_wildcard"@, val.option_text())),
            r.keeps(self),
    {
        self.with_option("analyze_wildcard", val)
    }

    pub fn with_default_operator<T: ToOptionVal>(self, val: T) -> (r: Self)
        ensures
            r.options.view_v() == self.options.view_v().push(("default_operator"@, val.option_text())),
            r.keeps(self),
    {
        self.with_option("default_operator", val)
    }

    pub fn with_lenient<T: ToOptionVal>(self, val: T) -> (r: Self)
        ensures
            r.options.view_v() == self.options.view_v().push(("lenient"@, val.option_text())),
            r.keeps(self),
    {
        self.with_option("lenient", val)
    }

    pub fn with_explain<T: ToOptionVal>(self, val: T) -> (r: Self)
        ensures
            r.options.view_v() == self.options.view_v().push(("explain"@, val.option_text())),
            r.keeps(self),
    {
        self.with_option("explain", val)
    }

    pub fn with_source<T: ToOptionVal>(self, val: T) -> (r: Self)
        ensures
            r.options.view_v() == self.options.view_v().push(("_source"@, val.option_text())),
            r.keeps(self),
    {
        self.with_option("_source", val)
    }

    pub fn with_highlight<T: ToOptionVal>(self, val: T) -> (r: Self)
        ensures
            r.options.view_v() == self.options.view_v().push(("highlight"@, val.option_text())),
            r.keeps(self),
    {
        self.with_option("highlight", val)
    }

    pub fn with_version<T: ToOptionVal>(self, val: T) -> (r: Self)
        ensures
            r.options.view_v() == self.options.view_v().push(("version"@, val.option_text())),
            r.keeps(self),
    {
        self.with_option("version", val)
    }

    pub fn with_sort<T: ToOptionVal>(self, val: T) -> (r: Self)
        ensures
            r.options.view_v() == self.options.view_v().push(("sort"@, val.option_text())),
            r.keeps(self),
    {
        self.with_option("sort", val)
    }

    pub fn with_routing<T: ToOptionVal>(self, val: T) -> (r: Self)
        ensures
            r.options.view_v() == self.options.view_v().push(("routing"@, val.option_text())),
            r.keeps(self),
    {
        self.with_option("routing", val)
    }

    pub fn with_track_scores<T: ToOptionVal>(self, val: T) -> (r: Self)
        ensures
            r.options.view_v() == self.options.view_v().push(("track_scores"@, val.option_text())),
            r.keeps(self),
    {
        self.with_option("track_scores", val)
    }

    pub fn with_timeout<T: ToOptionVal>(self, val: T) -> (r: Self)
        ensures
            r.options.view_v() == self.options.view_v().push(("timeout"@, val.option_text())),
            r.keeps(self),
    {
        self.with_option("timeout", val)
    }

    pub fn with_terminate_after<T: ToOptionVal>(self, val: T) -> (r: Self)
        ensures
            r.options.view_v() == self.options.view_v().push(("terminate_after"@, val.option_text())),
            r.keeps(self),
    {
        self.with_option("terminate_after", val)
    }

    pub fn with_from<T: ToOptionVal>(self, val: T) -> (r: Self)
        ensures
            r.options.view_v() == self.options.view_v().push(("from"@, val.option_text())),
            r.keeps(self),
    {
        self.with_option("from", val)
    }

    pub fn with_size<T: ToOptionVal>(self, val: T) -> (r: Self)
        ensures
            r.options.view_v() == self.options.view_v().push(("size"@, val.option_text())),
            r.keeps(self),
    {
        self.with_option("size", val)
    }

    pub fn with_search_type<T: ToOptionVal>(self, val: T) -> (r: Self)
        ensures
            r.options.view_v() == self.options.view_v().push(("search_type"@, val.option_text())),
            r.keeps(self),
    {
        self.with_option("search_type", val)
    }

    pub fn with_ignore_unavailable<T: ToOptionVal>(self, val: T) -> (r: Self)
        ensures
            r.options.view_v() == self.options.view_v().push(("ignore_unavailable"@, val.option_text())),
            r.keeps(self),
    {
        self.with_option("ignore_unavailable", val)
    }

    pub fn with_allow_no_indices<T: ToOptionVal>(self, val: T) -> (r: Self)
        ensures
            r.options.view_v() == self.options.view_v().push(("allow_no_indices"@, val.option_text())),
            r.keeps(self),
    {
        self.with_option("allow_no_indices", val)
    }

    pub fn with_expand_wildcards<T: ToOptionVal>(self, val: T) -> (r: Self)
        ensures
            r.options.view_v() == self.options.view_v().push(("expand_wildcards"@, val.option_text())),
            r.keeps(self),
    {
        self.with_option("expand_wildcards", val)
    }

    /// The fields to return, separated by commas.
    pub fn with_fields(self, fields: &[&str]) -> (r: Self)
        ensures
            r.options.view_v() == self.options.view_v().push(("fields"@, seq_join(names_v(fields@), seq![',']))),
            r.keeps(self),
    {
        let f = comma_list(fields);
        self.with_option("fields", f)
    }

    /// `GET /{indexes/types}/_search{options}`
    pub open spec fn url_v(&self) -> Seq<char> {
        "/"@ + indexes_and_types_text(names_v(self.indexes@), names_v(self.doc_types@)) + "/_search"@
            + options_text(self.options.view_v())
    }

    pub fn request(&self) -> (r: Request)
        ensures
            r.method == Method::Get,
            r.url@ == self.url_v(),
            r.body is None,
    {
        let mut url = "/".to_owned();
        let it = format_indexes_and_types(self.indexes, self.doc_types);
        url.append(it.as_str());
        url.append("/_search");
        let o = self.options.to_string();
        url.append(o.as_str());
        assert(url@ =~= self.url_v());
        Request { method: Method::Get, url, body: None }
    }
}

/// Options for source filtering
#[derive(Debug, Clone, Copy)]
pub enum Source<'a> {
    /// Disable source documents
    Off,
    /// Filtering: the fields to take in, and the fields to leave out.
    Filter(Option<&'a [&'a str]>, Option<&'a [&'a str]>),
}

/// The JSON array of a list of names.
pub open spec fn names_json_v(names: Seq<&str>) -> JsonV {
    JsonV::Array(Seq::new(names.len(), |i: int| JsonV::Str(names[i]@)))
}

/// Builds the JSON array of a list of names.
pub fn names_json(names: &[&str]) -> (r: Json)
    ensures
        jv(r) == names_json_v(names@),
{
    let mut out: Vec<Json> = Vec::new();
    let mut i: usize = 0;
    while i < names.len()
        invariant
            i <= names@.len(),
            out@.len() == i,
            forall|k: int| 0 <= k < i ==> jv(#[trigger] out@[k]) == JsonV::Str(names@[k]@),
        decreases names.len() - i,
    {
        out.push(Json::Str(names[i].to_owned()));
        i = i + 1;
    }
    let r = crate::json::array(out);
    assert(crate::json::elems_view(out@) =~= names_json_v(names@)->Array_0);
    r
}

/// Source filtering off is written `false`; a filter as an object with the
/// fields to leave out first and the fields to take in after them (the keys
/// in sorted order).
impl<'a> ToJson for Source<'a> {
    open spec fn json_v(&self) -> JsonV {
        match self {
            Source::Off => JsonV::Bool(false),
            Source::Filter(incl, excl) => JsonV::Object(
                opt_entry("exclude"@, match excl { Some(v) => Some(names_json_v(v@)), None => None })
                    + opt_entry(inclusion_key(), match incl { Some(v) => Some(names_json_v(v@)), None => None }),
            ),
        }
    }

    fn to_json(&self) -> (r: Json) {
        match self {
            Source::Off => Json::Bool(false),
            Source::Filter(incl, excl) => {
                let mut e: Vec<(String, Json)> = Vec::new();
                match excl {
                    Some(v) => push_entry(&mut e, "exclude", names_json(v)),
                    None => {},
                }
                match incl {
                    Some(v) => push_entry_owned(&mut e, inclusion_key_string(), names_json(v)),
                    None => {},
                }
                assert(entries_view(e@) =~= self.json_v()->Object_0);
                object(e)
            },
        }
    }
}

impl<'a> Source<'a> {
    /// A source filter that only takes in the given fields
    pub fn include_only(fields: &'a [&'a str]) -> (r: Source<'a>)
        ensures
            r == Source::Filter(Some(fields), None),
    {
        Source::Filter(Some(fields), None)
    }

    /// An exclude-only source filter
    pub fn exclude(fields: &'a [&'a str]) -> (r: Source<'a>)
        ensures
            r == Source::Filter(None, Some(fields)),
    {
        Source::Filter(None, Some(fields))
    }

    /// A source filter that takes in some fields and leaves out others
    pub fn filter(incl: &'a [&'a str], excl: &'a [&'a str]) -> (r: Source<'a>)
        ensures
            r == Source::Filter(Some(incl), Some(excl)),
    {
        Source::Filter(Some(incl), Some(excl))
    }
}

/// The body of a search-by-query request.
#[derive(Debug)]
pub struct SearchQueryOperationBody<'b> {
    pub query: Option<&'b Query>,
    pub timeout: Option<&'b str>,
    pub from: Option<u64>,
    pub size: Option<u64>,
    pub terminate_after: Option<u64>,
    pub stats: Option<Vec<String>>,
    pub min_score: Option<Decimal>,
    pub sort: Option<&'b Sort>,
    pub track_scores: Option<bool>,
    pub source: Option<Source<'b>>,
    pub aggs: Option<&'b Aggregations<'b>>,
    pub highlight: Option<&'b Highlight>,
    pub version: Option<bool>,
}

impl<'b> SearchQueryOperationBody<'b> {
    /// A body with nothing set.
    pub open spec fn empty_v() -> SearchQueryOperationBody<'b> {
        SearchQueryOperationBody {
            query: None,
            timeout: None,
            from: None,
            size: None,
            terminate_after: None,
            stats: None,
            min_score: None,
            sort: None,
            track_scores: None,
            source: None,
            aggs: None,
            highlight: None,
            version: None,
        }
    }
}

impl<'b> ToJson for SearchQueryOperationBody<'b> {
    open spec fn json_v(&self) -> JsonV {
        JsonV::Object(
            opt_entry("query"@, match self.query { Some(q) => Some(query_v(*q)), None => None })
                + opt_entry("timeout"@, match self.timeout { Some(t) => Some(JsonV::Str(t@)), None => None })
                + opt_entry("from"@, opt_v(self.from)) + opt_entry("size"@, opt_v(self.size))
                + opt_entry("terminate_after"@, opt_v(self.terminate_after))
                + opt_entry("stats"@, opt_v(self.stats)) + opt_entry("min_score"@, opt_v(self.min_score))
                + opt_entry("sort"@, match self.sort { Some(s) => Some(s.json_v()), None => None })
                + opt_entry("track_scores"@, opt_v(self.track_scores))
                + opt_entry("_source"@, opt_v(self.source))
                + opt_entry("aggregations"@, match self.aggs { Some(a) => Some(aggs_v(*a)), None => None })
                + opt_entry("highlight"@, match self.highlight { Some(h) => Some(h.json_v()), None => None })
                + opt_entry("version"@, opt_v(self.version)),
        )
    }

    fn to_json(&self) -> (r: Json) {
        let mut e: Vec<(String, Json)> = Vec::new();
        match self.query {
            Some(q) => push_entry(&mut e, "query", query_json(q)),
            None => {},
        }
        match self.timeout {
            Some(t) => push_entry(&mut e, "timeout", Json::Str(t.to_owned())),
            None => {},
        }
        push_field(&mut e, "from", &self.from);
        push_field(&mut e, "size", &self.size);
        push_field(&mut e, "terminate_after", &self.terminate_after);
        push_field(&mut e, "stats", &self.stats);
        push_field(&mut e, "min_score", &self.min_score);
        match self.sort {
            Some(s) => push_entry(&mut e, "sort", s.to_json()),
            None => {},
        }
        push_field(&mut e, "track_scores", &self.track_scores);
        push_field(&mut e, "_source", &self.source);
        match self.aggs {
            Some(a) => push_entry(&mut e, "aggregations", aggs_json(a)),
            None => {},
        }
        match self.highlight {
            Some(h) => push_entry(&mut e, "highlight", h.to_json()),
            None => {},
        }
        push_field(&mut e, "version", &self.version);
        assert(entries_view(e@) =~= self.json_v()->Object_0);
        object(e)
    }
}

/// A search-by-query operation.
#[derive(Debug)]
pub struct SearchQueryOperation<'b> {
    /// The indexes to which this query applies
    pub indexes: &'b [&'b str],
    /// The types to which the query applies
    pub doc_types: &'b [&'b str],
    /// Optionals
    pub options: Options<'b>,
    /// The query body
    pub body: SearchQueryOperationBody<'b>,
}

impl<'b> SearchQueryOperation<'b> {
    /// All but the options are the same.
    pub open spec fn keeps(self, other: Self) -> bool {
        self.indexes@ == other.indexes@ && self.doc_types@ == other.doc_types@ && self.body == other.body
    }

    /// All but the body are the same.
    pub open spec fn keeps_all_but_body(self, other: Self) -> bool {
        self.indexes@ == other.indexes@ && self.doc_types@ == other.doc_types@ && self.options == other.options
    }

    pub fn new() -> (r: Self)
        ensures
            r.indexes@.len() == 0,
            r.doc_types@.len() == 0,
            r.options.view_v().len() == 0,
            r.body == SearchQueryOperationBody::empty_v(),
    {
        SearchQueryOperation {
            indexes: &[],
            doc_types: &[],
            options: Options::new(),
            body: SearchQueryOperationBody {
                query: None,
                timeout: None,
                from: None,
                size: None,
                terminate_after: None,
                stats: None,
                min_score: None,
                sort: None,
                track_scores: None,
                source: None,
                aggs: None,
                highlight: None,
                version: None,
            },
        }
    }

    pub fn with_indexes(self, indexes: &'b [&'b str]) -> (r: Self)
        ensures
            r == (SearchQueryOperation { indexes, ..self }),
    {
        SearchQueryOperation { indexes, ..self }
    }

    pub fn with_types(self, doc_types: &'b [&'b str]) -> (r: Self)
        ensures
            r == (SearchQueryOperation { doc_types, ..self }),
    {
        SearchQueryOperation { doc_types, ..self }
    }

    pub fn with_query(self, val: &'b Query) -> (r: Self)
        ensures
            r.body == (SearchQueryOperationBody { query: Some(val), ..self.body }),
            r.keeps_all_but_body(self),
    {
        let mut s = self;
        s.body.query = Some(val);
        s
    }

    pub fn with_timeout(self, val: &'b str) -> (r: Self)
        ensures
            r.body == (SearchQueryOperationBody { timeout: Some(val), ..self.body }),
            r.keeps_all_but_body(self),
    {
        let mut s = self;
        s.body.timeout = Some(val);
        s
    }

    pub fn with_from(self, val: u64) -> (r: Self)
        ensures
            r.body == (SearchQueryOperationBody { from: Some(val), ..self.body }),
            r.keeps_all_but_body(self),
    {
        let mut s = self;
        s.body.from = Some(val);
        s
    }

    pub fn with_size(self, val: u64) -> (r: Self)
        ensures
            r.body == (SearchQueryOperationBody { size: Some(val), ..self.body }),
            r.keeps_all_but_body(self),
    {
        let mut s = self;
        s.body.size = Some(val);
        s
    }

    pub fn with_version(self, val: bool) -> (r: Self)
        ensures
            r.body == (SearchQueryOperationBody { version: Some(val), ..self.body }),
            r.keeps_all_but_body(self),
    {
        let mut s = self;
        s.body.version = Some(val);
        s
    }

    pub fn with_terminate_after(self, val: u64) -> (r: Self)
        ensures
            r.body == (SearchQueryOperationBody { terminate_after: Some(val), ..self.body }),
            r.keeps_all_but_body(self),
    {
        let mut s = self;
        s.body.terminate_after = Some(val);
        s
    }

    pub fn with_min_score(self, val: Decimal) -> (r: Self)
        ensures
            r.body == (SearchQueryOperationBody { min_score: Some(val), ..self.body }),
            r.keeps_all_but_body(self),
    {
        let mut s = self;
        s.body.min_score = Some(val);
        s
    }

    pub fn with_sort(self, val: &'b Sort) -> (r: Self)
        ensures
            r.body == (SearchQueryOperationBody { sort: Some(val), ..self.body }),
            r.keeps_all_but_body(self),
    {
        let mut s = self;
        s.body.sort = Some(val);
        s
    }

    pub fn with_track_scores(self, val: bool) -> (r: Self)
        ensures
            r.body == (SearchQueryOperationBody { track_scores: Some(val), ..self.body }),
            r.keeps_all_but_body(self),
    {
        let mut s = self;
        s.body.track_scores = Some(val);
        s
    }

    pub fn with_source(self, val: Source<'b>) -> (r: Self)
        ensures
            r.body == (SearchQueryOperationBody { source: Some(val), ..self.body }),
            r.keeps_all_but_body(self),
    {
        let mut s = self;
        s.body.source = Some(val);
        s
    }

    pub fn with_aggs(self, val: &'b Aggregations<'b>) -> (r: Self)
        ensures
            r.body == (SearchQueryOperationBody { aggs: Some(val), ..self.body }),
            r.keeps_all_but_body(self),
    {
        let mut s = self;
        s.body.aggs = Some(val);
        s
    }

    pub fn with_highlight(self, val: &'b Highlight) -> (r: Self)
        ensures
            r.body == (SearchQueryOperationBody { highlight: Some(val), ..self.body }),
            r.keeps_all_but_body(self),
    {
        let mut s = self;
        s.body.highlight = Some(val);
        s
    }

    /// The stats groups to which the query belongs.
    pub fn with_stats(self, stats: &[&str]) -> (r: Self)
        ensures
            r.body.stats matches Some(v) && v@.len() == stats@.len()
                && forall|i: int| 0 <= i < stats@.len() ==> (#[trigger] v@[i])@ == stats@[i]@,
            r.body == (SearchQueryOperationBody { stats: r.body.stats, ..self.body }),
            r.keeps_all_but_body(self),
    {
        let mut v: Vec<String> = Vec::new();
        let mut i: usize = 0;
        while i < stats.len()
            invariant
                i <= stats@.len(),
                v@.len() == i,
                forall|k: int| 0 <= k < i ==> (#[trigger] v@[k])@ == stats@[k]@,
            decreases stats.len() - i,
        {
            v.push(stats[i].to_owned());
            i = i + 1;
        }
        let mut s = self;
        s.body.stats = Some(v);
        s
    }
    /// Adds a query-string option.
    pub fn with_option<T: ToOptionVal>(self, key: &'b str, val: T) -> (r: Self)
        ensures
            r.options.view_v() == self.options.view_v().push((key@, val.option_text())),
            r.keeps(self),
    {
        let mut s = self;
        s.options.push(key, val);
        s
    }

    pub fn with_routing<T: ToOptionVal>(self, val: T) -> (r: Self)
        ensures
            r.options.view_v() == self.options.view_v().push(("routing"@, val.option_text())),
            r.keeps(self),
    {
        self.with_option("routing", val)
    }

    pub fn with_search_type<T: ToOptionVal>(self, val: T) -> (r: Self)
        ensures
            r.options.view_v() == self.options.view_v().push(("search_type"@, val.option_text())),
            r.keeps(self),
    {
        self.with_option("search_type", val)
    }

    pub fn with_query_cache<T: ToOptionVal>(self, val: T) -> (r: Self)
        ensures
            r.options.view_v() == self.options.view_v().push(("query_cache"@, val.option_text())),
            r.keeps(self),
    {
        self.with_option("query_cache", val)
    }

    pub fn with_ignore_unavailable<T: ToOptionVal>(self, val: T) -> (r: Self)
        ensures
            r.options.view_v() == self.options.view_v().push(("ignore_unavailable"@, val.option_text())),
            r.keeps(self),
    {
        self.with_option("ignore_unavailable", val)
    }

    pub fn with_allow_no_indices<T: ToOptionVal>(self, val: T) -> (r: Self)
        ensures
            r.options.view_v() == self.options.view_v().push(("allow_no_indices"@, val.option_text())),
            r.keeps(self),
    {
        self.with_option("allow_no_indices", val)
    }

    pub fn with_expand_wildcards<T: ToOptionVal>(self, val: T) -> (r: Self)
        ensures
            r.options.view_v() == self.options.view_v().push(("expand_wildcards"@, val.option_text())),
            r.keeps(self),
    {
        self.with_option("expand_wildcards", val)
    }

    pub fn with_explain<T: ToOptionVal>(self, val: T) -> (r: Self)
        ensures
            r.options.view_v() == self.options.view_v().push(("explain"@, val.option_text())),
            r.keeps(self),
    {
        self.with_option("explain", val)
    }

    /// `/{indexes/types}/_search{options}`
    pub open spec fn url_v(&self) -> Seq<char> {
        "/"@ + indexes_and_types_text(names_v(self.indexes@), names_v(self.doc_types@)) + "/_search"@
            + options_text(self.options.view_v())
    }

    fn url(&self) -> (r: String)
        ensures
            r@ == self.url_v(),
    {
        let mut url = "/".to_owned();
        let it = format_indexes_and_types(self.indexes, self.doc_types);
        url.append(it.as_str());
        url.append("/_search");
        let o = self.options.to_string();
        url.append(o.as_str());
        assert(url@ =~= self.url_v());
        url
    }

    /// The search: `POST`, with the body as JSON.
    pub fn request(&self) -> (r: Request)
        ensures
            r.method == Method::Post,
            r.url@ == self.url_v(),
            r.body_v() == Some(json_text(self.body.json_v())),
    {
        let url = self.url();
        let b = self.body.to_json();
        Request { method: Method::Post, url, body: Some(to_json_string(&b)) }
    }

    /// Begins a scan: the search with the options `search_type=scan` and
    /// `scroll` (how long the server keeps the scan open) added.
    pub fn scan(self, scroll: Duration) -> (r: Request)
        ensures
            r.method == Method::Post,
            r.url@ == "/"@ + indexes_and_types_text(names_v(self.indexes@), names_v(self.doc_types@))
                + "/_search"@ + options_text(
                self.options.view_v().push(("search_type"@, "scan"@)).push(("scroll"@, scroll.text())),
            ),
            r.body_v() == Some(json_text(self.body.json_v())),
    {
        let mut s = self;
        s.options.push("search_type", "scan");
        s.options.push("scroll", scroll);
        s.request()
    }
}

/// What to make of the aggregations of a response: whether there are results
/// to read against the aggregations asked for.  Results with none asked for
/// are an error.
pub fn aggs_to_read(has_results: bool, has_requested: bool) -> (r: Result<bool, EsError>)
    ensures
        r is Ok <==> (!has_results || has_requested),
        r matches Ok(b) ==> b == has_results,
        r matches Err(EsError::EsError(m)) ==> m@ == "No aggs despite being in results"@,
        r is Err ==> r->Err_0 is EsError,
{
    if has_results {
        if has_requested {
            Ok(true)
        } else {
            Err(EsError::EsError("No aggs despite being in results".to_owned()))
        }
    } else {
        Ok(false)
    }
}

/// The sources of all hits, in order, when every hit has one; `None` when
/// any hit lacks its source.
pub fn all_sources<T>(sources: Vec<Option<T>>) -> (r: Option<Vec<T>>)
    ensures
        r is Some <==> forall|i: int| 0 <= i < sources@.len() ==> #[trigger] sources@[i] is Some,
        r matches Some(v) ==> v@.len() == sources@.len() && forall|i: int|
            0 <= i < sources@.len() ==> sources@[i] == Some(#[trigger] v@[i]),
{
    let ghost all = sources@;
    let mut src = sources;
    let mut rev: Vec<T> = Vec::new();
    while src.len() > 0
        invariant
            src@ == all.subrange(0, src@.len() as int),
            all == sources@,
            rev@.len() + src@.len() == all.len(),
            forall|j: int| 0 <= j < rev@.len() ==> all[all.len() - 1 - j] == Some(#[trigger] rev@[j]),
        decreases src.len(),
    {
        let ghost before = src@;
        let o = src.pop().unwrap();
        assert(o == before[before.len() - 1]);
        assert(before[before.len() - 1] == all[src@.len() as int]);
        match o {
            Some(t) => rev.push(t),
            None => {
                assert(!(all[src@.len() as int] is Some));
                return None;
            },
        }
    }
    let mut out: Vec<T> = Vec::new();
    while rev.len() > 0
        invariant
            out@.len() + rev@.len() == all.len(),
            forall|j: int| 0 <= j < rev@.len() ==> all[all.len() - 1 - j] == Some(#[trigger] rev@[j]),
            forall|j: int| 0 <= j < out@.len() ==> all[j] == Some(#[trigger] out@[j]),
        decreases rev.len(),
    {
        let t = rev.pop().unwrap();
        out.push(t);
    }
    assert forall|i: int| 0 <= i < all.len() implies #[trigger] all[i] is Some by {
        assert(all[i] == Some(out@[i]));
    }
    Some(out)
}

/// The body that continues a scan: `{"scroll": .., "scroll_id": ..}`.
pub open spec fn scroll_body_v(scroll_id: Seq<char>, scroll: Duration) -> JsonV {
    JsonV::Object(one_entry("scroll"@, JsonV::Str(scroll.text())) + one_entry("scroll_id"@, JsonV::Str(scroll_id)))
}

/// The request for the next page of a scan: `POST /_search/scroll`.
pub fn scroll_request(scroll_id: &str, scroll: &Duration) -> (r: Request)
    ensures
        r.method == Method::Post,
        r.url@ == "/_search/scroll"@,
        r.body_v() == Some(json_text(scroll_body_v(scroll_id@, *scroll))),
{
    let mut e: Vec<(String, Json)> = Vec::new();
    push_entry(&mut e, "scroll", Json::Str(scroll.to_string()));
    push_entry(&mut e, "scroll_id", Json::Str(scroll_id.to_owned()));
    assert(entries_view(e@) =~= scroll_body_v(scroll_id@, *scroll)->Object_0);
    let b = object(e);
    Request { method: Method::Post, url: "/_search/scroll".to_owned(), body: Some(to_json_string(&b)) }
}

/// The scroll id a page of a scan must carry, or the error when it does not.
pub fn next_scroll_id(found: Option<String>) -> (r: Result<String, EsError>)
    ensures
        found matches Some(id) ==> r == Ok::<String, EsError>(id),
        found is None ==> (r matches Err(EsError::EsError(m)) && m@ == "Expecting scroll_id"@),
{
    match found {
        Some(id) => Ok(id),
        None => Err(EsError::EsError("Expecting scroll_id".to_owned())),
    }
}

/// The request that closes a scan: `DELETE /_search/scroll?scroll_id={id}`.
pub fn close_request(scroll_id: &str) -> (r: Request)
    ensures
        r.method == Method::Delete,
        r.url@ == "/_search/scroll?scroll_id="@ + scroll_id@,
        r.body is None,
{
    let mut url = "/_search/scroll?scroll_id=".to_owned();
    url.append(scroll_id);
    Request { method: Method::Delete, url, body: None }
}

/// What the reply to a scan gives, by its status: with OK (200), what
/// `read_ok` makes of the reply's body (itself a result: the body may not
/// decode); with Not Found (404), a server error
/// `"Not found: {response}"`; with any other status, the error
/// `"Unexpected status: {status}"`.  `read_ok` is called only for OK.
pub fn scan_reply<R, F: FnOnce() -> R>(
    status: u16,
    status_text: &str,
    response_text: &str,
    read_ok: F,
) -> (r: Result<R, EsError>)
    requires
        status == 200 ==> read_ok.requires(()),
    ensures
        status == 200 ==> (r matches Ok(x) && read_ok.ensures((), x)),
        status == 404 ==> (r matches Err(EsError::EsServerError(m)) && m@ == "Not found: "@ + response_text@),
        status != 200 && status != 404 ==> (r matches Err(EsError::EsError(m)) && m@ == "Unexpected status: "@
            + status_text@),
{
    if status == 200 {
        Ok(read_ok())
    } else if status == 404 {
        let mut m = "Not found: ".to_owned();
        m.append(response_text);
        Err(EsError::EsServerError(m))
    } else {
        let mut m = "Unexpected status: ".to_owned();
        m.append(status_text);
        Err(EsError::EsError(m))
    }
}

/// The next hit of a scan from the page at hand: its first hit, taken off
/// the page, or `None` when the page is empty (a new page must be fetched).
pub fn next_from_page<T>(page: &mut Vec<T>) -> (r: Option<T>)
    ensures
        old(page)@.len() > 0 ==> (r == Some(old(page)@[0]) && final(page)@ == old(page)@.drop_first()),
        old(page)@.len() == 0 ==> (r is None && final(page)@ == old(page)@),
{
    if page.len() > 0 {
        Some(page.remove(0))
    } else {
        None
    }
}

/// The next hit of a scan once a page has been fetched: the fetched page
/// becomes the page at hand and its first hit is taken; an empty page ends
/// the scan (`None`).
pub fn next_from_fetched<T>(page: &mut Vec<T>, fetched: Vec<T>) -> (r: Option<T>)
    ensures
        fetched@.len() > 0 ==> (r == Some(fetched@[0]) && final(page)@ == fetched@.drop_first()),
        fetched@.len() == 0 ==> (r is None && final(page)@.len() == 0),
{
    *page = fetched;
    next_from_page(page)
}

/// Closing a scan succeeds when the server closed it (OK) or had closed it
/// already (Not Found).
pub fn close_succeeded(code: u16) -> (r: bool)
    ensures
        r == (code == 200 || code == 404),
{
    code == 200 || code == 404
}

} // verus!
