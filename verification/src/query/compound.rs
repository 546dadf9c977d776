//! Compound queries

use vstd::prelude::*;

use crate::json::{
    entries_view, jv, object, one_entry, opt_entry, opt_v, push_entry, push_field, str_json, Decimal, Json,
    JsonV, ToJson,
};
use crate::units::OneOrMany;
use super::{
    no_match_query_json, no_match_query_v, one_or_many_query_json, one_or_many_query_v, queries_json,
    queries_v, query_json, query_v, MinimumShouldMatch, Query, ScoreMode,
};
use super::functions::Function;

verus! {

/// BoostMode
#[derive(Debug, Clone, Copy, PartialEq, Eq)]
pub enum BoostMode {
    Multiply,
    Replace,
    Sum,
    Avg,
    Max,
    Min,
}

/// Law: each value is written by its ElasticSearch name (`multiply`, `replace`, `sum`, `avg`,
/// `max`, `min`, in the order of the variants), and different values are written differently.
pub proof fn lemma_boost_mode_names(x: BoostMode)
    ensures
        x is Multiply ==> x.text() == "multiply"@,
        x is Replace ==> x.text() == "replace"@,
        x is Sum ==> x.text() == "sum"@,
        x is Avg ==> x.text() == "avg"@,
        x is Max ==> x.text() == "max"@,
        x is Min ==> x.text() == "min"@,
        forall|a: BoostMode, b: BoostMode| a != b ==> #[trigger] a.text() != #[trigger] b.text(),
{
    reveal_strlit("avg");
    assert("avg"@.len() == 3 && "avg"@[0] == 'a' && "avg"@[1] == 'v' && "avg"@[2] == 'g');
    reveal_strlit("max");
    assert("max"@.len() == 3 && "max"@[0] == 'm' && "max"@[1] == 'a' && "max"@[2] == 'x');
    reveal_strlit("min");
    assert("min"@.len() == 3 && "min"@[0] == 'm' && "min"@[1] == 'i' && "min"@[2] == 'n');
    reveal_strlit("multiply");
    assert("multiply"@.len() == 8 && "multiply"@[0] == 'm' && "multiply"@[1] == 'u' && "multiply"@[2] == 'l' && "multiply"@[3] == 't' && "multiply"@[4] == 'i' && "multiply"@[5] == 'p' && "multiply"@[6] == 'l' && "multiply"@[7] == 'y');
    reveal_strlit("replace");
    assert("replace"@.len() == 7 && "replace"@[0] == 'r' && "replace"@[1] == 'e' && "replace"@[2] == 'p' && "replace"@[3] == 'l' && "replace"@[4] == 'a' && "replace"@[5] == 'c' && "replace"@[6] == 'e');
    reveal_strlit("sum");
    assert("sum"@.len() == 3 && "sum"@[0] == 's' && "sum"@[1] == 'u' && "sum"@[2] == 'm');
}

impl BoostMode {
    /// The name written for this value.
    pub open spec fn text(self) -> Seq<char> {
        match self {
            BoostMode::Multiply => "multiply"@,
            BoostMode::Replace => "replace"@,
            BoostMode::Sum => "sum"@,
            BoostMode::Avg => "avg"@,
            BoostMode::Max => "max"@,
            BoostMode::Min => "min"@,
        }
    }

    pub fn as_str(&self) -> (r: &'static str)
        ensures
            r@ == self.text(),
    {
        match self {
            BoostMode::Multiply => "multiply",
            BoostMode::Replace => "replace",
            BoostMode::Sum => "sum",
            BoostMode::Avg => "avg",
            BoostMode::Max => "max",
            BoostMode::Min => "min",
        }
    }
}

impl ToJson for BoostMode {
    open spec fn json_v(&self) -> JsonV {
        JsonV::Str(self.text())
    }

    fn to_json(&self) -> (r: Json) {
        str_json(self.as_str())
    }
}

/// Constant score query
#[derive(Debug)]
pub struct ConstantScoreQuery {
    pub query: Query,
    pub boost: Option<Decimal>,
}

/// The JSON form of a `ConstantScoreQuery`.
pub open spec fn constant_score_query_v(s: ConstantScoreQuery) -> JsonV
    decreases s, 2nat,
{
    JsonV::Object(
        one_entry("query"@, query_v(s.query))
            + opt_entry("boost"@, opt_v(s.boost))
    )
}

/// Builds the JSON form of a `ConstantScoreQuery`.
pub fn constant_score_query_json(s: &ConstantScoreQuery) -> (r: Json)
    ensures
        jv(r) == constant_score_query_v(*s),
    decreases s, 2nat,
{
    let mut e: Vec<(String, Json)> = Vec::new();
    push_entry(&mut e, "query", query_json(&s.query));
    push_field(&mut e, "boost", &s.boost);
    assert(entries_view(e@) =~= constant_score_query_v(*s)->Object_0);
    object(e)
}

impl ConstantScoreQuery {
    pub fn with_boost(self, val: Decimal) -> (r: Self)
        ensures
            r == (ConstantScoreQuery { boost: Some(val), ..self }),
    {
        let mut s = self;
        s.boost = Some(val);
        s
    }

}

impl ConstantScoreQuery {
    pub fn build(self) -> (r: Query)
        ensures
            r == Query::ConstantScore(Box::new(self)),
    {
        Query::ConstantScore(Box::new(self))
    }
}

impl Query {
    pub fn build_constant_score(query: Query) -> (r: ConstantScoreQuery)
        ensures
            r.query == query,
            r.boost is None,
    {
        ConstantScoreQuery { query, boost: None }
    }
}

/// Bool query
#[derive(Debug)]
pub struct BoolQuery {
    pub must: Option<OneOrMany<Query>>,
    pub filter: Option<Query>,
    pub should: Option<OneOrMany<Query>>,
    pub must_not: Option<OneOrMany<Query>>,
    pub minimum_should_match: Option<MinimumShouldMatch>,
    pub boost: Option<Decimal>,
    pub disable_coord: Option<bool>,
}

/// The JSON form of a `BoolQuery`.
pub open spec fn bool_query_v(s: BoolQuery) -> JsonV
    decreases s, 2nat,
{
    JsonV::Object(
        opt_entry("must"@, match s.must { Some(m) => Some(one_or_many_query_v(m)), None => None })
            + opt_entry("filter"@, match s.filter { Some(q) => Some(query_v(q)), None => None })
            + opt_entry("should"@, match s.should { Some(m) => Some(one_or_many_query_v(m)), None => None })
            + opt_entry("must_not"@, match s.must_not { Some(m) => Some(one_or_many_query_v(m)), None => None })
            + opt_entry("minimum_should_match"@, opt_v(s.minimum_should_match))
            + opt_entry("boost"@, opt_v(s.boost))
            + opt_entry("disable_coord"@, opt_v(s.disable_coord))
    )
}

/// Builds the JSON form of a `BoolQuery`.
pub fn bool_query_json(s: &BoolQuery) -> (r: Json)
    ensures
        jv(r) == bool_query_v(*s),
    decreases s, 2nat,
{
    let mut e: Vec<(String, Json)> = Vec::new();
    match &s.must {
            Some(m) => {
                push_entry(&mut e, "must", one_or_many_query_json(m));
            },
            None => {},
        }
    match &s.filter {
            Some(q) => {
                push_entry(&mut e, "filter", query_json(q));
            },
            None => {},
        }
    match &s.should {
            Some(m) => {
                push_entry(&mut e, "should", one_or_many_query_json(m));
            },
            None => {},
        }
    match &s.must_not {
            Some(m) => {
                push_entry(&mut e, "must_not", one_or_many_query_json(m));
            },
            None => {},
        }
    push_field(&mut e, "minimum_should_match", &s.minimum_should_match);
    push_field(&mut e, "boost", &s.boost);
    push_field(&mut e, "disable_coord", &s.disable_coord);
    assert(entries_view(e@) =~= bool_query_v(*s)->Object_0);
    object(e)
}

/// The JSON of an optional list of clauses.
pub open spec fn clauses_v(m: Option<OneOrMany<Query>>) -> Option<JsonV> {
    match m {
        Some(c) => Some(one_or_many_query_v(c)),
        None => None,
    }
}

/// Law: a bool query is written under `"bool"`, and in its object each kind
/// of clause stands under its own name and under no other: the required
/// clauses under `"must"`, the excluding ones under `"must_not"`, the optional
/// ones under `"should"` and the filter under `"filter"`.  A kind that is not
/// given has no entry at all, so excluding clauses never appear as required
/// ones.
pub proof fn lemma_bool_query_clauses(b: BoolQuery)
    ensures
        query_v(Query::Bool(Box::new(b))) == JsonV::Object(seq![("bool"@, bool_query_v(b))]),
        crate::json::get_v(bool_query_v(b), "must"@) == clauses_v(b.must),
        crate::json::get_v(bool_query_v(b), "must_not"@) == clauses_v(b.must_not),
        crate::json::get_v(bool_query_v(b), "should"@) == clauses_v(b.should),
        crate::json::get_v(bool_query_v(b), "filter"@) == (match b.filter {
            Some(q) => Some(query_v(q)),
            None => None,
        }),
{
    reveal_strlit("must");
    reveal_strlit("filter");
    reveal_strlit("should");
    reveal_strlit("must_not");
    assert("filter"@[0] != "should"@[0]);
    assert("must"@.len() == 4 && "must_not"@.len() == 8 && "filter"@.len() == 6 && "should"@.len() == 6);
    lemma_bool_get(b, "must"@);
    lemma_bool_get(b, "must_not"@);
    lemma_bool_get(b, "should"@);
    lemma_bool_get(b, "filter"@);
}

/// What the bool object holds under one of the clause names.
proof fn lemma_bool_get(b: BoolQuery, k: Seq<char>)
    requires
        k == "must"@ || k == "must_not"@ || k == "should"@ || k == "filter"@,
    ensures
        crate::json::get_v(bool_query_v(b), k) == (if k == "must"@ {
            clauses_v(b.must)
        } else if k == "must_not"@ {
            clauses_v(b.must_not)
        } else if k == "should"@ {
            clauses_v(b.should)
        } else {
            match b.filter {
                Some(q) => Some(query_v(q)),
                None => None,
            }
        }),
{
    reveal_strlit("must");
    reveal_strlit("filter");
    reveal_strlit("should");
    reveal_strlit("must_not");
    reveal_strlit("minimum_should_match");
    reveal_strlit("boost");
    reveal_strlit("disable_coord");
    let f = match b.filter { Some(q) => Some(query_v(q)), None => None };
    let e1 = opt_entry("must"@, clauses_v(b.must));
    let e2 = opt_entry("filter"@, f);
    let e3 = opt_entry("should"@, clauses_v(b.should));
    let e4 = opt_entry("must_not"@, clauses_v(b.must_not));
    let e5 = opt_entry("minimum_should_match"@, opt_v(b.minimum_should_match));
    let e6 = opt_entry("boost"@, opt_v(b.boost));
    let e7 = opt_entry("disable_coord"@, opt_v(b.disable_coord));
    assert(bool_query_v(b)->Object_0 == e1 + e2 + e3 + e4 + e5 + e6 + e7);
    crate::json::lemma_map_get_append(e1 + e2 + e3 + e4 + e5 + e6, e7, k);
    crate::json::lemma_map_get_append(e1 + e2 + e3 + e4 + e5, e6, k);
    crate::json::lemma_map_get_append(e1 + e2 + e3 + e4, e5, k);
    crate::json::lemma_map_get_append(e1 + e2 + e3, e4, k);
    crate::json::lemma_map_get_append(e1 + e2, e3, k);
    crate::json::lemma_map_get_append(e1, e2, k);
    crate::json::lemma_map_get_opt_entry("must"@, clauses_v(b.must), k);
    crate::json::lemma_map_get_opt_entry("filter"@, f, k);
    crate::json::lemma_map_get_opt_entry("should"@, clauses_v(b.should), k);
    crate::json::lemma_map_get_opt_entry("must_not"@, clauses_v(b.must_not), k);
    crate::json::lemma_map_get_opt_entry("minimum_should_match"@, opt_v(b.minimum_should_match), k);
    crate::json::lemma_map_get_opt_entry("boost"@, opt_v(b.boost), k);
    crate::json::lemma_map_get_opt_entry("disable_coord"@, opt_v(b.disable_coord), k);
    assert("filter"@[0] != "should"@[0]);
    assert("filter"@ != "should"@);
    assert("must"@.len() == 4 && "must_not"@.len() == 8 && "filter"@.len() == 6 && "should"@.len() == 6);
    assert("minimum_should_match"@.len() == 20 && "boost"@.len() == 5 && "disable_coord"@.len() == 13);
    let all = e1 + e2 + e3 + e4 + e5 + e6 + e7;
    assert(crate::json::map_get(all, k) == crate::json::map_get(e1 + e2 + e3 + e4, k));
    if k == "must"@ {
        assert(crate::json::map_get(all, k) == clauses_v(b.must));
    } else if k == "must_not"@ {
        assert(crate::json::map_get(all, k) == clauses_v(b.must_not));
    } else if k == "should"@ {
        assert(crate::json::map_get(all, k) == clauses_v(b.should));
    } else {
        assert(crate::json::map_get(all, k) == f);
    }
}

impl BoolQuery {
    pub fn with_must(self, val: OneOrMany<Query>) -> (r: Self)
        ensures
            r == (BoolQuery { must: Some(val), ..self }),
    {
        let mut s = self;
        s.must = Some(val);
        s
    }

    pub fn with_filter(self, val: Query) -> (r: Self)
        ensures
            r == (BoolQuery { filter: Some(val), ..self }),
    {
        let mut s = self;
        s.filter = Some(val);
        s
    }

    pub fn with_should(self, val: OneOrMany<Query>) -> (r: Self)
        ensures
            r == (BoolQuery { should: Some(val), ..self }),
    {
        let mut s = self;
        s.should = Some(val);
        s
    }

    pub fn with_must_not(self, val: OneOrMany<Query>) -> (r: Self)
        ensures
            r == (BoolQuery { must_not: Some(val), ..self }),
    {
        let mut s = self;
        s.must_not = Some(val);
        s
    }

    pub fn with_minimum_should_match(self, val: MinimumShouldMatch) -> (r: Self)
        ensures
            r == (BoolQuery { minimum_should_match: Some(val), ..self }),
    {
        let mut s = self;
        s.minimum_should_match = Some(val);
        s
    }

    pub fn with_boost(self, val: Decimal) -> (r: Self)
        ensures
            r == (BoolQuery { boost: Some(val), ..self }),
    {
        let mut s = self;
        s.boost = Some(val);
        s
    }

    pub fn with_disable_coord(self, val: bool) -> (r: Self)
        ensures
            r == (BoolQuery { disable_coord: Some(val), ..self }),
    {
        let mut s = self;
        s.disable_coord = Some(val);
        s
    }

}

impl BoolQuery {
    pub fn build(self) -> (r: Query)
        ensures
            r == Query::Bool(Box::new(self)),
    {
        Query::Bool(Box::new(self))
    }
}

impl Query {
    pub fn build_bool() -> (r: BoolQuery)
        ensures
            r == (BoolQuery { must: None, filter: None, should: None, must_not: None, minimum_should_match: None, boost: None, disable_coord: None }),
    {
        BoolQuery { must: None, filter: None, should: None, must_not: None, minimum_should_match: None, boost: None, disable_coord: None }
    }
}

/// DisMax query
#[derive(Debug)]
pub struct DisMaxQuery {
    pub tie_breaker: Option<Decimal>,
    pub boost: Option<Decimal>,
    pub queries: Vec<Query>,
}

/// The JSON form of a `DisMaxQuery`.
pub open spec fn dis_max_query_v(s: DisMaxQuery) -> JsonV
    decreases s, 2nat,
{
    JsonV::Object(
        opt_entry("tie_breaker"@, opt_v(s.tie_breaker))
            + opt_entry("boost"@, opt_v(s.boost))
            + one_entry("queries"@, JsonV::Array(queries_v(s.queries@)))
    )
}

/// Builds the JSON form of a `DisMaxQuery`.
pub fn dis_max_query_json(s: &DisMaxQuery) -> (r: Json)
    ensures
        jv(r) == dis_max_query_v(*s),
    decreases s, 2nat,
{
    let mut e: Vec<(String, Json)> = Vec::new();
    push_field(&mut e, "tie_breaker", &s.tie_breaker);
    push_field(&mut e, "boost", &s.boost);
    push_entry(&mut e, "queries", queries_json(&s.queries));
    assert(entries_view(e@) =~= dis_max_query_v(*s)->Object_0);
    object(e)
}

impl DisMaxQuery {
    pub fn with_tie_breaker(self, val: Decimal) -> (r: Self)
        ensures
            r == (DisMaxQuery { tie_breaker: Some(val), ..self }),
    {
        let mut s = self;
        s.tie_breaker = Some(val);
        s
    }

    pub fn with_boost(self, val: Decimal) -> (r: Self)
        ensures
            r == (DisMaxQuery { boost: Some(val), ..self }),
    {
        let mut s = self;
        s.boost = Some(val);
        s
    }

}

impl DisMaxQuery {
    pub fn build(self) -> (r: Query)
        ensures
            r == Query::DisMax(Box::new(self)),
    {
        Query::DisMax(Box::new(self))
    }
}

impl Query {
    pub fn build_dis_max(queries: Vec<Query>) -> (r: DisMaxQuery)
        ensures
            r == (DisMaxQuery { tie_breaker: None, boost: None, queries: queries }),
    {
        DisMaxQuery { tie_breaker: None, boost: None, queries: queries }
    }
}

/// Function Score query
#[derive(Debug)]
pub struct FunctionScoreQuery {
    pub query: Option<Query>,
    pub boost: Option<Decimal>,
    pub functions: Vec<Function>,
    pub max_boost: Option<Decimal>,
    pub score_mode: Option<ScoreMode>,
    pub boost_mode: Option<BoostMode>,
    pub min_score: Option<Decimal>,
}

/// The JSON form of a `FunctionScoreQuery`.
pub open spec fn function_score_query_v(s: FunctionScoreQuery) -> JsonV
    decreases s, 2nat,
{
    JsonV::Object(
        opt_entry("query"@, match s.query { Some(q) => Some(query_v(q)), None => None })
            + opt_entry("boost"@, opt_v(s.boost))
            + one_entry("functions"@, s.functions.json_v())
            + opt_entry("max_boost"@, opt_v(s.max_boost))
            + opt_entry("score_mode"@, opt_v(s.score_mode))
            + opt_entry("boost_mode"@, opt_v(s.boost_mode))
            + opt_entry("min_score"@, opt_v(s.min_score))
    )
}

/// Builds the JSON form of a `FunctionScoreQuery`.
pub fn function_score_query_json(s: &FunctionScoreQuery) -> (r: Json)
    ensures
        jv(r) == function_score_query_v(*s),
    decreases s, 2nat,
{
    let mut e: Vec<(String, Json)> = Vec::new();
    match &s.query {
            Some(q) => {
                push_entry(&mut e, "query", query_json(q));
            },
            None => {},
        }
    push_field(&mut e, "boost", &s.boost);
    push_entry(&mut e, "functions", s.functions.to_json());
    push_field(&mut e, "max_boost", &s.max_boost);
    push_field(&mut e, "score_mode", &s.score_mode);
    push_field(&mut e, "boost_mode", &s.boost_mode);
    push_field(&mut e, "min_score", &s.min_score);
    assert(entries_view(e@) =~= function_score_query_v(*s)->Object_0);
    object(e)
}

impl FunctionScoreQuery {
    pub fn with_query(self, val: Query) -> (r: Self)
        ensures
            r == (FunctionScoreQuery { query: Some(val), ..self }),
    {
        let mut s = self;
        s.query = Some(val);
        s
    }

    pub fn with_boost(self, val: Decimal) -> (r: Self)
        ensures
            r == (FunctionScoreQuery { boost: Some(val), ..self }),
    {
        let mut s = self;
        s.boost = Some(val);
        s
    }

    pub fn with_max_boost(self, val: Decimal) -> (r: Self)
        ensures
            r == (FunctionScoreQuery { max_boost: Some(val), ..self }),
    {
        let mut s = self;
        s.max_boost = Some(val);
        s
    }

    pub fn with_score_mode(self, val: ScoreMode) -> (r: Self)
        ensures
            r == (FunctionScoreQuery { score_mode: Some(val), ..self }),
    {
        let mut s = self;
        s.score_mode = Some(val);
        s
    }

    pub fn with_boost_mode(self, val: BoostMode) -> (r: Self)
        ensures
            r == (FunctionScoreQuery { boost_mode: Some(val), ..self }),
    {
        let mut s = self;
        s.boost_mode = Some(val);
        s
    }

    pub fn with_min_score(self, val: Decimal) -> (r: Self)
        ensures
            r == (FunctionScoreQuery { min_score: Some(val), ..self }),
    {
        let mut s = self;
        s.min_score = Some(val);
        s
    }

    pub fn with_functions(self, functions: Vec<Function>) -> (r: Self)
        ensures
            r == (FunctionScoreQuery { functions, ..self }),
    {
        FunctionScoreQuery { functions, ..self }
    }

    /// A single function.
    pub fn with_function(self, function: Function) -> (r: Self)
        ensures
            r.functions@ == seq![function],
            r == (FunctionScoreQuery { functions: r.functions, ..self }),
    {
        let mut functions: Vec<Function> = Vec::new();
        functions.push(function);
        FunctionScoreQuery { functions, ..self }
    }
}

impl FunctionScoreQuery {
    pub fn build(self) -> (r: Query)
        ensures
            r == Query::FunctionScore(Box::new(self)),
    {
        Query::FunctionScore(Box::new(self))
    }
}

impl Query {
    pub fn build_function_score() -> (r: FunctionScoreQuery)
        ensures
            r == (FunctionScoreQuery { query: None, boost: None, functions: r.functions, max_boost: None, score_mode: None, boost_mode: None, min_score: None }),
            r.functions@.len() == 0,
    {
        FunctionScoreQuery { query: None, boost: None, functions: Vec::new(), max_boost: None, score_mode: None, boost_mode: None, min_score: None }
    }
}

/// Boosting query
#[derive(Debug)]
pub struct BoostingQuery {
    pub positive: Option<Query>,
    pub negative: Option<Query>,
    pub negative_boost: Option<Decimal>,
}

/// The JSON form of a `BoostingQuery`.
pub open spec fn boosting_query_v(s: BoostingQuery) -> JsonV
    decreases s, 2nat,
{
    JsonV::Object(
        opt_entry("positive"@, match s.positive { Some(q) => Some(query_v(q)), None => None })
            + opt_entry("negative"@, match s.negative { Some(q) => Some(query_v(q)), None => None })
            + opt_entry("negative_boost"@, opt_v(s.negative_boost))
    )
}

/// Builds the JSON form of a `BoostingQuery`.
pub fn boosting_query_json(s: &BoostingQuery) -> (r: Json)
    ensures
        jv(r) == boosting_query_v(*s),
    decreases s, 2nat,
{
    let mut e: Vec<(String, Json)> = Vec::new();
    match &s.positive {
            Some(q) => {
                push_entry(&mut e, "positive", query_json(q));
            },
            None => {},
        }
    match &s.negative {
            Some(q) => {
                push_entry(&mut e, "negative", query_json(q));
            },
            None => {},
        }
    push_field(&mut e, "negative_boost", &s.negative_boost);
    assert(entries_view(e@) =~= boosting_query_v(*s)->Object_0);
    object(e)
}

impl BoostingQuery {
    pub fn with_positive(self, val: Query) -> (r: Self)
        ensures
            r == (BoostingQuery { positive: Some(val), ..self }),
    {
        let mut s = self;
        s.positive = Some(val);
        s
    }

    pub fn with_negative(self, val: Query) -> (r: Self)
        ensures
            r == (BoostingQuery { negative: Some(val), ..self }),
    {
        let mut s = self;
        s.negative = Some(val);
        s
    }

    pub fn with_negative_boost(self, val: Decimal) -> (r: Self)
        ensures
            r == (BoostingQuery { negative_boost: Some(val), ..self }),
    {
        let mut s = self;
        s.negative_boost = Some(val);
        s
    }

}

impl BoostingQuery {
    pub fn build(self) -> (r: Query)
        ensures
            r == Query::Boosting(Box::new(self)),
    {
        Query::Boosting(Box::new(self))
    }
}

impl Query {
    pub fn build_boosting() -> (r: BoostingQuery)
        ensures
            r == (BoostingQuery { positive: None, negative: None, negative_boost: None }),
    {
        BoostingQuery { positive: None, negative: None, negative_boost: None }
    }
}

/// Indices query
#[derive(Debug)]
pub struct IndicesQuery {
    pub indices: OneOrMany<String>,
    pub query: Query,
    pub no_match_query: Option<NoMatchQuery>,
}

/// The JSON form of a `IndicesQuery`.
pub open spec fn indices_query_v(s: IndicesQuery) -> JsonV
    decreases s, 2nat,
{
    JsonV::Object(
        one_entry("indices"@, s.indices.json_v())
            + one_entry("query"@, query_v(s.query))
            + opt_entry("no_match_query"@, match s.no_match_query { Some(m) => Some(no_match_query_v(m)), None => None })
    )
}

/// Builds the JSON form of a `IndicesQuery`.
pub fn indices_query_json(s: &IndicesQuery) -> (r: Json)
    ensures
        jv(r) == indices_query_v(*s),
    decreases s, 2nat,
{
    let mut e: Vec<(String, Json)> = Vec::new();
    push_entry(&mut e, "indices", s.indices.to_json());
    push_entry(&mut e, "query", query_json(&s.query));
    match &s.no_match_query {
            Some(m) => {
                push_entry(&mut e, "no_match_query", no_match_query_json(m));
            },
            None => {},
        }
    assert(entries_view(e@) =~= indices_query_v(*s)->Object_0);
    object(e)
}

impl IndicesQuery {
    pub fn with_no_match_query(self, val: NoMatchQuery) -> (r: Self)
        ensures
            r == (IndicesQuery { no_match_query: Some(val), ..self }),
    {
        let mut s = self;
        s.no_match_query = Some(val);
        s
    }

}

impl IndicesQuery {
    pub fn build(self) -> (r: Query)
        ensures
            r == Query::Indices(Box::new(self)),
    {
        Query::Indices(Box::new(self))
    }
}

impl Query {
    pub fn build_indices(indices: OneOrMany<String>, query: Query) -> (r: IndicesQuery)
        ensures
            r == (IndicesQuery { indices: indices, query: query, no_match_query: None }),
    {
        IndicesQuery { indices: indices, query: query, no_match_query: None }
    }
}

/// Options for the `no_match_query` option of IndicesQuery
#[derive(Debug)]
pub enum NoMatchQuery {
    Nothing,
    All,
    Query(Query),
}

} // verus!
