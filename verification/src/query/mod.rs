//! Implementation of the ElasticSearch Query DSL.
//!
//! The builder objects compose like the JSON they stand for:
//!
//! ```rust
//! use rs_es::query::Query;
//! use rs_es::units::JsonVal;
//!
//! let query = Query::build_bool()
//!     .with_must(vec![Query::build_term("field_a", JsonVal::from_str("value")).build(),
//!                     Query::build_range("field_b")
//!                           .with_gte(JsonVal::from_i64(5))
//!                           .with_lt(JsonVal::from_i64(10))
//!                           .build()].into())
//!     .build();
//! ```

use vstd::prelude::*;

use crate::json::{
    array, dec_display, elems_view, entries_view, int_text, int_to_string, decimal_to_string, jv, object,
    one_entry, opt_entry, opt_v, push_entry, push_field, seq_join, str_json, Decimal, Json, JsonV, ToJson,
};
use crate::units::OneOrMany;
use crate::util::{lemma_str_join_single_char, StrJoin};

pub mod compound;
pub mod full_text;
pub mod functions;
pub mod geo;
pub mod joining;
pub mod specialized;
pub mod term;

use self::compound::{
    bool_query_json, bool_query_v, boosting_query_json, boosting_query_v, constant_score_query_json,
    constant_score_query_v, dis_max_query_json, dis_max_query_v, function_score_query_json, function_score_query_v,
    indices_query_json, indices_query_v, BoolQuery, BoostingQuery, ConstantScoreQuery, DisMaxQuery,
    FunctionScoreQuery, IndicesQuery, NoMatchQuery,
};
use self::joining::{
    has_child_query_json, has_child_query_v, has_parent_query_json, has_parent_query_v, nested_query_json,
    nested_query_v, HasChildQuery, HasParentQuery, NestedQuery,
};

verus! {

/// A minimum-should-match that is a plain number or a percentage.
pub open spec fn msm_simple(m: MinimumShouldMatch) -> bool {
    m is Integer || m is Percentage
}

/// The text of a plain number or percentage: `3`, `25%`.
pub open spec fn msm_text(m: MinimumShouldMatch) -> Seq<char> {
    match m {
        MinimumShouldMatch::Integer(i) => int_text(i as int),
        MinimumShouldMatch::Percentage(d) => dec_display(d.mantissa_of(), d.scale_of()) + "%"@,
        _ => Seq::empty(),
    }
}

/// Minimum should match in the combination form `first<second`.  Both parts
/// are plain numbers or percentages (the only ones that have a text form).
#[derive(Debug)]
pub struct CombinationMinimumShouldMatch {
    pub(crate) first: MinimumShouldMatch,
    pub(crate) second: MinimumShouldMatch,
}

impl CombinationMinimumShouldMatch {
    #[verifier::type_invariant]
    pub(crate) closed spec fn inv(self) -> bool {
        msm_simple(self.first) && msm_simple(self.second)
    }

    /// The text `first<second`.
    pub closed spec fn text(self) -> Seq<char> {
        msm_text(self.first) + "<"@ + msm_text(self.second)
    }

    pub fn new(first: MinimumShouldMatch, second: MinimumShouldMatch) -> (r: Self)
        requires
            msm_simple(first),
            msm_simple(second),
        ensures
            r.text() == msm_text(first) + "<"@ + msm_text(second),
    {
        CombinationMinimumShouldMatch { first, second }
    }

    pub fn to_string(&self) -> (r: String)
        ensures
            r@ == self.text(),
    {
        proof {
            use_type_invariant(self);
        }
        let mut s = self.first.to_string();
        s.append("<");
        let t = self.second.to_string();
        s.append(t.as_str());
        s
    }
}

impl ToJson for CombinationMinimumShouldMatch {
    open spec fn json_v(&self) -> JsonV {
        JsonV::Str(self.text())
    }

    fn to_json(&self) -> (r: Json) {
        Json::Str(self.to_string())
    }
}

#[derive(Debug)]
pub enum MinimumShouldMatch {
    Integer(i64),
    Percentage(Decimal),
    Combination(Box<CombinationMinimumShouldMatch>),
    MultipleCombination(Vec<CombinationMinimumShouldMatch>),
    LowHigh(i64, i64),
}

impl MinimumShouldMatch {
    /// The text of a plain number or a percentage.
    pub fn to_string(&self) -> (r: String)
        requires
            msm_simple(*self),
        ensures
            r@ == msm_text(*self),
    {
        match self {
            MinimumShouldMatch::Integer(val) => int_to_string(*val),
            MinimumShouldMatch::Percentage(val) => {
                let mut s = decimal_to_string(*val);
                s.append("%");
                s
            },
            _ => String::new(),
        }
    }
}

/// The texts of several combinations.
pub open spec fn combination_texts(v: Seq<CombinationMinimumShouldMatch>) -> Seq<Seq<char>> {
    Seq::new(v.len(), |i: int| v[i].text())
}

/// Numbers are written as numbers, percentages and combinations as their text,
/// several combinations as their texts separated by spaces, and a low/high
/// pair as an object.
impl ToJson for MinimumShouldMatch {
    open spec fn json_v(&self) -> JsonV {
        match self {
            MinimumShouldMatch::Integer(i) => JsonV::Int(*i as int),
            MinimumShouldMatch::Percentage(_) => JsonV::Str(msm_text(*self)),
            MinimumShouldMatch::Combination(c) => JsonV::Str(c.text()),
            MinimumShouldMatch::MultipleCombination(v) => JsonV::Str(seq_join(combination_texts(v@), seq![' '])),
            MinimumShouldMatch::LowHigh(low, high) => JsonV::Object(
                one_entry("high_freq"@, JsonV::Int(*high as int)) + one_entry("low_freq"@, JsonV::Int(*low as int)),
            ),
        }
    }

    fn to_json(&self) -> (r: Json) {
        match self {
            MinimumShouldMatch::Integer(i) => Json::Int(*i),
            MinimumShouldMatch::Percentage(_) => Json::Str(self.to_string()),
            MinimumShouldMatch::Combination(c) => Json::Str(c.to_string()),
            MinimumShouldMatch::MultipleCombination(v) => {
                let mut texts: Vec<String> = Vec::new();
                let mut i: usize = 0;
                while i < v.len()
                    invariant
                        i <= v@.len(),
                        texts@.len() == i,
                        forall|k: int| 0 <= k < i ==> (#[trigger] texts@[k])@ == v@[k].text(),
                    decreases v.len() - i,
                {
                    texts.push(v[i].to_string());
                    i = i + 1;
                }
                assert(texts.parts_v() =~= combination_texts(v@));
                let r = StrJoin::join(&texts, " ");
                proof {
                    reveal_strlit(" ");
                    assert(" "@ =~= seq![' ']);
                    lemma_str_join_single_char(combination_texts(v@), ' ');
                }
                Json::Str(r)
            },
            MinimumShouldMatch::LowHigh(low, high) => {
                let mut e: Vec<(String, Json)> = Vec::new();
                push_entry(&mut e, "high_freq", Json::Int(*high));
                push_entry(&mut e, "low_freq", Json::Int(*low));
                assert(entries_view(e@) =~= self.json_v()->Object_0);
                object(e)
            },
        }
    }
}

/// Fuzziness
#[derive(Debug, Clone, Copy)]
pub enum Fuzziness {
    Auto,
    LevenshteinDistance(i64),
    Proportionate(Decimal),
}

impl ToJson for Fuzziness {
    open spec fn json_v(&self) -> JsonV {
        match self {
            Fuzziness::Auto => JsonV::Str("auto"@),
            Fuzziness::LevenshteinDistance(d) => JsonV::Int(*d as int),
            Fuzziness::Proportionate(p) => p.json_v(),
        }
    }

    fn to_json(&self) -> (r: Json) {
        match self {
            Fuzziness::Auto => str_json("auto"),
            Fuzziness::LevenshteinDistance(d) => Json::Int(*d),
            Fuzziness::Proportionate(p) => p.to_json(),
        }
    }
}

/// A flag with a name, as the flags of several queries have.
pub trait FlagName {
    spec fn name_v(&self) -> Seq<char>;

    fn name(&self) -> (r: &'static str)
        ensures
            r@ == self.name_v(),
    ;
}

/// Flags - multiple operations can take a set of flags, written as their
/// names separated by `|`.
#[derive(Debug)]
pub struct Flags<A>(pub Vec<A>);

impl<A: FlagName> Flags<A> {
    pub open spec fn names_v(&self) -> Seq<Seq<char>> {
        Seq::new(self.0@.len(), |i: int| self.0@[i].name_v())
    }

    pub fn new() -> (r: Self)
        ensures
            r.0@.len() == 0,
    {
        Flags(Vec::new())
    }

    pub fn from_vec(flags: Vec<A>) -> (r: Self)
        ensures
            r.0@ == flags@,
    {
        Flags(flags)
    }

    pub fn add_flag(self, flag: A) -> (r: Self)
        ensures
            r.0@ == self.0@.push(flag),
    {
        let mut s = self;
        s.0.push(flag);
        s
    }
}

impl<A: FlagName> ToJson for Flags<A> {
    open spec fn json_v(&self) -> JsonV {
        JsonV::Str(seq_join(self.names_v(), seq!['|']))
    }

    fn to_json(&self) -> (r: Json) {
        let mut names: Vec<&str> = Vec::new();
        let mut i: usize = 0;
        while i < self.0.len()
            invariant
                i <= self.0@.len(),
                names@.len() == i,
                forall|k: int| 0 <= k < i ==> (#[trigger] names@[k])@ == self.0@[k].name_v(),
            decreases self.0.len() - i,
        {
            names.push(self.0[i].name());
            i = i + 1;
        }
        assert(names.parts_v() =~= self.names_v());
        let r = StrJoin::join(&names, "|");
        proof {
            reveal_strlit("|");
            assert("|"@ =~= seq!['|']);
            lemma_str_join_single_char(self.names_v(), '|');
        }
        Json::Str(r)
    }
}

/// ScoreMode
#[derive(Debug, Clone, Copy, PartialEq, Eq)]
pub enum ScoreMode {
    Multiply,
    Sum,
    Avg,
    First,
    Max,
    Min,
}

/// Law: each value is written in JSON by its ElasticSearch name (`multiply`, `sum`, `avg`,
/// `first`, `max`, `min`, in the order of the variants), and different values are written
/// differently.
pub proof fn lemma_score_mode_json_names(x: ScoreMode)
    ensures
        x is Multiply ==> x.json_v() == JsonV::Str("multiply"@),
        x is Sum ==> x.json_v() == JsonV::Str("sum"@),
        x is Avg ==> x.json_v() == JsonV::Str("avg"@),
        x is First ==> x.json_v() == JsonV::Str("first"@),
        x is Max ==> x.json_v() == JsonV::Str("max"@),
        x is Min ==> x.json_v() == JsonV::Str("min"@),
        forall|a: ScoreMode, b: ScoreMode| a != b ==> #[trigger] a.json_v() != #[trigger] b.json_v(),
{
    reveal_strlit("avg");
    assert("avg"@.len() == 3 && "avg"@[0] == 'a' && "avg"@[1] == 'v' && "avg"@[2] == 'g');
    reveal_strlit("first");
    assert("first"@.len() == 5 && "first"@[0] == 'f' && "first"@[1] == 'i' && "first"@[2] == 'r' && "first"@[3] == 's' && "first"@[4] == 't');
    reveal_strlit("max");
    assert("max"@.len() == 3 && "max"@[0] == 'm' && "max"@[1] == 'a' && "max"@[2] == 'x');
    reveal_strlit("min");
    assert("min"@.len() == 3 && "min"@[0] == 'm' && "min"@[1] == 'i' && "min"@[2] == 'n');
    reveal_strlit("multiply");
    assert("multiply"@.len() == 8 && "multiply"@[0] == 'm' && "multiply"@[1] == 'u' && "multiply"@[2] == 'l' && "multiply"@[3] == 't' && "multiply"@[4] == 'i' && "multiply"@[5] == 'p' && "multiply"@[6] == 'l' && "multiply"@[7] == 'y');
    reveal_strlit("sum");
    assert("sum"@.len() == 3 && "sum"@[0] == 's' && "sum"@[1] == 'u' && "sum"@[2] == 'm');
}

impl ToJson for ScoreMode {
    open spec fn json_v(&self) -> JsonV {
        JsonV::Str(
            match self {
                ScoreMode::Multiply => "multiply"@,
                ScoreMode::Sum => "sum"@,
                ScoreMode::Avg => "avg"@,
                ScoreMode::First => "first"@,
                ScoreMode::Max => "max"@,
                ScoreMode::Min => "min"@,
            },
        )
    }

    fn to_json(&self) -> (r: Json) {
        match self {
            ScoreMode::Multiply => str_json("multiply"),
            ScoreMode::Sum => str_json("sum"),
            ScoreMode::Avg => str_json("avg"),
            ScoreMode::First => str_json("first"),
            ScoreMode::Max => str_json("max"),
            ScoreMode::Min => str_json("min"),
        }
    }
}

/// Query represents all available queries
#[derive(Debug)]
pub enum Query {
    MatchAll(Box<MatchAllQuery>),
    // Full-text queries
    Match(Box<full_text::MatchQuery>),
    MultiMatch(Box<full_text::MultiMatchQuery>),
    Common(Box<full_text::CommonQuery>),
    QueryString(Box<full_text::QueryStringQuery>),
    SimpleQueryString(Box<full_text::SimpleQueryStringQuery>),
    // Term level queries
    Term(Box<term::TermQuery>),
    Terms(Box<term::TermsQuery>),
    Range(Box<term::RangeQuery>),
    Exists(Box<term::ExistsQuery>),
    Prefix(Box<term::PrefixQuery>),
    Wildcard(Box<term::WildcardQuery>),
    Regexp(Box<term::RegexpQuery>),
    Fuzzy(Box<term::FuzzyQuery>),
    Type(Box<term::TypeQuery>),
    Ids(Box<term::IdsQuery>),
    // Compound queries
    ConstantScore(Box<ConstantScoreQuery>),
    Bool(Box<BoolQuery>),
    DisMax(Box<DisMaxQuery>),
    FunctionScore(Box<FunctionScoreQuery>),
    Boosting(Box<BoostingQuery>),
    Indices(Box<IndicesQuery>),
    // Joining queries
    Nested(Box<NestedQuery>),
    HasChild(Box<HasChildQuery>),
    HasParent(Box<HasParentQuery>),
    // Geo queries
    GeoShape(Box<geo::GeoShapeQuery>),
    GeoBoundingBox(Box<geo::GeoBoundingBoxQuery>),
    GeoDistance(Box<geo::GeoDistanceQuery>),
    GeoPolygon(Box<geo::GeoPolygonQuery>),
    GeohashCell(Box<geo::GeohashCellQuery>),
    // Specialized queries
    MoreLikeThis(Box<specialized::MoreLikeThisQuery>),
}

impl Query {
    /// The default query matches everything.
    pub fn default() -> (r: Query)
        ensures
            query_v(r) == JsonV::Object(one_entry("match_all"@, JsonV::Object(Seq::empty()))),
    {
        let r = Query::MatchAll(Box::new(MatchAllQuery { boost: None }));
        assert(opt_entry("boost"@, opt_v(None::<Decimal>)) =~= Seq::<(Seq<char>, JsonV)>::empty());
        r
    }
}

/// The JSON form of a query: an object whose one key names the kind of query.
pub open spec fn query_v(q: Query) -> JsonV
    decreases q, 3nat,
{
    JsonV::Object(
        match q {
            Query::MatchAll(b) => one_entry("match_all"@, b.json_v()),
            Query::Match(b) => one_entry("match"@, b.json_v()),
            Query::MultiMatch(b) => one_entry("multi_match"@, b.json_v()),
            Query::Common(b) => one_entry("common"@, b.json_v()),
            Query::QueryString(b) => one_entry("query_string"@, b.json_v()),
            Query::SimpleQueryString(b) => one_entry("simple_query_string"@, b.json_v()),
            Query::Term(b) => one_entry("term"@, b.json_v()),
            Query::Terms(b) => one_entry("terms"@, b.json_v()),
            Query::Range(b) => one_entry("range"@, b.json_v()),
            Query::Exists(b) => one_entry("exists"@, b.json_v()),
            Query::Prefix(b) => one_entry("prefix"@, b.json_v()),
            Query::Wildcard(b) => one_entry("wildcard"@, b.json_v()),
            Query::Regexp(b) => one_entry("regexp"@, b.json_v()),
            Query::Fuzzy(b) => one_entry("fuzzy"@, b.json_v()),
            Query::Type(b) => one_entry("type"@, b.json_v()),
            Query::Ids(b) => one_entry("ids"@, b.json_v()),
            Query::ConstantScore(b) => one_entry("constant_score"@, constant_score_query_v(*b)),
            Query::Bool(b) => one_entry("bool"@, bool_query_v(*b)),
            Query::DisMax(b) => one_entry("dis_max"@, dis_max_query_v(*b)),
            Query::FunctionScore(b) => one_entry("function_score"@, function_score_query_v(*b)),
            Query::Boosting(b) => one_entry("boosting"@, boosting_query_v(*b)),
            Query::Indices(b) => one_entry("indices"@, indices_query_v(*b)),
            Query::Nested(b) => one_entry("nested"@, nested_query_v(*b)),
            Query::HasChild(b) => one_entry("has_child"@, has_child_query_v(*b)),
            Query::HasParent(b) => one_entry("has_parent"@, has_parent_query_v(*b)),
            Query::GeoShape(b) => one_entry("geo_shape"@, b.json_v()),
            Query::GeoBoundingBox(b) => one_entry("geo_bounding_box"@, b.json_v()),
            Query::GeoDistance(b) => one_entry("geo_distance"@, b.json_v()),
            Query::GeoPolygon(b) => one_entry("geo_polygon"@, b.json_v()),
            Query::GeohashCell(b) => one_entry("geohash_cell"@, b.json_v()),
            Query::MoreLikeThis(b) => one_entry("more_like_this"@, b.json_v()),
        },
    )
}

/// Builds the JSON form of a query.
pub fn query_json(q: &Query) -> (r: Json)
    ensures
        jv(r) == query_v(*q),
    decreases q, 3nat,
{
    let mut e: Vec<(String, Json)> = Vec::new();
    match q {
        Query::MatchAll(b) => push_entry(&mut e, "match_all", b.to_json()),
        Query::Match(b) => push_entry(&mut e, "match", b.to_json()),
        Query::MultiMatch(b) => push_entry(&mut e, "multi_match", b.to_json()),
        Query::Common(b) => push_entry(&mut e, "common", b.to_json()),
        Query::QueryString(b) => push_entry(&mut e, "query_string", b.to_json()),
        Query::SimpleQueryString(b) => push_entry(&mut e, "simple_query_string", b.to_json()),
        Query::Term(b) => push_entry(&mut e, "term", b.to_json()),
        Query::Terms(b) => push_entry(&mut e, "terms", b.to_json()),
        Query::Range(b) => push_entry(&mut e, "range", b.to_json()),
        Query::Exists(b) => push_entry(&mut e, "exists", b.to_json()),
        Query::Prefix(b) => push_entry(&mut e, "prefix", b.to_json()),
        Query::Wildcard(b) => push_entry(&mut e, "wildcard", b.to_json()),
        Query::Regexp(b) => push_entry(&mut e, "regexp", b.to_json()),
        Query::Fuzzy(b) => push_entry(&mut e, "fuzzy", b.to_json()),
        Query::Type(b) => push_entry(&mut e, "type", b.to_json()),
        Query::Ids(b) => push_entry(&mut e, "ids", b.to_json()),
        Query::ConstantScore(b) => push_entry(&mut e, "constant_score", constant_score_query_json(b)),
        Query::Bool(b) => push_entry(&mut e, "bool", bool_query_json(b)),
        Query::DisMax(b) => push_entry(&mut e, "dis_max", dis_max_query_json(b)),
        Query::FunctionScore(b) => push_entry(&mut e, "function_score", function_score_query_json(b)),
        Query::Boosting(b) => push_entry(&mut e, "boosting", boosting_query_json(b)),
        Query::Indices(b) => push_entry(&mut e, "indices", indices_query_json(b)),
        Query::Nested(b) => push_entry(&mut e, "nested", nested_query_json(b)),
        Query::HasChild(b) => push_entry(&mut e, "has_child", has_child_query_json(b)),
        Query::HasParent(b) => push_entry(&mut e, "has_parent", has_parent_query_json(b)),
        Query::GeoShape(b) => push_entry(&mut e, "geo_shape", b.to_json()),
        Query::GeoBoundingBox(b) => push_entry(&mut e, "geo_bounding_box", b.to_json()),
        Query::GeoDistance(b) => push_entry(&mut e, "geo_distance", b.to_json()),
        Query::GeoPolygon(b) => push_entry(&mut e, "geo_polygon", b.to_json()),
        Query::GeohashCell(b) => push_entry(&mut e, "geohash_cell", b.to_json()),
        Query::MoreLikeThis(b) => push_entry(&mut e, "more_like_this", b.to_json()),
    }
    assert(entries_view(e@) =~= query_v(*q)->Object_0);
    object(e)
}

impl ToJson for Query {
    open spec fn json_v(&self) -> JsonV {
        query_v(*self)
    }

    fn to_json(&self) -> (r: Json) {
        query_json(self)
    }
}

/// A borrowed query is written as the query.
impl<'a> ToJson for &'a Query {
    open spec fn json_v(&self) -> JsonV {
        query_v(**self)
    }

    fn to_json(&self) -> (r: Json) {
        query_json(*self)
    }
}

/// The JSON forms of a list of queries.
pub open spec fn queries_v(s: Seq<Query>) -> Seq<JsonV>
    decreases s, 0nat,
{
    Seq::new(
        s.len(),
        |i: int|
            if 0 <= i < s.len() {
                proof {
                    assert(decreases_to!(s => s[i]));
                }
                query_v(s[i])
            } else {
                JsonV::Null
            },
    )
}

/// Builds the JSON array of a list of queries.
pub fn queries_json(v: &Vec<Query>) -> (r: Json)
    ensures
        jv(r) == JsonV::Array(queries_v(v@)),
    decreases v, 0nat,
{
    let mut out: Vec<Json> = Vec::new();
    let mut i: usize = 0;
    while i < v.len()
        invariant
            i <= v.len(),
            out@.len() == i,
            forall|k: int| 0 <= k < i ==> jv(#[trigger] out@[k]) == query_v(v@[k]),
        decreases v.len() - i,
    {
        proof {
            assert(decreases_to!(v => v@));
            assert(decreases_to!(v@ => v@[i as int]));
        }
        out.push(query_json(&v[i]));
        i = i + 1;
    }
    let r = array(out);
    assert(elems_view(out@) =~= queries_v(v@));
    r
}

/// One query is written as the query, several as an array.
pub open spec fn one_or_many_query_v(m: OneOrMany<Query>) -> JsonV
    decreases m, 1nat,
{
    match m {
        OneOrMany::One(q) => query_v(q),
        OneOrMany::Many(v) => JsonV::Array(queries_v(v@)),
    }
}

pub fn one_or_many_query_json(m: &OneOrMany<Query>) -> (r: Json)
    ensures
        jv(r) == one_or_many_query_v(*m),
    decreases m, 1nat,
{
    match m {
        OneOrMany::One(q) => query_json(q),
        OneOrMany::Many(v) => queries_json(v),
    }
}

/// `none`, `all`, or the query.
pub open spec fn no_match_query_v(m: NoMatchQuery) -> JsonV
    decreases m, 1nat,
{
    match m {
        NoMatchQuery::Nothing => JsonV::Str("none"@),
        NoMatchQuery::All => JsonV::Str("all"@),
        NoMatchQuery::Query(q) => query_v(q),
    }
}

pub fn no_match_query_json(m: &NoMatchQuery) -> (r: Json)
    ensures
        jv(r) == no_match_query_v(*m),
    decreases m, 1nat,
{
    match m {
        NoMatchQuery::Nothing => str_json("none"),
        NoMatchQuery::All => str_json("all"),
        NoMatchQuery::Query(q) => query_json(q),
    }
}

/// Match all query
#[derive(Debug)]
pub struct MatchAllQuery {
    pub boost: Option<Decimal>,
}

impl ToJson for MatchAllQuery {
    open spec fn json_v(&self) -> JsonV {
        JsonV::Object(opt_entry("boost"@, opt_v(self.boost)))
    }

    fn to_json(&self) -> (r: Json) {
        let mut e: Vec<(String, Json)> = Vec::new();
        push_field(&mut e, "boost", &self.boost);
        assert(entries_view(e@) =~= self.json_v()->Object_0);
        object(e)
    }
}

impl Query {
    pub fn build_match_all() -> (r: MatchAllQuery)
        ensures
            r.boost is None,
    {
        MatchAllQuery { boost: None }
    }
}

impl MatchAllQuery {
    pub fn with_boost(self, val: Decimal) -> (r: Self)
        ensures
            r.boost == Some(val),
    {
        MatchAllQuery { boost: Some(val) }
    }

    pub fn build(self) -> (r: Query)
        ensures
            r == Query::MatchAll(Box::new(self)),
    {
        Query::MatchAll(Box::new(self))
    }
}

/// Law: the JSON form of every query is an object with exactly one entry,
/// whose key names the kind of query.
pub proof fn lemma_query_one_key(q: Query)
    ensures
        query_v(q) is Object,
        query_v(q)->Object_0.len() == 1,
{
}

/// Law: a query is written as an object with one entry, whose name is the
/// ElasticSearch name of the kind of query (`term` for a term query, `terms`
/// for a terms query, `bool` for a bool query, and so on for each kind).
pub proof fn lemma_query_kind_names(q: Query)
    ensures
        query_v(q) is Object,
        query_v(q)->Object_0.len() == 1,
        q is MatchAll ==> query_v(q)->Object_0[0].0 == "match_all"@,
        q is Match ==> query_v(q)->Object_0[0].0 == "match"@,
        q is MultiMatch ==> query_v(q)->Object_0[0].0 == "multi_match"@,
        q is Common ==> query_v(q)->Object_0[0].0 == "common"@,
        q is QueryString ==> query_v(q)->Object_0[0].0 == "query_string"@,
        q is SimpleQueryString ==> query_v(q)->Object_0[0].0 == "simple_query_string"@,
        q is Term ==> query_v(q)->Object_0[0].0 == "term"@,
        q is Terms ==> query_v(q)->Object_0[0].0 == "terms"@,
        q is Range ==> query_v(q)->Object_0[0].0 == "range"@,
        q is Exists ==> query_v(q)->Object_0[0].0 == "exists"@,
        q is Prefix ==> query_v(q)->Object_0[0].0 == "prefix"@,
        q is Wildcard ==> query_v(q)->Object_0[0].0 == "wildcard"@,
        q is Regexp ==> query_v(q)->Object_0[0].0 == "regexp"@,
        q is Fuzzy ==> query_v(q)->Object_0[0].0 == "fuzzy"@,
        q is Type ==> query_v(q)->Object_0[0].0 == "type"@,
        q is Ids ==> query_v(q)->Object_0[0].0 == "ids"@,
        q is ConstantScore ==> query_v(q)->Object_0[0].0 == "constant_score"@,
        q is Bool ==> query_v(q)->Object_0[0].0 == "bool"@,
        q is DisMax ==> query_v(q)->Object_0[0].0 == "dis_max"@,
        q is FunctionScore ==> query_v(q)->Object_0[0].0 == "function_score"@,
        q is Boosting ==> query_v(q)->Object_0[0].0 == "boosting"@,
        q is Indices ==> query_v(q)->Object_0[0].0 == "indices"@,
        q is Nested ==> query_v(q)->Object_0[0].0 == "nested"@,
        q is HasChild ==> query_v(q)->Object_0[0].0 == "has_child"@,
        q is HasParent ==> query_v(q)->Object_0[0].0 == "has_parent"@,
        q is GeoShape ==> query_v(q)->Object_0[0].0 == "geo_shape"@,
        q is GeoBoundingBox ==> query_v(q)->Object_0[0].0 == "geo_bounding_box"@,
        q is GeoDistance ==> query_v(q)->Object_0[0].0 == "geo_distance"@,
        q is GeoPolygon ==> query_v(q)->Object_0[0].0 == "geo_polygon"@,
        q is GeohashCell ==> query_v(q)->Object_0[0].0 == "geohash_cell"@,
        q is MoreLikeThis ==> query_v(q)->Object_0[0].0 == "more_like_this"@,
{
}

} // verus!
