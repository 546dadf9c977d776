//! Implementations of full-text ES queries

use vstd::prelude::*;

use crate::json::{
    entries_view, object, one_entry, opt_entry, opt_v, push_entry, push_field, str_json, Decimal, FieldBased,
    Json, JsonV, NoOuter, ToJson,
};
use crate::units::JsonVal;
use super::{FlagName, Flags, Fuzziness, MinimumShouldMatch, Query};
use crate::operations::search::highlight::Highlight;

verus! {

/// MatchType - the type of Match query
#[derive(Debug, Clone, Copy, PartialEq, Eq)]
pub enum MatchType {
    Boolean,
    Phrase,
    PhrasePrefix,
}

/// Law: each value is written by its ElasticSearch name (`boolean`, `phrase`, `phrase_prefix`,
/// in the order of the variants), and different values are written differently.
pub proof fn lemma_match_type_names(x: MatchType)
    ensures
        x is Boolean ==> x.text() == "boolean"@,
        x is Phrase ==> x.text() == "phrase"@,
        x is PhrasePrefix ==> x.text() == "phrase_prefix"@,
        forall|a: MatchType, b: MatchType| a != b ==> #[trigger] a.text() != #[trigger] b.text(),
{
    reveal_strlit("boolean");
    assert("boolean"@.len() == 7 && "boolean"@[0] == 'b' && "boolean"@[1] == 'o' && "boolean"@[2] == 'o' && "boolean"@[3] == 'l' && "boolean"@[4] == 'e' && "boolean"@[5] == 'a' && "boolean"@[6] == 'n');
    reveal_strlit("phrase");
    assert("phrase"@.len() == 6 && "phrase"@[0] == 'p' && "phrase"@[1] == 'h' && "phrase"@[2] == 'r' && "phrase"@[3] == 'a' && "phrase"@[4] == 's' && "phrase"@[5] == 'e');
    reveal_strlit("phrase_prefix");
    assert("phrase_prefix"@.len() == 13 && "phrase_prefix"@[0] == 'p' && "phrase_prefix"@[1] == 'h' && "phrase_prefix"@[2] == 'r' && "phrase_prefix"@[3] == 'a' && "phrase_prefix"@[4] == 's' && "phrase_prefix"@[5] == 'e' && "phrase_prefix"@[6] == '_' && "phrase_prefix"@[7] == 'p' && "phrase_prefix"@[8] == 'r' && "phrase_prefix"@[9] == 'e' && "phrase_prefix"@[10] == 'f' && "phrase_prefix"@[11] == 'i' && "phrase_prefix"@[12] == 'x');
}

impl MatchType {
    /// The name written for this value.
    pub open spec fn text(self) -> Seq<char> {
        match self {
            MatchType::Boolean => "boolean"@,
            MatchType::Phrase => "phrase"@,
            MatchType::PhrasePrefix => "phrase_prefix"@,
        }
    }

    pub fn as_str(&self) -> (r: &'static str)
        ensures
            r@ == self.text(),
    {
        match self {
            MatchType::Boolean => "boolean",
            MatchType::Phrase => "phrase",
            MatchType::PhrasePrefix => "phrase_prefix",
        }
    }
}

impl ToJson for MatchType {
    open spec fn json_v(&self) -> JsonV {
        JsonV::Str(self.text())
    }

    fn to_json(&self) -> (r: Json) {
        str_json(self.as_str())
    }
}

/// Zero Terms Query
#[derive(Debug, Clone, Copy, PartialEq, Eq)]
pub enum ZeroTermsQuery {
    Nothing,
    All,
}

/// Law: each value is written by its ElasticSearch name (`none`, `all`, in the order of the
/// variants), and different values are written differently.
pub proof fn lemma_zero_terms_query_names(x: ZeroTermsQuery)
    ensures
        x is Nothing ==> x.text() == "none"@,
        x is All ==> x.text() == "all"@,
        forall|a: ZeroTermsQuery, b: ZeroTermsQuery| a != b ==> #[trigger] a.text() != #[trigger] b.text(),
{
    reveal_strlit("all");
    assert("all"@.len() == 3 && "all"@[0] == 'a' && "all"@[1] == 'l' && "all"@[2] == 'l');
    reveal_strlit("none");
    assert("none"@.len() == 4 && "none"@[0] == 'n' && "none"@[1] == 'o' && "none"@[2] == 'n' && "none"@[3] == 'e');
}

impl ZeroTermsQuery {
    /// The name written for this value.
    pub open spec fn text(self) -> Seq<char> {
        match self {
            ZeroTermsQuery::Nothing => "none"@,
            ZeroTermsQuery::All => "all"@,
        }
    }

    pub fn as_str(&self) -> (r: &'static str)
        ensures
            r@ == self.text(),
    {
        match self {
            ZeroTermsQuery::Nothing => "none",
            ZeroTermsQuery::All => "all",
        }
    }
}

impl ToJson for ZeroTermsQuery {
    open spec fn json_v(&self) -> JsonV {
        JsonV::Str(self.text())
    }

    fn to_json(&self) -> (r: Json) {
        str_json(self.as_str())
    }
}

/// MatchQueryType - the type of the multi Match Query
#[derive(Debug, Clone, Copy, PartialEq, Eq)]
pub enum MatchQueryType {
    BestFields,
    MostFields,
    CrossFields,
    Phrase,
    PhrasePrefix,
}

/// Law: each value is written by its ElasticSearch name (`best_fields`, `most_fields`,
/// `cross_fields`, `phrase`, `phrase_prefix`, in the order of the variants), and different
/// values are written differently.
pub proof fn lemma_match_query_type_names(x: MatchQueryType)
    ensures
        x is BestFields ==> x.text() == "best_fields"@,
        x is MostFields ==> x.text() == "most_fields"@,
        x is CrossFields ==> x.text() == "cross_fields"@,
        x is Phrase ==> x.text() == "phrase"@,
        x is PhrasePrefix ==> x.text() == "phrase_prefix"@,
        forall|a: MatchQueryType, b: MatchQueryType| a != b ==> #[trigger] a.text() != #[trigger] b.text(),
{
    reveal_strlit("best_fields");
    assert("best_fields"@.len() == 11 && "best_fields"@[0] == 'b' && "best_fields"@[1] == 'e' && "best_fields"@[2] == 's' && "best_fields"@[3] == 't' && "best_fields"@[4] == '_' && "best_fields"@[5] == 'f' && "best_fields"@[6] == 'i' && "best_fields"@[7] == 'e' && "best_fields"@[8] == 'l' && "best_fields"@[9] == 'd' && "best_fields"@[10] == 's');
    reveal_strlit("cross_fields");
    assert("cross_fields"@.len() == 12 && "cross_fields"@[0] == 'c' && "cross_fields"@[1] == 'r' && "cross_fields"@[2] == 'o' && "cross_fields"@[3] == 's' && "cross_fields"@[4] == 's' && "cross_fields"@[5] == '_' && "cross_fields"@[6] == 'f' && "cross_fields"@[7] == 'i' && "cross_fields"@[8] == 'e' && "cross_fields"@[9] == 'l' && "cross_fields"@[10] == 'd' && "cross_fields"@[11] == 's');
    reveal_strlit("most_fields");
    assert("most_fields"@.len() == 11 && "most_fields"@[0] == 'm' && "most_fields"@[1] == 'o' && "most_fields"@[2] == 's' && "most_fields"@[3] == 't' && "most_fields"@[4] == '_' && "most_fields"@[5] == 'f' && "most_fields"@[6] == 'i' && "most_fields"@[7] == 'e' && "most_fields"@[8] == 'l' && "most_fields"@[9] == 'd' && "most_fields"@[10] == 's');
    reveal_strlit("phrase");
    assert("phrase"@.len() == 6 && "phrase"@[0] == 'p' && "phrase"@[1] == 'h' && "phrase"@[2] == 'r' && "phrase"@[3] == 'a' && "phrase"@[4] == 's' && "phrase"@[5] == 'e');
    reveal_strlit("phrase_prefix");
    assert("phrase_prefix"@.len() == 13 && "phrase_prefix"@[0] == 'p' && "phrase_prefix"@[1] == 'h' && "phrase_prefix"@[2] == 'r' && "phrase_prefix"@[3] == 'a' && "phrase_prefix"@[4] == 's' && "phrase_prefix"@[5] == 'e' && "phrase_prefix"@[6] == '_' && "phrase_prefix"@[7] == 'p' && "phrase_prefix"@[8] == 'r' && "phrase_prefix"@[9] == 'e' && "phrase_prefix"@[10] == 'f' && "phrase_prefix"@[11] == 'i' && "phrase_prefix"@[12] == 'x');
}

impl MatchQueryType {
    /// The name written for this value.
    pub open spec fn text(self) -> Seq<char> {
        match self {
            MatchQueryType::BestFields => "best_fields"@,
            MatchQueryType::MostFields => "most_fields"@,
            MatchQueryType::CrossFields => "cross_fields"@,
            MatchQueryType::Phrase => "phrase"@,
            MatchQueryType::PhrasePrefix => "phrase_prefix"@,
        }
    }

    pub fn as_str(&self) -> (r: &'static str)
        ensures
            r@ == self.text(),
    {
        match self {
            MatchQueryType::BestFields => "best_fields",
            MatchQueryType::MostFields => "most_fields",
            MatchQueryType::CrossFields => "cross_fields",
            MatchQueryType::Phrase => "phrase",
            MatchQueryType::PhrasePrefix => "phrase_prefix",
        }
    }
}

impl ToJson for MatchQueryType {
    open spec fn json_v(&self) -> JsonV {
        JsonV::Str(self.text())
    }

    fn to_json(&self) -> (r: Json) {
        str_json(self.as_str())
    }
}

#[derive(Debug)]
pub struct MatchQueryInner {
    pub query: JsonVal,
    pub match_type: Option<MatchType>,
    pub cutoff_frequency: Option<Decimal>,
    pub lenient: Option<bool>,
    pub analyzer: Option<String>,
    pub boost: Option<Decimal>,
    pub operator: Option<String>,
    pub minimum_should_match: Option<MinimumShouldMatch>,
    pub fuzziness: Option<Fuzziness>,
    pub prefix_length: Option<u64>,
    pub max_expansions: Option<u64>,
    pub rewrite: Option<String>,
    pub zero_terms_query: Option<ZeroTermsQuery>,
    pub slop: Option<i64>,
    pub highlight: Option<Highlight>,
}

impl ToJson for MatchQueryInner {
    open spec fn json_v(&self) -> JsonV {
        JsonV::Object(
            one_entry("query"@, self.query.json_v())
            + opt_entry("type"@, opt_v(self.match_type))
            + opt_entry("cutoff_frequency"@, opt_v(self.cutoff_frequency))
            + opt_entry("lenient"@, opt_v(self.lenient))
            + opt_entry("analyzer"@, opt_v(self.analyzer))
            + opt_entry("boost"@, opt_v(self.boost))
            + opt_entry("operator"@, opt_v(self.operator))
            + opt_entry("minimum_should_match"@, opt_v(self.minimum_should_match))
            + opt_entry("fuzziness"@, opt_v(self.fuzziness))
            + opt_entry("prefix_length"@, opt_v(self.prefix_length))
            + opt_entry("max_expansions"@, opt_v(self.max_expansions))
            + opt_entry("rewrite"@, opt_v(self.rewrite))
            + opt_entry("zero_terms_query"@, opt_v(self.zero_terms_query))
            + opt_entry("slop"@, opt_v(self.slop))
            + opt_entry("highlight"@, opt_v(self.highlight))
        )
    }

    fn to_json(&self) -> (r: Json) {
        let mut e: Vec<(String, Json)> = Vec::new();
        push_entry(&mut e, "query", self.query.to_json());
        push_field(&mut e, "type", &self.match_type);
        push_field(&mut e, "cutoff_frequency", &self.cutoff_frequency);
        push_field(&mut e, "lenient", &self.lenient);
        push_field(&mut e, "analyzer", &self.analyzer);
        push_field(&mut e, "boost", &self.boost);
        push_field(&mut e, "operator", &self.operator);
        push_field(&mut e, "minimum_should_match", &self.minimum_should_match);
        push_field(&mut e, "fuzziness", &self.fuzziness);
        push_field(&mut e, "prefix_length", &self.prefix_length);
        push_field(&mut e, "max_expansions", &self.max_expansions);
        push_field(&mut e, "rewrite", &self.rewrite);
        push_field(&mut e, "zero_terms_query", &self.zero_terms_query);
        push_field(&mut e, "slop", &self.slop);
        push_field(&mut e, "highlight", &self.highlight);
        assert(entries_view(e@) =~= self.json_v()->Object_0);
        object(e)
    }
}

/// Match query
#[derive(Debug)]
pub struct MatchQuery(pub FieldBased<String, MatchQueryInner, NoOuter>);

impl MatchQuery {
    pub fn with_cutoff_frequency(self, val: Decimal) -> (r: Self)
        ensures
            r.0.inner == (MatchQueryInner { cutoff_frequency: Some(val), ..self.0.inner }),
            r.0.field == self.0.field,
            r.0.outer == self.0.outer,
    {
        let mut s = self;
        s.0.inner.cutoff_frequency = Some(val);
        s
    }

    pub fn with_lenient(self, val: bool) -> (r: Self)
        ensures
            r.0.inner == (MatchQueryInner { lenient: Some(val), ..self.0.inner }),
            r.0.field == self.0.field,
            r.0.outer == self.0.outer,
    {
        let mut s = self;
        s.0.inner.lenient = Some(val);
        s
    }

    pub fn with_analyzer(self, val: &str) -> (r: Self)
        ensures
            r.0.inner.analyzer is Some,
            r.0.inner.analyzer.unwrap()@ == val@,
            r.0.inner == (MatchQueryInner { analyzer: r.0.inner.analyzer, ..self.0.inner }),
            r.0.field == self.0.field,
            r.0.outer == self.0.outer,
    {
        let mut s = self;
        s.0.inner.analyzer = Some(val.to_owned());
        s
    }

    pub fn with_boost(self, val: Decimal) -> (r: Self)
        ensures
            r.0.inner == (MatchQueryInner { boost: Some(val), ..self.0.inner }),
            r.0.field == self.0.field,
            r.0.outer == self.0.outer,
    {
        let mut s = self;
        s.0.inner.boost = Some(val);
        s
    }

    pub fn with_operator(self, val: &str) -> (r: Self)
        ensures
            r.0.inner.operator is Some,
            r.0.inner.operator.unwrap()@ == val@,
            r.0.inner == (MatchQueryInner { operator: r.0.inner.operator, ..self.0.inner }),
            r.0.field == self.0.field,
            r.0.outer == self.0.outer,
    {
        let mut s = self;
        s.0.inner.operator = Some(val.to_owned());
        s
    }

    pub fn with_minimum_should_match(self, val: MinimumShouldMatch) -> (r: Self)
        ensures
            r.0.inner == (MatchQueryInner { minimum_should_match: Some(val), ..self.0.inner }),
            r.0.field == self.0.field,
            r.0.outer == self.0.outer,
    {
        let mut s = self;
        s.0.inner.minimum_should_match = Some(val);
        s
    }

    pub fn with_fuzziness(self, val: Fuzziness) -> (r: Self)
        ensures
            r.0.inner == (MatchQueryInner { fuzziness: Some(val), ..self.0.inner }),
            r.0.field == self.0.field,
            r.0.outer == self.0.outer,
    {
        let mut s = self;
        s.0.inner.fuzziness = Some(val);
        s
    }

    pub fn with_prefix_length(self, val: u64) -> (r: Self)
        ensures
            r.0.inner == (MatchQueryInner { prefix_length: Some(val), ..self.0.inner }),
            r.0.field == self.0.field,
            r.0.outer == self.0.outer,
    {
        let mut s = self;
        s.0.inner.prefix_length = Some(val);
        s
    }

    pub fn with_max_expansions(self, val: u64) -> (r: Self)
        ensures
            r.0.inner == (MatchQueryInner { max_expansions: Some(val), ..self.0.inner }),
            r.0.field == self.0.field,
            r.0.outer == self.0.outer,
    {
        let mut s = self;
        s.0.inner.max_expansions = Some(val);
        s
    }

    pub fn with_rewrite(self, val: &str) -> (r: Self)
        ensures
            r.0.inner.rewrite is Some,
            r.0.inner.rewrite.unwrap()@ == val@,
            r.0.inner == (MatchQueryInner { rewrite: r.0.inner.rewrite, ..self.0.inner }),
            r.0.field == self.0.field,
            r.0.outer == self.0.outer,
    {
        let mut s = self;
        s.0.inner.rewrite = Some(val.to_owned());
        s
    }

    pub fn with_zero_terms_query(self, val: ZeroTermsQuery) -> (r: Self)
        ensures
            r.0.inner == (MatchQueryInner { zero_terms_query: Some(val), ..self.0.inner }),
            r.0.field == self.0.field,
            r.0.outer == self.0.outer,
    {
        let mut s = self;
        s.0.inner.zero_terms_query = Some(val);
        s
    }

    pub fn with_slop(self, val: i64) -> (r: Self)
        ensures
            r.0.inner == (MatchQueryInner { slop: Some(val), ..self.0.inner }),
            r.0.field == self.0.field,
            r.0.outer == self.0.outer,
    {
        let mut s = self;
        s.0.inner.slop = Some(val);
        s
    }

    pub fn with_highlight(self, val: Highlight) -> (r: Self)
        ensures
            r.0.inner == (MatchQueryInner { highlight: Some(val), ..self.0.inner }),
            r.0.field == self.0.field,
            r.0.outer == self.0.outer,
    {
        let mut s = self;
        s.0.inner.highlight = Some(val);
        s
    }

}

impl ToJson for MatchQuery {
    open spec fn json_v(&self) -> JsonV {
        self.0.json_v()
    }

    fn to_json(&self) -> (r: Json) {
        self.0.to_json()
    }
}
impl MatchQuery {
    pub fn with_type(self, val: MatchType) -> (r: Self)
        ensures
            r.0.inner == (MatchQueryInner { match_type: Some(val), ..self.0.inner }),
            r.0.field == self.0.field,
            r.0.outer == self.0.outer,
    {
        let mut s = self;
        s.0.inner.match_type = Some(val);
        s
    }
}

impl MatchQuery {
    pub fn build(self) -> (r: Query)
        ensures
            r == Query::Match(Box::new(self)),
    {
        Query::Match(Box::new(self))
    }
}

impl Query {
    pub fn build_match(field: &str, query: JsonVal) -> (r: MatchQuery)
        ensures
            r.0.field@ == field@,
            r.0.inner == (MatchQueryInner { query: query, match_type: None, cutoff_frequency: None, lenient: None, analyzer: None, boost: None, operator: None, minimum_should_match: None, fuzziness: None, prefix_length: None, max_expansions: None, rewrite: None, zero_terms_query: None, slop: None, highlight: None }),
    {
        MatchQuery(FieldBased::new(field.to_owned(), MatchQueryInner { query: query, match_type: None, cutoff_frequency: None, lenient: None, analyzer: None, boost: None, operator: None, minimum_should_match: None, fuzziness: None, prefix_length: None, max_expansions: None, rewrite: None, zero_terms_query: None, slop: None, highlight: None }, NoOuter))
    }
}

/// Multi Match Query
#[derive(Debug)]
pub struct MultiMatchQuery {
    pub fields: Vec<String>,
    pub query: JsonVal,
    pub match_type: Option<MatchQueryType>,
    pub tie_breaker: Option<Decimal>,
    pub analyzer: Option<String>,
    pub boost: Option<Decimal>,
    pub operator: Option<String>,
    pub minimum_should_match: Option<MinimumShouldMatch>,
    pub fuzziness: Option<Fuzziness>,
    pub prefix_length: Option<u64>,
    pub max_expansions: Option<u64>,
    pub rewrite: Option<String>,
    pub zero_terms_query: Option<ZeroTermsQuery>,
    pub cutoff_frequency: Option<Decimal>,
    pub slop: Option<i64>,
    pub highlight: Option<Highlight>,
}

impl ToJson for MultiMatchQuery {
    open spec fn json_v(&self) -> JsonV {
        JsonV::Object(
            one_entry("fields"@, self.fields.json_v())
            + one_entry("query"@, self.query.json_v())
            + opt_entry("type"@, opt_v(self.match_type))
            + opt_entry("tie_breaker"@, opt_v(self.tie_breaker))
            + opt_entry("analyzer"@, opt_v(self.analyzer))
            + opt_entry("boost"@, opt_v(self.boost))
            + opt_entry("operator"@, opt_v(self.operator))
            + opt_entry("minimum_should_match"@, opt_v(self.minimum_should_match))
            + opt_entry("fuzziness"@, opt_v(self.fuzziness))
            + opt_entry("prefix_length"@, opt_v(self.prefix_length))
            + opt_entry("max_expansions"@, opt_v(self.max_expansions))
            + opt_entry("rewrite"@, opt_v(self.rewrite))
            + opt_entry("zero_terms_query"@, opt_v(self.zero_terms_query))
            + opt_entry("cutoff_frequency"@, opt_v(self.cutoff_frequency))
            + opt_entry("slop"@, opt_v(self.slop))
            + opt_entry("highlight"@, opt_v(self.highlight))
        )
    }

    fn to_json(&self) -> (r: Json) {
        let mut e: Vec<(String, Json)> = Vec::new();
        push_entry(&mut e, "fields", self.fields.to_json());
        push_entry(&mut e, "query", self.query.to_json());
        push_field(&mut e, "type", &self.match_type);
        push_field(&mut e, "tie_breaker", &self.tie_breaker);
        push_field(&mut e, "analyzer", &self.analyzer);
        push_field(&mut e, "boost", &self.boost);
        push_field(&mut e, "operator", &self.operator);
        push_field(&mut e, "minimum_should_match", &self.minimum_should_match);
        push_field(&mut e, "fuzziness", &self.fuzziness);
        push_field(&mut e, "prefix_length", &self.prefix_length);
        push_field(&mut e, "max_expansions", &self.max_expansions);
        push_field(&mut e, "rewrite", &self.rewrite);
        push_field(&mut e, "zero_terms_query", &self.zero_terms_query);
        push_field(&mut e, "cutoff_frequency", &self.cutoff_frequency);
        push_field(&mut e, "slop", &self.slop);
        push_field(&mut e, "highlight", &self.highlight);
        assert(entries_view(e@) =~= self.json_v()->Object_0);
        object(e)
    }
}

impl MultiMatchQuery {
    pub fn with_tie_breaker(self, val: Decimal) -> (r: Self)
        ensures
            r == (MultiMatchQuery { tie_breaker: Some(val), ..self }),
    {
        let mut s = self;
        s.tie_breaker = Some(val);
        s
    }

    pub fn with_analyzer(self, val: &str) -> (r: Self)
        ensures
            r.analyzer is Some,
            r.analyzer.unwrap()@ == val@,
            r == (MultiMatchQuery { analyzer: r.analyzer, ..self }),
    {
        let mut s = self;
        s.analyzer = Some(val.to_owned());
        s
    }

    pub fn with_boost(self, val: Decimal) -> (r: Self)
        ensures
            r == (MultiMatchQuery { boost: Some(val), ..self }),
    {
        let mut s = self;
        s.boost = Some(val);
        s
    }

    pub fn with_operator(self, val: &str) -> (r: Self)
        ensures
            r.operator is Some,
            r.operator.unwrap()@ == val@,
            r == (MultiMatchQuery { operator: r.operator, ..self }),
    {
        let mut s = self;
        s.operator = Some(val.to_owned());
        s
    }

    pub fn with_minimum_should_match(self, val: MinimumShouldMatch) -> (r: Self)
        ensures
            r == (MultiMatchQuery { minimum_should_match: Some(val), ..self }),
    {
        let mut s = self;
        s.minimum_should_match = Some(val);
        s
    }

    pub fn with_fuzziness(self, val: Fuzziness) -> (r: Self)
        ensures
            r == (MultiMatchQuery { fuzziness: Some(val), ..self }),
    {
        let mut s = self;
        s.fuzziness = Some(val);
        s
    }

    pub fn with_prefix_length(self, val: u64) -> (r: Self)
        ensures
            r == (MultiMatchQuery { prefix_length: Some(val), ..self }),
    {
        let mut s = self;
        s.prefix_length = Some(val);
        s
    }

    pub fn with_max_expansions(self, val: u64) -> (r: Self)
        ensures
            r == (MultiMatchQuery { max_expansions: Some(val), ..self }),
    {
        let mut s = self;
        s.max_expansions = Some(val);
        s
    }

    pub fn with_rewrite(self, val: &str) -> (r: Self)
        ensures
            r.rewrite is Some,
            r.rewrite.unwrap()@ == val@,
            r == (MultiMatchQuery { rewrite: r.rewrite, ..self }),
    {
        let mut s = self;
        s.rewrite = Some(val.to_owned());
        s
    }

    pub fn with_zero_terms_query(self, val: ZeroTermsQuery) -> (r: Self)
        ensures
            r == (MultiMatchQuery { zero_terms_query: Some(val), ..self }),
    {
        let mut s = self;
        s.zero_terms_query = Some(val);
        s
    }

    pub fn with_cutoff_frequency(self, val: Decimal) -> (r: Self)
        ensures
            r == (MultiMatchQuery { cutoff_frequency: Some(val), ..self }),
    {
        let mut s = self;
        s.cutoff_frequency = Some(val);
        s
    }

    pub fn with_slop(self, val: i64) -> (r: Self)
        ensures
            r == (MultiMatchQuery { slop: Some(val), ..self }),
    {
        let mut s = self;
        s.slop = Some(val);
        s
    }

    pub fn with_highlight(self, val: Highlight) -> (r: Self)
        ensures
            r == (MultiMatchQuery { highlight: Some(val), ..self }),
    {
        let mut s = self;
        s.highlight = Some(val);
        s
    }

}
impl MultiMatchQuery {
    pub fn with_type(self, val: MatchQueryType) -> (r: Self)
        ensures
            r == (MultiMatchQuery { match_type: Some(val), ..self }),
    {
        let mut s = self;
        s.match_type = Some(val);
        s
    }
}

impl MultiMatchQuery {
    pub fn build(self) -> (r: Query)
        ensures
            r == Query::MultiMatch(Box::new(self)),
    {
        Query::MultiMatch(Box::new(self))
    }
}

impl Query {
    pub fn build_multi_match(fields: Vec<String>, query: JsonVal) -> (r: MultiMatchQuery)
        ensures
            r == (MultiMatchQuery { fields: fields, query: query, match_type: None, tie_breaker: None, analyzer: None, boost: None, operator: None, minimum_should_match: None, fuzziness: None, prefix_length: None, max_expansions: None, rewrite: None, zero_terms_query: None, cutoff_frequency: None, slop: None, highlight: None }),
    {
        MultiMatchQuery { fields: fields, query: query, match_type: None, tie_breaker: None, analyzer: None, boost: None, operator: None, minimum_should_match: None, fuzziness: None, prefix_length: None, max_expansions: None, rewrite: None, zero_terms_query: None, cutoff_frequency: None, slop: None, highlight: None }
    }
}

#[derive(Debug)]
pub struct CommonQueryInner {
    pub query: JsonVal,
    pub cutoff_frequency: Option<Decimal>,
    pub low_freq_operator: Option<String>,
    pub high_freq_operator: Option<String>,
    pub minimum_should_match: Option<MinimumShouldMatch>,
    pub boost: Option<Decimal>,
    pub analyzer: Option<String>,
    pub disable_coord: Option<bool>,
}

impl ToJson for CommonQueryInner {
    open spec fn json_v(&self) -> JsonV {
        JsonV::Object(
            one_entry("query"@, self.query.json_v())
            + opt_entry("cutoff_frequency"@, opt_v(self.cutoff_frequency))
            + opt_entry("low_freq_operator"@, opt_v(self.low_freq_operator))
            + opt_entry("high_freq_operator"@, opt_v(self.high_freq_operator))
            + opt_entry("minimum_should_match"@, opt_v(self.minimum_should_match))
            + opt_entry("boost"@, opt_v(self.boost))
            + opt_entry("analyzer"@, opt_v(self.analyzer))
            + opt_entry("disable_coord"@, opt_v(self.disable_coord))
        )
    }

    fn to_json(&self) -> (r: Json) {
        let mut e: Vec<(String, Json)> = Vec::new();
        push_entry(&mut e, "query", self.query.to_json());
        push_field(&mut e, "cutoff_frequency", &self.cutoff_frequency);
        push_field(&mut e, "low_freq_operator", &self.low_freq_operator);
        push_field(&mut e, "high_freq_operator", &self.high_freq_operator);
        push_field(&mut e, "minimum_should_match", &self.minimum_should_match);
        push_field(&mut e, "boost", &self.boost);
        push_field(&mut e, "analyzer", &self.analyzer);
        push_field(&mut e, "disable_coord", &self.disable_coord);
        assert(entries_view(e@) =~= self.json_v()->Object_0);
        object(e)
    }
}

/// Common terms query
#[derive(Debug)]
pub struct CommonQuery(pub FieldBased<String, CommonQueryInner, NoOuter>);

impl CommonQuery {
    pub fn with_cutoff_frequency(self, val: Decimal) -> (r: Self)
        ensures
            r.0.inner == (CommonQueryInner { cutoff_frequency: Some(val), ..self.0.inner }),
            r.0.field == self.0.field,
            r.0.outer == self.0.outer,
    {
        let mut s = self;
        s.0.inner.cutoff_frequency = Some(val);
        s
    }

    pub fn with_low_freq_operator(self, val: &str) -> (r: Self)
        ensures
            r.0.inner.low_freq_operator is Some,
            r.0.inner.low_freq_operator.unwrap()@ == val@,
            r.0.inner == (CommonQueryInner { low_freq_operator: r.0.inner.low_freq_operator, ..self.0.inner }),
            r.0.field == self.0.field,
            r.0.outer == self.0.outer,
    {
        let mut s = self;
        s.0.inner.low_freq_operator = Some(val.to_owned());
        s
    }

    pub fn with_high_freq_operator(self, val: &str) -> (r: Self)
        ensures
            r.0.inner.high_freq_operator is Some,
            r.0.inner.high_freq_operator.unwrap()@ == val@,
            r.0.inner == (CommonQueryInner { high_freq_operator: r.0.inner.high_freq_operator, ..self.0.inner }),
            r.0.field == self.0.field,
            r.0.outer == self.0.outer,
    {
        let mut s = self;
        s.0.inner.high_freq_operator = Some(val.to_owned());
        s
    }

    pub fn with_minimum_should_match(self, val: MinimumShouldMatch) -> (r: Self)
        ensures
            r.0.inner == (CommonQueryInner { minimum_should_match: Some(val), ..self.0.inner }),
            r.0.field == self.0.field,
            r.0.outer == self.0.outer,
    {
        let mut s = self;
        s.0.inner.minimum_should_match = Some(val);
        s
    }

    pub fn with_boost(self, val: Decimal) -> (r: Self)
        ensures
            r.0.inner == (CommonQueryInner { boost: Some(val), ..self.0.inner }),
            r.0.field == self.0.field,
            r.0.outer == self.0.outer,
    {
        let mut s = self;
        s.0.inner.boost = Some(val);
        s
    }

    pub fn with_analyzer(self, val: &str) -> (r: Self)
        ensures
            r.0.inner.analyzer is Some,
            r.0.inner.analyzer.unwrap()@ == val@,
            r.0.inner == (CommonQueryInner { analyzer: r.0.inner.analyzer, ..self.0.inner }),
            r.0.field == self.0.field,
            r.0.outer == self.0.outer,
    {
        let mut s = self;
        s.0.inner.analyzer = Some(val.to_owned());
        s
    }

    pub fn with_disable_coord(self, val: bool) -> (r: Self)
        ensures
            r.0.inner == (CommonQueryInner { disable_coord: Some(val), ..self.0.inner }),
            r.0.field == self.0.field,
            r.0.outer == self.0.outer,
    {
        let mut s = self;
        s.0.inner.disable_coord = Some(val);
        s
    }

}

impl ToJson for CommonQuery {
    open spec fn json_v(&self) -> JsonV {
        self.0.json_v()
    }

    fn to_json(&self) -> (r: Json) {
        self.0.to_json()
    }
}
impl CommonQuery {
    pub fn build(self) -> (r: Query)
        ensures
            r == Query::Common(Box::new(self)),
    {
        Query::Common(Box::new(self))
    }
}

impl Query {
    /// The common terms query, on the `body` field.
    pub fn build_common(query: JsonVal) -> (r: CommonQuery)
        ensures
            r.0.field@ == "body"@,
            r.0.inner == (CommonQueryInner { query: query, cutoff_frequency: None, low_freq_operator: None, high_freq_operator: None, minimum_should_match: None, boost: None, analyzer: None, disable_coord: None }),
    {
        CommonQuery(FieldBased::new("body".to_owned(), CommonQueryInner { query: query, cutoff_frequency: None, low_freq_operator: None, high_freq_operator: None, minimum_should_match: None, boost: None, analyzer: None, disable_coord: None }, NoOuter))
    }
}

/// Query string query
#[derive(Debug)]
pub struct QueryStringQuery {
    pub query: String,
    pub default_field: Option<String>,
    pub fields: Option<Vec<String>>,
    pub default_operator: Option<String>,
    pub analyzer: Option<String>,
    pub allow_leading_wildcard: Option<bool>,
    pub lowercase_expanded_terms: Option<bool>,
    pub enable_position_increments: Option<bool>,
    pub fuzzy_max_expansions: Option<u64>,
    pub fuzziness: Option<Fuzziness>,
    pub fuzzy_prefix_length: Option<u64>,
    pub phrase_slop: Option<i64>,
    pub boost: Option<Decimal>,
    pub analyze_wildcard: Option<bool>,
    pub auto_generate_phrase_queries: Option<bool>,
    pub max_determined_states: Option<u64>,
    pub minimum_should_match: Option<MinimumShouldMatch>,
    pub lenient: Option<bool>,
    pub locale: Option<String>,
    pub time_zone: Option<String>,
    pub use_dis_max: Option<bool>,
}

impl ToJson for QueryStringQuery {
    open spec fn json_v(&self) -> JsonV {
        JsonV::Object(
            one_entry("query"@, self.query.json_v())
            + opt_entry("default_field"@, opt_v(self.default_field))
            + opt_entry("fields"@, opt_v(self.fields))
            + opt_entry("default_operator"@, opt_v(self.default_operator))
            + opt_entry("analyzer"@, opt_v(self.analyzer))
            + opt_entry("allow_leading_wildcard"@, opt_v(self.allow_leading_wildcard))
            + opt_entry("lowercase_expanded_terms"@, opt_v(self.lowercase_expanded_terms))
            + opt_entry("enable_position_increments"@, opt_v(self.enable_position_increments))
            + opt_entry("fuzzy_max_expansions"@, opt_v(self.fuzzy_max_expansions))
            + opt_entry("fuzziness"@, opt_v(self.fuzziness))
            + opt_entry("fuzzy_prefix_length"@, opt_v(self.fuzzy_prefix_length))
            + opt_entry("phrase_slop"@, opt_v(self.phrase_slop))
            + opt_entry("boost"@, opt_v(self.boost))
            + opt_entry("analyze_wildcard"@, opt_v(self.analyze_wildcard))
            + opt_entry("auto_generate_phrase_queries"@, opt_v(self.auto_generate_phrase_queries))
            + opt_entry("max_determined_states"@, opt_v(self.max_determined_states))
            + opt_entry("minimum_should_match"@, opt_v(self.minimum_should_match))
            + opt_entry("lenient"@, opt_v(self.lenient))
            + opt_entry("locale"@, opt_v(self.locale))
            + opt_entry("time_zone"@, opt_v(self.time_zone))
            + opt_entry("use_dis_max"@, opt_v(self.use_dis_max))
        )
    }

    fn to_json(&self) -> (r: Json) {
        let mut e: Vec<(String, Json)> = Vec::new();
        push_entry(&mut e, "query", self.query.to_json());
        push_field(&mut e, "default_field", &self.default_field);
        push_field(&mut e, "fields", &self.fields);
        push_field(&mut e, "default_operator", &self.default_operator);
        push_field(&mut e, "analyzer", &self.analyzer);
        push_field(&mut e, "allow_leading_wildcard", &self.allow_leading_wildcard);
        push_field(&mut e, "lowercase_expanded_terms", &self.lowercase_expanded_terms);
        push_field(&mut e, "enable_position_increments", &self.enable_position_increments);
        push_field(&mut e, "fuzzy_max_expansions", &self.fuzzy_max_expansions);
        push_field(&mut e, "fuzziness", &self.fuzziness);
        push_field(&mut e, "fuzzy_prefix_length", &self.fuzzy_prefix_length);
        push_field(&mut e, "phrase_slop", &self.phrase_slop);
        push_field(&mut e, "boost", &self.boost);
        push_field(&mut e, "analyze_wildcard", &self.analyze_wildcard);
        push_field(&mut e, "auto_generate_phrase_queries", &self.auto_generate_phrase_queries);
        push_field(&mut e, "max_determined_states", &self.max_determined_states);
        push_field(&mut e, "minimum_should_match", &self.minimum_should_match);
        push_field(&mut e, "lenient", &self.lenient);
        push_field(&mut e, "locale", &self.locale);
        push_field(&mut e, "time_zone", &self.time_zone);
        push_field(&mut e, "use_dis_max", &self.use_dis_max);
        assert(entries_view(e@) =~= self.json_v()->Object_0);
        object(e)
    }
}

impl QueryStringQuery {
    pub fn with_default_field(self, val: &str) -> (r: Self)
        ensures
            r.default_field is Some,
            r.default_field.unwrap()@ == val@,
            r == (QueryStringQuery { default_field: r.default_field, ..self }),
    {
        let mut s = self;
        s.default_field = Some(val.to_owned());
        s
    }

    pub fn with_fields(self, val: Vec<String>) -> (r: Self)
        ensures
            r == (QueryStringQuery { fields: Some(val), ..self }),
    {
        let mut s = self;
        s.fields = Some(val);
        s
    }

    pub fn with_default_operator(self, val: &str) -> (r: Self)
        ensures
            r.default_operator is Some,
            r.default_operator.unwrap()@ == val@,
            r == (QueryStringQuery { default_operator: r.default_operator, ..self }),
    {
        let mut s = self;
        s.default_operator = Some(val.to_owned());
        s
    }

    pub fn with_analyzer(self, val: &str) -> (r: Self)
        ensures
            r.analyzer is Some,
            r.analyzer.unwrap()@ == val@,
            r == (QueryStringQuery { analyzer: r.analyzer, ..self }),
    {
        let mut s = self;
        s.analyzer = Some(val.to_owned());
        s
    }

    pub fn with_allow_leading_wildcard(self, val: bool) -> (r: Self)
        ensures
            r == (QueryStringQuery { allow_leading_wildcard: Some(val), ..self }),
    {
        let mut s = self;
        s.allow_leading_wildcard = Some(val);
        s
    }

    pub fn with_lowercase_expanded_terms(self, val: bool) -> (r: Self)
        ensures
            r == (QueryStringQuery { lowercase_expanded_terms: Some(val), ..self }),
    {
        let mut s = self;
        s.lowercase_expanded_terms = Some(val);
        s
    }

    pub fn with_enable_position_increments(self, val: bool) -> (r: Self)
        ensures
            r == (QueryStringQuery { enable_position_increments: Some(val), ..self }),
    {
        let mut s = self;
        s.enable_position_increments = Some(val);
        s
    }

    pub fn with_fuzzy_max_expansions(self, val: u64) -> (r: Self)
        ensures
            r == (QueryStringQuery { fuzzy_max_expansions: Some(val), ..self }),
    {
        let mut s = self;
        s.fuzzy_max_expansions = Some(val);
        s
    }

    pub fn with_fuzziness(self, val: Fuzziness) -> (r: Self)
        ensures
            r == (QueryStringQuery { fuzziness: Some(val), ..self }),
    {
        let mut s = self;
        s.fuzziness = Some(val);
        s
    }

    pub fn with_fuzzy_prefix_length(self, val: u64) -> (r: Self)
        ensures
            r == (QueryStringQuery { fuzzy_prefix_length: Some(val), ..self }),
    {
        let mut s = self;
        s.fuzzy_prefix_length = Some(val);
        s
    }

    pub fn with_phrase_slop(self, val: i64) -> (r: Self)
        ensures
            r == (QueryStringQuery { phrase_slop: Some(val), ..self }),
    {
        let mut s = self;
        s.phrase_slop = Some(val);
        s
    }

    pub fn with_boost(self, val: Decimal) -> (r: Self)
        ensures
            r == (QueryStringQuery { boost: Some(val), ..self }),
    {
        let mut s = self;
        s.boost = Some(val);
        s
    }

    pub fn with_analyze_wildcard(self, val: bool) -> (r: Self)
        ensures
            r == (QueryStringQuery { analyze_wildcard: Some(val), ..self }),
    {
        let mut s = self;
        s.analyze_wildcard = Some(val);
        s
    }

    pub fn with_auto_generate_phrase_queries(self, val: bool) -> (r: Self)
        ensures
            r == (QueryStringQuery { auto_generate_phrase_queries: Some(val), ..self }),
    {
        let mut s = self;
        s.auto_generate_phrase_queries = Some(val);
        s
    }

    pub fn with_max_determined_states(self, val: u64) -> (r: Self)
        ensures
            r == (QueryStringQuery { max_determined_states: Some(val), ..self }),
    {
        let mut s = self;
        s.max_determined_states = Some(val);
        s
    }

    pub fn with_minimum_should_match(self, val: MinimumShouldMatch) -> (r: Self)
        ensures
            r == (QueryStringQuery { minimum_should_match: Some(val), ..self }),
    {
        let mut s = self;
        s.minimum_should_match = Some(val);
        s
    }

    pub fn with_lenient(self, val: bool) -> (r: Self)
        ensures
            r == (QueryStringQuery { lenient: Some(val), ..self }),
    {
        let mut s = self;
        s.lenient = Some(val);
        s
    }

    pub fn with_locale(self, val: &str) -> (r: Self)
        ensures
            r.locale is Some,
            r.locale.unwrap()@ == val@,
            r == (QueryStringQuery { locale: r.locale, ..self }),
    {
        let mut s = self;
        s.locale = Some(val.to_owned());
        s
    }

    pub fn with_time_zone(self, val: &str) -> (r: Self)
        ensures
            r.time_zone is Some,
            r.time_zone.unwrap()@ == val@,
            r == (QueryStringQuery { time_zone: r.time_zone, ..self }),
    {
        let mut s = self;
        s.time_zone = Some(val.to_owned());
        s
    }

    pub fn with_use_dis_max(self, val: bool) -> (r: Self)
        ensures
            r == (QueryStringQuery { use_dis_max: Some(val), ..self }),
    {
        let mut s = self;
        s.use_dis_max = Some(val);
        s
    }

}

impl QueryStringQuery {
    pub fn build(self) -> (r: Query)
        ensures
            r == Query::QueryString(Box::new(self)),
    {
        Query::QueryString(Box::new(self))
    }
}

impl Query {
    pub fn build_query_string(query: &str) -> (r: QueryStringQuery)
        ensures
            r == (QueryStringQuery { query: r.query, default_field: None, fields: None, default_operator: None, analyzer: None, allow_leading_wildcard: None, lowercase_expanded_terms: None, enable_position_increments: None, fuzzy_max_expansions: None, fuzziness: None, fuzzy_prefix_length: None, phrase_slop: None, boost: None, analyze_wildcard: None, auto_generate_phrase_queries: None, max_determined_states: None, minimum_should_match: None, lenient: None, locale: None, time_zone: None, use_dis_max: None }),
            r.query@ == query@,
    {
        QueryStringQuery { query: query.to_owned(), default_field: None, fields: None, default_operator: None, analyzer: None, allow_leading_wildcard: None, lowercase_expanded_terms: None, enable_position_increments: None, fuzzy_max_expansions: None, fuzziness: None, fuzzy_prefix_length: None, phrase_slop: None, boost: None, analyze_wildcard: None, auto_generate_phrase_queries: None, max_determined_states: None, minimum_should_match: None, lenient: None, locale: None, time_zone: None, use_dis_max: None }
    }
}

/// Flags for the SimpleQueryString query
#[derive(Debug, Clone, Copy, PartialEq, Eq)]
pub enum SimpleQueryStringFlags {
    All,
    Nothing,
    And,
    Or,
    Not,
    Prefix,
    Phrase,
    Precedence,
    Escape,
    Whitespace,
    Fuzzy,
    Near,
    Slop,
}

/// Law: each value is written by its ElasticSearch name (`ALL`, `NONE`, `AND`, `OR`, `NOT`,
/// `PREFIX`, `PHRASE`, `PRECEDENCE`, `ESCAPE`, `WHITESPACE`, `FUZZY`, `NEAR`, `SLOP`, in the
/// order of the variants), and different values are written differently.
pub proof fn lemma_simple_query_string_flags_names(x: SimpleQueryStringFlags)
    ensures
        x is All ==> x.text() == "ALL"@,
        x is Nothing ==> x.text() == "NONE"@,
        x is And ==> x.text() == "AND"@,
        x is Or ==> x.text() == "OR"@,
        x is Not ==> x.text() == "NOT"@,
        x is Prefix ==> x.text() == "PREFIX"@,
        x is Phrase ==> x.text() == "PHRASE"@,
        x is Precedence ==> x.text() == "PRECEDENCE"@,
        x is Escape ==> x.text() == "ESCAPE"@,
        x is Whitespace ==> x.text() == "WHITESPACE"@,
        x is Fuzzy ==> x.text() == "FUZZY"@,
        x is Near ==> x.text() == "NEAR"@,
        x is Slop ==> x.text() == "SLOP"@,
        forall|a: SimpleQueryStringFlags, b: SimpleQueryStringFlags| a != b ==> #[trigger] a.text() != #[trigger] b.text(),
{
    reveal_strlit("ALL");
    assert("ALL"@.len() == 3 && "ALL"@[0] == 'A' && "ALL"@[1] == 'L' && "ALL"@[2] == 'L');
    reveal_strlit("AND");
    assert("AND"@.len() == 3 && "AND"@[0] == 'A' && "AND"@[1] == 'N' && "AND"@[2] == 'D');
    reveal_strlit("ESCAPE");
    assert("ESCAPE"@.len() == 6 && "ESCAPE"@[0] == 'E' && "ESCAPE"@[1] == 'S' && "ESCAPE"@[2] == 'C' && "ESCAPE"@[3] == 'A' && "ESCAPE"@[4] == 'P' && "ESCAPE"@[5] == 'E');
    reveal_strlit("FUZZY");
    assert("FUZZY"@.len() == 5 && "FUZZY"@[0] == 'F' && "FUZZY"@[1] == 'U' && "FUZZY"@[2] == 'Z' && "FUZZY"@[3] == 'Z' && "FUZZY"@[4] == 'Y');
    reveal_strlit("NEAR");
    assert("NEAR"@.len() == 4 && "NEAR"@[0] == 'N' && "NEAR"@[1] == 'E' && "NEAR"@[2] == 'A' && "NEAR"@[3] == 'R');
    reveal_strlit("NONE");
    assert("NONE"@.len() == 4 && "NONE"@[0] == 'N' && "NONE"@[1] == 'O' && "NONE"@[2] == 'N' && "NONE"@[3] == 'E');
    reveal_strlit("NOT");
    assert("NOT"@.len() == 3 && "NOT"@[0] == 'N' && "NOT"@[1] == 'O' && "NOT"@[2] == 'T');
    reveal_strlit("OR");
    assert("OR"@.len() == 2 && "OR"@[0] == 'O' && "OR"@[1] == 'R');
    reveal_strlit("PHRASE");
    assert("PHRASE"@.len() == 6 && "PHRASE"@[0] == 'P' && "PHRASE"@[1] == 'H' && "PHRASE"@[2] == 'R' && "PHRASE"@[3] == 'A' && "PHRASE"@[4] == 'S' && "PHRASE"@[5] == 'E');
    reveal_strlit("PRECEDENCE");
    assert("PRECEDENCE"@.len() == 10 && "PRECEDENCE"@[0] == 'P' && "PRECEDENCE"@[1] == 'R' && "PRECEDENCE"@[2] == 'E' && "PRECEDENCE"@[3] == 'C' && "PRECEDENCE"@[4] == 'E' && "PRECEDENCE"@[5] == 'D' && "PRECEDENCE"@[6] == 'E' && "PRECEDENCE"@[7] == 'N' && "PRECEDENCE"@[8] == 'C' && "PRECEDENCE"@[9] == 'E');
    reveal_strlit("PREFIX");
    assert("PREFIX"@.len() == 6 && "PREFIX"@[0] == 'P' && "PREFIX"@[1] == 'R' && "PREFIX"@[2] == 'E' && "PREFIX"@[3] == 'F' && "PREFIX"@[4] == 'I' && "PREFIX"@[5] == 'X');
    reveal_strlit("SLOP");
    assert("SLOP"@.len() == 4 && "SLOP"@[0] == 'S' && "SLOP"@[1] == 'L' && "SLOP"@[2] == 'O' && "SLOP"@[3] == 'P');
    reveal_strlit("WHITESPACE");
    assert("WHITESPACE"@.len() == 10 && "WHITESPACE"@[0] == 'W' && "WHITESPACE"@[1] == 'H' && "WHITESPACE"@[2] == 'I' && "WHITESPACE"@[3] == 'T' && "WHITESPACE"@[4] == 'E' && "WHITESPACE"@[5] == 'S' && "WHITESPACE"@[6] == 'P' && "WHITESPACE"@[7] == 'A' && "WHITESPACE"@[8] == 'C' && "WHITESPACE"@[9] == 'E');
}

impl SimpleQueryStringFlags {
    /// The name written for this value.
    pub open spec fn text(self) -> Seq<char> {
        match self {
            SimpleQueryStringFlags::All => "ALL"@,
            SimpleQueryStringFlags::Nothing => "NONE"@,
            SimpleQueryStringFlags::And => "AND"@,
            SimpleQueryStringFlags::Or => "OR"@,
            SimpleQueryStringFlags::Not => "NOT"@,
            SimpleQueryStringFlags::Prefix => "PREFIX"@,
            SimpleQueryStringFlags::Phrase => "PHRASE"@,
            SimpleQueryStringFlags::Precedence => "PRECEDENCE"@,
            SimpleQueryStringFlags::Escape => "ESCAPE"@,
            SimpleQueryStringFlags::Whitespace => "WHITESPACE"@,
            SimpleQueryStringFlags::Fuzzy => "FUZZY"@,
            SimpleQueryStringFlags::Near => "NEAR"@,
            SimpleQueryStringFlags::Slop => "SLOP"@,
        }
    }

    pub fn as_str(&self) -> (r: &'static str)
        ensures
            r@ == self.text(),
    {
        match self {
            SimpleQueryStringFlags::All => "ALL",
            SimpleQueryStringFlags::Nothing => "NONE",
            SimpleQueryStringFlags::And => "AND",
            SimpleQueryStringFlags::Or => "OR",
            SimpleQueryStringFlags::Not => "NOT",
            SimpleQueryStringFlags::Prefix => "PREFIX",
            SimpleQueryStringFlags::Phrase => "PHRASE",
            SimpleQueryStringFlags::Precedence => "PRECEDENCE",
            SimpleQueryStringFlags::Escape => "ESCAPE",
            SimpleQueryStringFlags::Whitespace => "WHITESPACE",
            SimpleQueryStringFlags::Fuzzy => "FUZZY",
            SimpleQueryStringFlags::Near => "NEAR",
            SimpleQueryStringFlags::Slop => "SLOP",
        }
    }
}

impl ToJson for SimpleQueryStringFlags {
    open spec fn json_v(&self) -> JsonV {
        JsonV::Str(self.text())
    }

    fn to_json(&self) -> (r: Json) {
        str_json(self.as_str())
    }
}

impl FlagName for SimpleQueryStringFlags {
    open spec fn name_v(&self) -> Seq<char> {
        self.text()
    }

    fn name(&self) -> (r: &'static str) {
        self.as_str()
    }
}

/// SimpleQueryString query
#[derive(Debug)]
pub struct SimpleQueryStringQuery {
    pub query: String,
    pub fields: Option<Vec<String>>,
    pub default_operator: Option<String>,
    pub analyzer: Option<String>,
    pub flags: Option<Flags<SimpleQueryStringFlags>>,
    pub lowercase_expanded_terms: Option<bool>,
    pub analyze_wildcard: Option<bool>,
    pub locale: Option<String>,
    pub lenient: Option<bool>,
    pub minimum_should_match: Option<MinimumShouldMatch>,
}

impl ToJson for SimpleQueryStringQuery {
    open spec fn json_v(&self) -> JsonV {
        JsonV::Object(
            one_entry("query"@, self.query.json_v())
            + opt_entry("fields"@, opt_v(self.fields))
            + opt_entry("default_operator"@, opt_v(self.default_operator))
            + opt_entry("analyzer"@, opt_v(self.analyzer))
            + opt_entry("flags"@, opt_v(self.flags))
            + opt_entry("lowercase_expanded_terms"@, opt_v(self.lowercase_expanded_terms))
            + opt_entry("analyze_wildcard"@, opt_v(self.analyze_wildcard))
            + opt_entry("locale"@, opt_v(self.locale))
            + opt_entry("lenient"@, opt_v(self.lenient))
            + opt_entry("minimum_should_match"@, opt_v(self.minimum_should_match))
        )
    }

    fn to_json(&self) -> (r: Json) {
        let mut e: Vec<(String, Json)> = Vec::new();
        push_entry(&mut e, "query", self.query.to_json());
        push_field(&mut e, "fields", &self.fields);
        push_field(&mut e, "default_operator", &self.default_operator);
        push_field(&mut e, "analyzer", &self.analyzer);
        push_field(&mut e, "flags", &self.flags);
        push_field(&mut e, "lowercase_expanded_terms", &self.lowercase_expanded_terms);
        push_field(&mut e, "analyze_wildcard", &self.analyze_wildcard);
        push_field(&mut e, "locale", &self.locale);
        push_field(&mut e, "lenient", &self.lenient);
        push_field(&mut e, "minimum_should_match", &self.minimum_should_match);
        assert(entries_view(e@) =~= self.json_v()->Object_0);
        object(e)
    }
}

impl SimpleQueryStringQuery {
    pub fn with_fields(self, val: Vec<String>) -> (r: Self)
        ensures
            r == (SimpleQueryStringQuery { fields: Some(val), ..self }),
    {
        let mut s = self;
        s.fields = Some(val);
        s
    }

    pub fn with_default_operator(self, val: &str) -> (r: Self)
        ensures
            r.default_operator is Some,
            r.default_operator.unwrap()@ == val@,
            r == (SimpleQueryStringQuery { default_operator: r.default_operator, ..self }),
    {
        let mut s = self;
        s.default_operator = Some(val.to_owned());
        s
    }

    pub fn with_analyzer(self, val: &str) -> (r: Self)
        ensures
            r.analyzer is Some,
            r.analyzer.unwrap()@ == val@,
            r == (SimpleQueryStringQuery { analyzer: r.analyzer, ..self }),
    {
        let mut s = self;
        s.analyzer = Some(val.to_owned());
        s
    }

    pub fn with_flags(self, val: Flags<SimpleQueryStringFlags>) -> (r: Self)
        ensures
            r == (SimpleQueryStringQuery { flags: Some(val), ..self }),
    {
        let mut s = self;
        s.flags = Some(val);
        s
    }

    pub fn with_lowercase_expanded_terms(self, val: bool) -> (r: Self)
        ensures
            r == (SimpleQueryStringQuery { lowercase_expanded_terms: Some(val), ..self }),
    {
        let mut s = self;
        s.lowercase_expanded_terms = Some(val);
        s
    }

    pub fn with_analyze_wildcard(self, val: bool) -> (r: Self)
        ensures
            r == (SimpleQueryStringQuery { analyze_wildcard: Some(val), ..self }),
    {
        let mut s = self;
        s.analyze_wildcard = Some(val);
        s
    }

    pub fn with_locale(self, val: &str) -> (r: Self)
        ensures
            r.locale is Some,
            r.locale.unwrap()@ == val@,
            r == (SimpleQueryStringQuery { locale: r.locale, ..self }),
    {
        let mut s = self;
        s.locale = Some(val.to_owned());
        s
    }

    pub fn with_lenient(self, val: bool) -> (r: Self)
        ensures
            r == (SimpleQueryStringQuery { lenient: Some(val), ..self }),
    {
        let mut s = self;
        s.lenient = Some(val);
        s
    }

    pub fn with_minimum_should_match(self, val: MinimumShouldMatch) -> (r: Self)
        ensures
            r == (SimpleQueryStringQuery { minimum_should_match: Some(val), ..self }),
    {
        let mut s = self;
        s.minimum_should_match = Some(val);
        s
    }

}

impl SimpleQueryStringQuery {
    pub fn build(self) -> (r: Query)
        ensures
            r == Query::SimpleQueryString(Box::new(self)),
    {
        Query::SimpleQueryString(Box::new(self))
    }
}

impl Query {
    pub fn build_simple_query_string(query: &str) -> (r: SimpleQueryStringQuery)
        ensures
            r == (SimpleQueryStringQuery { query: r.query, fields: None, default_operator: None, analyzer: None, flags: None, lowercase_expanded_terms: None, analyze_wildcard: None, locale: None, lenient: None, minimum_should_match: None }),
            r.query@ == query@,
    {
        SimpleQueryStringQuery { query: query.to_owned(), fields: None, default_operator: None, analyzer: None, flags: None, lowercase_expanded_terms: None, analyze_wildcard: None, locale: None, lenient: None, minimum_should_match: None }
    }
}

} // verus!
