//! Specific options for the Function option of various queries

use vstd::prelude::*;

use crate::json::{
    entries_view, object, one_entry, opt_entry, opt_v, push_entry, push_field, str_json, Decimal, FieldBased,
    Json, JsonV, KeyedMap, NoOuter, ToJson, map_insert,
};
use crate::units::{Distance, Duration, JsonVal, Location};

verus! {

/// Function
#[derive(Debug)]
pub enum Function {
    ScriptScore(ScriptScore),
    Weight(Weight),
    RandomScore(RandomScore),
    FieldValueFactor(FieldValueFactor),
    Linear(Decay),
    Exp(Decay),
    Gauss(Decay),
}

/// A function is written as an object whose one key names its kind.
impl ToJson for Function {
    open spec fn json_v(&self) -> JsonV {
        JsonV::Object(
            match self {
                Function::ScriptScore(f) => one_entry("script_score"@, f.json_v()),
                Function::Weight(f) => one_entry("weight"@, f.json_v()),
                Function::RandomScore(f) => one_entry("random_score"@, f.json_v()),
                Function::FieldValueFactor(f) => one_entry("field_value_factor"@, f.json_v()),
                Function::Linear(f) => one_entry("linear"@, f.json_v()),
                Function::Exp(f) => one_entry("exp"@, f.json_v()),
                Function::Gauss(f) => one_entry("gauss"@, f.json_v()),
            },
        )
    }

    fn to_json(&self) -> (r: Json) {
        let mut e: Vec<(String, Json)> = Vec::new();
        match self {
            Function::ScriptScore(f) => push_entry(&mut e, "script_score", f.to_json()),
            Function::Weight(f) => push_entry(&mut e, "weight", f.to_json()),
            Function::RandomScore(f) => push_entry(&mut e, "random_score", f.to_json()),
            Function::FieldValueFactor(f) => push_entry(&mut e, "field_value_factor", f.to_json()),
            Function::Linear(f) => push_entry(&mut e, "linear", f.to_json()),
            Function::Exp(f) => push_entry(&mut e, "exp", f.to_json()),
            Function::Gauss(f) => push_entry(&mut e, "gauss", f.to_json()),
        }
        assert(entries_view(e@) =~= self.json_v()->Object_0);
        object(e)
    }
}

/// ScriptScore function
#[derive(Debug)]
pub struct ScriptScore {
    pub lang: Option<String>,
    pub params: KeyedMap<JsonVal>,
    pub inline: String,
}

impl ToJson for ScriptScore {
    open spec fn json_v(&self) -> JsonV {
        JsonV::Object(
            opt_entry("lang"@, opt_v(self.lang)) + one_entry("params"@, self.params.json_v())
                + one_entry("inline"@, JsonV::Str(self.inline@)),
        )
    }

    fn to_json(&self) -> (r: Json) {
        let mut e: Vec<(String, Json)> = Vec::new();
        push_field(&mut e, "lang", &self.lang);
        push_entry(&mut e, "params", self.params.to_json());
        push_entry(&mut e, "inline", Json::Str(self.inline.clone()));
        assert(entries_view(e@) =~= self.json_v()->Object_0);
        object(e)
    }
}

impl Function {
    pub fn build_script_score(script: String) -> (r: ScriptScore)
        ensures
            r.inline == script,
            r.lang is None,
            r.params.view_v().len() == 0,
    {
        ScriptScore { lang: None, params: KeyedMap::new(), inline: script }
    }
}

impl ScriptScore {
    pub fn with_lang(self, val: String) -> (r: Self)
        ensures
            r == (ScriptScore { lang: Some(val), ..self }),
    {
        ScriptScore { lang: Some(val), ..self }
    }

    /// Adds each of the parameters in turn.
    pub fn with_params(self, params: Vec<(String, JsonVal)>) -> (r: Self)
        ensures
            r.lang == self.lang,
            r.inline == self.inline,
            r.params.view_v() == params_inserted(self.params.view_v(), params@, params@.len() as int),
            crate::json::keys_distinct(self.params.view_v()) ==> crate::json::keys_distinct(r.params.view_v()),
    {
        let mut s = self;
        let mut params = params;
        let ghost all = params@;
        let ghost start = s.params.view_v();
        let mut rest: Vec<(String, JsonVal)> = Vec::new();
        while params.len() > 0
            invariant
                params@ == all.subrange(0, params@.len() as int),
                rest@.len() + params@.len() == all.len(),
                forall|j: int| 0 <= j < rest@.len() ==> #[trigger] rest@[j] == all[all.len() - 1 - j],
            decreases params.len(),
        {
            let p = params.pop().unwrap();
            rest.push(p);
        }
        let mut i: usize = 0;
        let n: usize = rest.len();
        while i < n
            invariant
                n == all.len(),
                i <= n,
                rest@.len() == n - i,
                forall|j: int| 0 <= j < rest@.len() ==> #[trigger] rest@[j] == all[all.len() - 1 - j],
                s.params.view_v() == params_inserted(start, all, i as int),
                start == self.params.view_v(),
                crate::json::keys_distinct(start) ==> crate::json::keys_distinct(s.params.view_v()),
                s.lang == self.lang,
                s.inline == self.inline,
            decreases n - i,
        {
            let (k, v) = rest.pop().unwrap();
            s.params.insert(k, v);
            i = i + 1;
        }
        s
    }

    pub fn add_param(self, key: String, value: JsonVal) -> (r: Self)
        ensures
            r.lang == self.lang,
            r.inline == self.inline,
            r.params.view_v() == map_insert(self.params.view_v(), key@, value),
            crate::json::keys_distinct(self.params.view_v()) ==> crate::json::keys_distinct(r.params.view_v()),
    {
        let mut s = self;
        s.params.insert(key, value);
        s
    }

    pub fn build(self) -> (r: Function)
        ensures
            r == Function::ScriptScore(self),
    {
        Function::ScriptScore(self)
    }
}

/// The map after inserting the first `n` of the given parameters in order.
pub open spec fn params_inserted(m: Seq<(Seq<char>, JsonVal)>, p: Seq<(String, JsonVal)>, n: int) -> Seq<
    (Seq<char>, JsonVal),
>
    decreases n,
{
    if n <= 0 {
        m
    } else {
        map_insert(params_inserted(m, p, n - 1), p[n - 1].0@, p[n - 1].1)
    }
}

/// Weight function
#[derive(Debug, Clone, Copy)]
pub struct Weight(pub Decimal);

/// A weight is written as its number.
impl ToJson for Weight {
    open spec fn json_v(&self) -> JsonV {
        self.0.json_v()
    }

    fn to_json(&self) -> (r: Json) {
        self.0.to_json()
    }
}

impl Function {
    pub fn build_weight(weight: Decimal) -> (r: Weight)
        ensures
            r.0 == weight,
    {
        Weight(weight)
    }
}

impl Weight {
    pub fn build(self) -> (r: Function)
        ensures
            r == Function::Weight(self),
    {
        Function::Weight(self)
    }
}

/// Random score function
#[derive(Debug, Clone, Copy)]
pub struct RandomScore(pub i64);

/// A random score is written as its seed.
impl ToJson for RandomScore {
    open spec fn json_v(&self) -> JsonV {
        JsonV::Int(self.0 as int)
    }

    fn to_json(&self) -> (r: Json) {
        Json::Int(self.0)
    }
}

impl Function {
    pub fn build_random_score(seed: i64) -> (r: RandomScore)
        ensures
            r.0 == seed,
    {
        RandomScore(seed)
    }
}

impl RandomScore {
    pub fn build(self) -> (r: Function)
        ensures
            r == Function::RandomScore(self),
    {
        Function::RandomScore(self)
    }
}

/// Field value factor function
#[derive(Debug)]
pub struct FieldValueFactor {
    pub field: String,
    pub factor: Option<Decimal>,
    pub modifier: Option<Modifier>,
    pub missing: Option<JsonVal>,
}

impl ToJson for FieldValueFactor {
    open spec fn json_v(&self) -> JsonV {
        JsonV::Object(
            one_entry("field"@, JsonV::Str(self.field@)) + opt_entry("factor"@, opt_v(self.factor))
                + opt_entry("modifier"@, opt_v(self.modifier)) + opt_entry("missing"@, opt_v(self.missing)),
        )
    }

    fn to_json(&self) -> (r: Json) {
        let mut e: Vec<(String, Json)> = Vec::new();
        push_entry(&mut e, "field", Json::Str(self.field.clone()));
        push_field(&mut e, "factor", &self.factor);
        push_field(&mut e, "modifier", &self.modifier);
        push_field(&mut e, "missing", &self.missing);
        assert(entries_view(e@) =~= self.json_v()->Object_0);
        object(e)
    }
}

impl Function {
    pub fn build_field_value_factor(field: String) -> (r: FieldValueFactor)
        ensures
            r == (FieldValueFactor { field, factor: None, modifier: None, missing: None }),
    {
        FieldValueFactor { field, factor: None, modifier: None, missing: None }
    }
}

impl FieldValueFactor {
    pub fn with_factor(self, val: Decimal) -> (r: Self)
        ensures
            r == (FieldValueFactor { factor: Some(val), ..self }),
    {
        FieldValueFactor { factor: Some(val), ..self }
    }

    pub fn with_modifier(self, val: Modifier) -> (r: Self)
        ensures
            r == (FieldValueFactor { modifier: Some(val), ..self }),
    {
        FieldValueFactor { modifier: Some(val), ..self }
    }

    pub fn with_missing(self, val: JsonVal) -> (r: Self)
        ensures
            r == (FieldValueFactor { missing: Some(val), ..self }),
    {
        FieldValueFactor { missing: Some(val), ..self }
    }

    pub fn build(self) -> (r: Function)
        ensures
            r == Function::FieldValueFactor(self),
    {
        Function::FieldValueFactor(self)
    }
}

/// Modifier for the FieldValueFactor function
#[derive(Debug, Clone, Copy, PartialEq, Eq)]
pub enum Modifier {
    Nothing,
    Log,
    Log1p,
    Log2p,
    Ln,
    Ln1p,
    Ln2p,
    Square,
    Sqrt,
    Reciprocal,
}

/// Law: each value is written by its ElasticSearch name (`none`, `log`, `log1p`, `log2p`, `ln`,
/// `ln1p`, `ln2p`, `square`, `sqrt`, `reciprocal`, in the order of the variants), and different
/// values are written differently.
pub proof fn lemma_modifier_names(x: Modifier)
    ensures
        x is Nothing ==> x.text() == "none"@,
        x is Log ==> x.text() == "log"@,
        x is Log1p ==> x.text() == "log1p"@,
        x is Log2p ==> x.text() == "log2p"@,
        x is Ln ==> x.text() == "ln"@,
        x is Ln1p ==> x.text() == "ln1p"@,
        x is Ln2p ==> x.text() == "ln2p"@,
        x is Square ==> x.text() == "square"@,
        x is Sqrt ==> x.text() == "sqrt"@,
        x is Reciprocal ==> x.text() == "reciprocal"@,
        forall|a: Modifier, b: Modifier| a != b ==> #[trigger] a.text() != #[trigger] b.text(),
{
    reveal_strlit("ln");
    assert("ln"@.len() == 2 && "ln"@[0] == 'l' && "ln"@[1] == 'n');
    reveal_strlit("ln1p");
    assert("ln1p"@.len() == 4 && "ln1p"@[0] == 'l' && "ln1p"@[1] == 'n' && "ln1p"@[2] == '1' && "ln1p"@[3] == 'p');
    reveal_strlit("ln2p");
    assert("ln2p"@.len() == 4 && "ln2p"@[0] == 'l' && "ln2p"@[1] == 'n' && "ln2p"@[2] == '2' && "ln2p"@[3] == 'p');
    reveal_strlit("log");
    assert("log"@.len() == 3 && "log"@[0] == 'l' && "log"@[1] == 'o' && "log"@[2] == 'g');
    reveal_strlit("log1p");
    assert("log1p"@.len() == 5 && "log1p"@[0] == 'l' && "log1p"@[1] == 'o' && "log1p"@[2] == 'g' && "log1p"@[3] == '1' && "log1p"@[4] == 'p');
    reveal_strlit("log2p");
    assert("log2p"@.len() == 5 && "log2p"@[0] == 'l' && "log2p"@[1] == 'o' && "log2p"@[2] == 'g' && "log2p"@[3] == '2' && "log2p"@[4] == 'p');
    reveal_strlit("none");
    assert("none"@.len() == 4 && "none"@[0] == 'n' && "none"@[1] == 'o' && "none"@[2] == 'n' && "none"@[3] == 'e');
    reveal_strlit("reciprocal");
    assert("reciprocal"@.len() == 10 && "reciprocal"@[0] == 'r' && "reciprocal"@[1] == 'e' && "reciprocal"@[2] == 'c' && "reciprocal"@[3] == 'i' && "reciprocal"@[4] == 'p' && "reciprocal"@[5] == 'r' && "reciprocal"@[6] == 'o' && "reciprocal"@[7] == 'c' && "reciprocal"@[8] == 'a' && "reciprocal"@[9] == 'l');
    reveal_strlit("sqrt");
    assert("sqrt"@.len() == 4 && "sqrt"@[0] == 's' && "sqrt"@[1] == 'q' && "sqrt"@[2] == 'r' && "sqrt"@[3] == 't');
    reveal_strlit("square");
    assert("square"@.len() == 6 && "square"@[0] == 's' && "square"@[1] == 'q' && "square"@[2] == 'u' && "square"@[3] == 'a' && "square"@[4] == 'r' && "square"@[5] == 'e');
}

impl Modifier {
    /// The name written for this value.
    pub open spec fn text(self) -> Seq<char> {
        match self {
            Modifier::Nothing => "none"@,
            Modifier::Log => "log"@,
            Modifier::Log1p => "log1p"@,
            Modifier::Log2p => "log2p"@,
            Modifier::Ln => "ln"@,
            Modifier::Ln1p => "ln1p"@,
            Modifier::Ln2p => "ln2p"@,
            Modifier::Square => "square"@,
            Modifier::Sqrt => "sqrt"@,
            Modifier::Reciprocal => "reciprocal"@,
        }
    }

    pub fn as_str(&self) -> (r: &'static str)
        ensures
            r@ == self.text(),
    {
        match self {
            Modifier::Nothing => "none",
            Modifier::Log => "log",
            Modifier::Log1p => "log1p",
            Modifier::Log2p => "log2p",
            Modifier::Ln => "ln",
            Modifier::Ln1p => "ln1p",
            Modifier::Ln2p => "ln2p",
            Modifier::Square => "square",
            Modifier::Sqrt => "sqrt",
            Modifier::Reciprocal => "reciprocal",
        }
    }
}

impl ToJson for Modifier {
    open spec fn json_v(&self) -> JsonV {
        JsonV::Str(self.text())
    }

    fn to_json(&self) -> (r: Json) {
        str_json(self.as_str())
    }
}

/// The options of a decay function.
#[derive(Debug)]
pub struct DecayOptions {
    pub origin: Origin,
    pub scale: Scale,
    pub offset: Option<Scale>,
    pub decay: Option<Decimal>,
    pub multi_value_mode: Option<MultiValueMode>,
}

impl ToJson for DecayOptions {
    open spec fn json_v(&self) -> JsonV {
        JsonV::Object(
            one_entry("origin"@, self.origin.json_v()) + one_entry("scale"@, self.scale.json_v())
                + opt_entry("offset"@, opt_v(self.offset)) + opt_entry("decay"@, opt_v(self.decay))
                + opt_entry("multi_value_mode"@, opt_v(self.multi_value_mode)),
        )
    }

    fn to_json(&self) -> (r: Json) {
        let mut e: Vec<(String, Json)> = Vec::new();
        push_entry(&mut e, "origin", self.origin.to_json());
        push_entry(&mut e, "scale", self.scale.to_json());
        push_field(&mut e, "offset", &self.offset);
        push_field(&mut e, "decay", &self.decay);
        push_field(&mut e, "multi_value_mode", &self.multi_value_mode);
        assert(entries_view(e@) =~= self.json_v()->Object_0);
        object(e)
    }
}

impl DecayOptions {
    pub fn new(origin: Origin, scale: Scale) -> (r: DecayOptions)
        ensures
            r == (DecayOptions { origin, scale, offset: None, decay: None, multi_value_mode: None }),
    {
        DecayOptions { origin, scale, offset: None, decay: None, multi_value_mode: None }
    }

    pub fn with_offset(self, val: Scale) -> (r: Self)
        ensures
            r == (DecayOptions { offset: Some(val), ..self }),
    {
        DecayOptions { offset: Some(val), ..self }
    }

    pub fn with_decay(self, val: Decimal) -> (r: Self)
        ensures
            r == (DecayOptions { decay: Some(val), ..self }),
    {
        DecayOptions { decay: Some(val), ..self }
    }

    pub fn with_multi_value_mode(self, val: MultiValueMode) -> (r: Self)
        ensures
            r == (DecayOptions { multi_value_mode: Some(val), ..self }),
    {
        DecayOptions { multi_value_mode: Some(val), ..self }
    }

    pub fn with_scale(self, val: Scale) -> (r: Self)
        ensures
            r == (DecayOptions { scale: val, ..self }),
    {
        DecayOptions { scale: val, ..self }
    }

    pub fn with_origin(self, val: Origin) -> (r: Self)
        ensures
            r == (DecayOptions { origin: val, ..self }),
    {
        DecayOptions { origin: val, ..self }
    }

    pub fn build(self, field: String) -> (r: Decay)
        ensures
            r.0.field == field,
            r.0.inner == self,
    {
        Decay(FieldBased::new(field, self, NoOuter))
    }
}

/// Decay functions
#[derive(Debug)]
pub struct Decay(pub FieldBased<String, DecayOptions, NoOuter>);

/// A decay function is written as `{field: options}`.
impl ToJson for Decay {
    open spec fn json_v(&self) -> JsonV {
        self.0.json_v()
    }

    fn to_json(&self) -> (r: Json) {
        self.0.to_json()
    }
}

impl Function {
    pub fn build_decay(field: String, origin: Origin, scale: Scale) -> (r: Decay)
        ensures
            r.0.field == field,
            r.0.inner == (DecayOptions { origin, scale, offset: None, decay: None, multi_value_mode: None }),
    {
        Decay(FieldBased::new(field, DecayOptions::new(origin, scale), NoOuter))
    }

    pub fn build_decay_from_options(field: String, options: DecayOptions) -> (r: Decay)
        ensures
            r.0.field == field,
            r.0.inner == options,
    {
        options.build(field)
    }
}

impl Decay {
    pub fn build_linear(self) -> (r: Function)
        ensures
            r == Function::Linear(self),
    {
        Function::Linear(self)
    }

    pub fn build_exp(self) -> (r: Function)
        ensures
            r == Function::Exp(self),
    {
        Function::Exp(self)
    }

    pub fn build_gauss(self) -> (r: Function)
        ensures
            r == Function::Gauss(self),
    {
        Function::Gauss(self)
    }
}

/// Origin for decay function
#[derive(Debug)]
pub enum Origin {
    I64(i64),
    U64(u64),
    F64(Decimal),
    Location(Location),
    Date(String),
}

impl Origin {
    /// The default origin is the number zero.
    pub fn default() -> (r: Origin)
        ensures
            r == Origin::I64(0),
    {
        Origin::I64(0)
    }
}

/// An origin is written as the value it holds.
impl ToJson for Origin {
    open spec fn json_v(&self) -> JsonV {
        match self {
            Origin::I64(i) => JsonV::Int(*i as int),
            Origin::U64(u) => JsonV::Int(*u as int),
            Origin::F64(d) => d.json_v(),
            Origin::Location(l) => l.json_v(),
            Origin::Date(s) => JsonV::Str(s@),
        }
    }

    fn to_json(&self) -> (r: Json) {
        match self {
            Origin::I64(i) => Json::Int(*i),
            Origin::U64(u) => Json::UInt(*u),
            Origin::F64(d) => d.to_json(),
            Origin::Location(l) => l.to_json(),
            Origin::Date(s) => Json::Str(s.clone()),
        }
    }
}

/// Scale used by decay function
#[derive(Debug)]
pub enum Scale {
    I64(i64),
    U64(u64),
    F64(Decimal),
    Distance(Distance),
    Duration(Duration),
}

impl Scale {
    /// The default scale is the number zero.
    pub fn default() -> (r: Scale)
        ensures
            r == Scale::I64(0),
    {
        Scale::I64(0)
    }
}

/// A scale is written as the value it holds.
impl ToJson for Scale {
    open spec fn json_v(&self) -> JsonV {
        match self {
            Scale::I64(i) => JsonV::Int(*i as int),
            Scale::U64(u) => JsonV::Int(*u as int),
            Scale::F64(d) => d.json_v(),
            Scale::Distance(d) => d.json_v(),
            Scale::Duration(d) => d.json_v(),
        }
    }

    fn to_json(&self) -> (r: Json) {
        match self {
            Scale::I64(i) => Json::Int(*i),
            Scale::U64(u) => Json::UInt(*u),
            Scale::F64(d) => d.to_json(),
            Scale::Distance(d) => d.to_json(),
            Scale::Duration(d) => d.to_json(),
        }
    }
}

/// Values for multi_value_mode
#[derive(Debug, Clone, Copy, PartialEq, Eq)]
pub enum MultiValueMode {
    Min,
    Max,
    Avg,
    Sum,
}

/// Law: each value is written in JSON by its ElasticSearch name (`min`, `max`, `avg`, `sum`, in
/// the order of the variants), and different values are written differently.
pub proof fn lemma_multi_value_mode_json_names(x: MultiValueMode)
    ensures
        x is Min ==> x.json_v() == JsonV::Str("min"@),
        x is Max ==> x.json_v() == JsonV::Str("max"@),
        x is Avg ==> x.json_v() == JsonV::Str("avg"@),
        x is Sum ==> x.json_v() == JsonV::Str("sum"@),
        forall|a: MultiValueMode, b: MultiValueMode| a != b ==> #[trigger] a.json_v() != #[trigger] b.json_v(),
{
    reveal_strlit("avg");
    assert("avg"@.len() == 3 && "avg"@[0] == 'a' && "avg"@[1] == 'v' && "avg"@[2] == 'g');
    reveal_strlit("max");
    assert("max"@.len() == 3 && "max"@[0] == 'm' && "max"@[1] == 'a' && "max"@[2] == 'x');
    reveal_strlit("min");
    assert("min"@.len() == 3 && "min"@[0] == 'm' && "min"@[1] == 'i' && "min"@[2] == 'n');
    reveal_strlit("sum");
    assert("sum"@.len() == 3 && "sum"@[0] == 's' && "sum"@[1] == 'u' && "sum"@[2] == 'm');
}

impl ToJson for MultiValueMode {
    open spec fn json_v(&self) -> JsonV {
        JsonV::Str(
            match self {
                MultiValueMode::Min => "min"@,
                MultiValueMode::Max => "max"@,
                MultiValueMode::Avg => "avg"@,
                MultiValueMode::Sum => "sum"@,
            },
        )
    }

    fn to_json(&self) -> (r: Json) {
        match self {
            MultiValueMode::Min => str_json("min"),
            MultiValueMode::Max => str_json("max"),
            MultiValueMode::Avg => str_json("avg"),
            MultiValueMode::Sum => str_json("sum"),
        }
    }
}

} // verus!
