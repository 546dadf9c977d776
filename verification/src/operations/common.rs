//! Features common to all operations

use vstd::prelude::*;

use crate::json::{
    bool_text, bool_to_string, int_text, int_to_string, nat_text, nat_to_string, seq_join, Json, JsonV,
    ToJson,
};
use crate::units::Duration;
use crate::util::{lemma_str_join_single_char, StrJoin};

verus! {

/// The value of a URI option
#[derive(Debug, Clone)]
pub struct OptionVal(pub String);

/// Values that can be given as a URI option.
pub trait ToOptionVal {
    spec fn option_text(&self) -> Seq<char>;

    fn to_option_val(&self) -> (r: OptionVal)
        ensures
            r.0@ == self.option_text(),
    ;
}

impl<'a> ToOptionVal for &'a str {
    open spec fn option_text(&self) -> Seq<char> {
        (*self)@
    }

    fn to_option_val(&self) -> (r: OptionVal) {
        OptionVal((*self).to_owned())
    }
}

impl ToOptionVal for String {
    open spec fn option_text(&self) -> Seq<char> {
        self@
    }

    fn to_option_val(&self) -> (r: OptionVal) {
        OptionVal(self.clone())
    }
}

impl ToOptionVal for i32 {
    open spec fn option_text(&self) -> Seq<char> {
        int_text(*self as int)
    }

    fn to_option_val(&self) -> (r: OptionVal) {
        OptionVal(int_to_string(*self as i64))
    }
}

impl ToOptionVal for i64 {
    open spec fn option_text(&self) -> Seq<char> {
        int_text(*self as int)
    }

    fn to_option_val(&self) -> (r: OptionVal) {
        OptionVal(int_to_string(*self))
    }
}

impl ToOptionVal for u32 {
    open spec fn option_text(&self) -> Seq<char> {
        nat_text(*self as nat)
    }

    fn to_option_val(&self) -> (r: OptionVal) {
        OptionVal(nat_to_string(*self as u64))
    }
}

impl ToOptionVal for u64 {
    open spec fn option_text(&self) -> Seq<char> {
        nat_text(*self as nat)
    }

    fn to_option_val(&self) -> (r: OptionVal) {
        OptionVal(nat_to_string(*self))
    }
}

impl ToOptionVal for bool {
    open spec fn option_text(&self) -> Seq<char> {
        bool_text(*self)
    }

    fn to_option_val(&self) -> (r: OptionVal) {
        OptionVal(bool_to_string(*self))
    }
}

impl ToOptionVal for Duration {
    open spec fn option_text(&self) -> Seq<char> {
        self.text()
    }

    fn to_option_val(&self) -> (r: OptionVal) {
        OptionVal(self.to_string())
    }
}

/// The text of an option: `key=value`.
pub open spec fn option_pair_text(k: Seq<char>, v: Seq<char>) -> Seq<char> {
    k + seq!['='] + v
}

/// The query string of a list of options: empty when there are none, otherwise
/// `?` and the `key=value` pairs separated by `&`, in the order they were added.
pub open spec fn options_text(opts: Seq<(Seq<char>, Seq<char>)>) -> Seq<char> {
    if opts.len() == 0 {
        Seq::empty()
    } else {
        seq!['?'] + seq_join(Seq::new(opts.len(), |i: int| option_pair_text(opts[i].0, opts[i].1)), seq!['&'])
    }
}

/// Every ES operation has a set of options
#[derive(Debug)]
pub struct Options<'a>(pub Vec<(&'a str, OptionVal)>);

impl<'a> Options<'a> {
    /// The options as (key, value) texts.
    pub open spec fn view_v(&self) -> Seq<(Seq<char>, Seq<char>)> {
        Seq::new(self.0@.len(), |i: int| (self.0@[i].0@, self.0@[i].1.0@))
    }

    pub fn new() -> (r: Options<'a>)
        ensures
            r.view_v() == Seq::<(Seq<char>, Seq<char>)>::empty(),
    {
        let r = Options(Vec::new());
        assert(r.view_v() =~= Seq::<(Seq<char>, Seq<char>)>::empty());
        r
    }

    pub fn default() -> (r: Options<'a>)
        ensures
            r.view_v() == Seq::<(Seq<char>, Seq<char>)>::empty(),
    {
        Options::new()
    }

    pub fn is_empty(&self) -> (r: bool)
        ensures
            r == (self.view_v().len() == 0),
    {
        self.0.len() == 0
    }

    /// Add a value
    ///
    /// ```
    /// use rs_es::operations::common::Options;
    /// let mut options = Options::new();
    /// options.push("a", 1);
    /// options.push("b", "2");
    /// ```
    pub fn push<O: ToOptionVal>(&mut self, key: &'a str, val: O)
        ensures
            final(self).view_v() == old(self).view_v().push((key@, val.option_text())),
    {
        let v = val.to_option_val();
        self.0.push((key, v));
        assert(self.view_v() =~= old(self).view_v().push((key@, val.option_text())));
    }

    /// The query string: `?key=value&key=value...`, or nothing when there are
    /// no options.
    pub fn to_string(&self) -> (r: String)
        ensures
            r@ == options_text(self.view_v()),
    {
        if self.0.len() == 0 {
            String::new()
        } else {
            let ghost parts = Seq::new(self.view_v().len(), |i: int| option_pair_text(self.view_v()[i].0, self.view_v()[i].1));
            let mut pairs: Vec<String> = Vec::new();
            let mut i: usize = 0;
            while i < self.0.len()
                invariant
                    i <= self.0@.len(),
                    pairs@.len() == i,
                    parts.len() == self.0@.len(),
                    parts == Seq::new(self.view_v().len(), |i: int| option_pair_text(self.view_v()[i].0, self.view_v()[i].1)),
                    forall|k: int| 0 <= k < i ==> (#[trigger] pairs@[k])@ == parts[k],
                decreases self.0.len() - i,
            {
                let mut p = self.0[i].0.to_owned();
                p.append("=");
                p.append(self.0[i].1.0.as_str());
                proof {
                    reveal_strlit("=");
                    assert(p@ =~= parts[i as int]);
                }
                pairs.push(p);
                i = i + 1;
            }
            assert(pairs.parts_v() =~= parts);
            let joined = StrJoin::join(&pairs, "&");
            proof {
                reveal_strlit("&");
                assert("&"@ =~= seq!['&']);
                lemma_str_join_single_char(parts, '&');
            }
            let mut s = "?".to_owned();
            s.append(joined.as_str());
            proof {
                reveal_strlit("?");
            }
            assert(s@ =~= options_text(self.view_v()));
            s
        }
    }
}

/// The `version_type` field
#[derive(Debug, Clone, Copy, PartialEq, Eq)]
pub enum VersionType {
    Internal,
    External,
    ExternalGt,
    ExternalGte,
    Force,
}

/// Law: each value is written by its ElasticSearch name (`internal`, `external`, `external_gt`,
/// `external_gte`, `force`, in the order of the variants), and different values are written
/// differently.
pub proof fn lemma_version_type_names(x: VersionType)
    ensures
        x is Internal ==> x.text() == "internal"@,
        x is External ==> x.text() == "external"@,
        x is ExternalGt ==> x.text() == "external_gt"@,
        x is ExternalGte ==> x.text() == "external_gte"@,
        x is Force ==> x.text() == "force"@,
        forall|a: VersionType, b: VersionType| a != b ==> #[trigger] a.text() != #[trigger] b.text(),
{
    reveal_strlit("external");
    assert("external"@.len() == 8 && "external"@[0] == 'e' && "external"@[1] == 'x' && "external"@[2] == 't' && "external"@[3] == 'e' && "external"@[4] == 'r' && "external"@[5] == 'n' && "external"@[6] == 'a' && "external"@[7] == 'l');
    reveal_strlit("external_gt");
    assert("external_gt"@.len() == 11 && "external_gt"@[0] == 'e' && "external_gt"@[1] == 'x' && "external_gt"@[2] == 't' && "external_gt"@[3] == 'e' && "external_gt"@[4] == 'r' && "external_gt"@[5] == 'n' && "external_gt"@[6] == 'a' && "external_gt"@[7] == 'l' && "external_gt"@[8] == '_' && "external_gt"@[9] == 'g' && "external_gt"@[10] == 't');
    reveal_strlit("external_gte");
    assert("external_gte"@.len() == 12 && "external_gte"@[0] == 'e' && "external_gte"@[1] == 'x' && "external_gte"@[2] == 't' && "external_gte"@[3] == 'e' && "external_gte"@[4] == 'r' && "external_gte"@[5] == 'n' && "external_gte"@[6] == 'a' && "external_gte"@[7] == 'l' && "external_gte"@[8] == '_' && "external_gte"@[9] == 'g' && "external_gte"@[10] == 't' && "external_gte"@[11] == 'e');
    reveal_strlit("force");
    assert("force"@.len() == 5 && "force"@[0] == 'f' && "force"@[1] == 'o' && "force"@[2] == 'r' && "force"@[3] == 'c' && "force"@[4] == 'e');
    reveal_strlit("internal");
    assert("internal"@.len() == 8 && "internal"@[0] == 'i' && "internal"@[1] == 'n' && "internal"@[2] == 't' && "internal"@[3] == 'e' && "internal"@[4] == 'r' && "internal"@[5] == 'n' && "internal"@[6] == 'a' && "internal"@[7] == 'l');
}

impl VersionType {
    pub open spec fn text(self) -> Seq<char> {
        match self {
            VersionType::Internal => "internal"@,
            VersionType::External => "external"@,
            VersionType::ExternalGt => "external_gt"@,
            VersionType::ExternalGte => "external_gte"@,
            VersionType::Force => "force"@,
        }
    }

    pub fn to_string(&self) -> (r: String)
        ensures
            r@ == self.text(),
    {
        match self {
            VersionType::Internal => "internal".to_owned(),
            VersionType::External => "external".to_owned(),
            VersionType::ExternalGt => "external_gt".to_owned(),
            VersionType::ExternalGte => "external_gte".to_owned(),
            VersionType::Force => "force".to_owned(),
        }
    }
}

impl ToJson for VersionType {
    open spec fn json_v(&self) -> JsonV {
        JsonV::Str(self.text())
    }

    fn to_json(&self) -> (r: Json) {
        Json::Str(self.to_string())
    }
}

impl ToOptionVal for VersionType {
    open spec fn option_text(&self) -> Seq<char> {
        self.text()
    }

    fn to_option_val(&self) -> (r: OptionVal) {
        OptionVal(self.to_string())
    }
}

/// The consistency query parameter
#[derive(Debug, Clone, Copy, PartialEq, Eq)]
pub enum Consistency {
    One,
    Quorum,
    All,
}

/// Law: each value is written as a query-string option by its ElasticSearch name (`one`,
/// `quorum`, `all`, in the order of the variants), and different values are written
/// differently.
pub proof fn lemma_consistency_option_names(x: Consistency)
    ensures
        x is One ==> x.option_text() == "one"@,
        x is Quorum ==> x.option_text() == "quorum"@,
        x is All ==> x.option_text() == "all"@,
        forall|a: Consistency, b: Consistency| a != b ==> #[trigger] a.option_text() != #[trigger] b.option_text(),
{
    reveal_strlit("all");
    assert("all"@.len() == 3 && "all"@[0] == 'a' && "all"@[1] == 'l' && "all"@[2] == 'l');
    reveal_strlit("one");
    assert("one"@.len() == 3 && "one"@[0] == 'o' && "one"@[1] == 'n' && "one"@[2] == 'e');
    reveal_strlit("quorum");
    assert("quorum"@.len() == 6 && "quorum"@[0] == 'q' && "quorum"@[1] == 'u' && "quorum"@[2] == 'o' && "quorum"@[3] == 'r' && "quorum"@[4] == 'u' && "quorum"@[5] == 'm');
}

impl ToOptionVal for Consistency {
    open spec fn option_text(&self) -> Seq<char> {
        match self {
            Consistency::One => "one"@,
            Consistency::Quorum => "quorum"@,
            Consistency::All => "all"@,
        }
    }

    fn to_option_val(&self) -> (r: OptionVal) {
        OptionVal(
            match self {
                Consistency::One => "one".to_owned(),
                Consistency::Quorum => "quorum".to_owned(),
                Consistency::All => "all".to_owned(),
            },
        )
    }
}

/// Values for `default_operator` query parameters
#[derive(Debug, Clone, Copy, PartialEq, Eq)]
pub enum DefaultOperator {
    And,
    Or,
}

/// Law: each value is written as a query-string option by its ElasticSearch name (`and`, `or`,
/// in the order of the variants), and different values are written differently.
pub proof fn lemma_default_operator_option_names(x: DefaultOperator)
    ensures
        x is And ==> x.option_text() == "and"@,
        x is Or ==> x.option_text() == "or"@,
        forall|a: DefaultOperator, b: DefaultOperator| a != b ==> #[trigger] a.option_text() != #[trigger] b.option_text(),
{
    reveal_strlit("and");
    assert("and"@.len() == 3 && "and"@[0] == 'a' && "and"@[1] == 'n' && "and"@[2] == 'd');
    reveal_strlit("or");
    assert("or"@.len() == 2 && "or"@[0] == 'o' && "or"@[1] == 'r');
}

impl ToOptionVal for DefaultOperator {
    open spec fn option_text(&self) -> Seq<char> {
        match self {
            DefaultOperator::And => "and"@,
            DefaultOperator::Or => "or"@,
        }
    }

    fn to_option_val(&self) -> (r: OptionVal) {
        OptionVal(
            match self {
                DefaultOperator::And => "and".to_owned(),
                DefaultOperator::Or => "or".to_owned(),
            },
        )
    }
}

} // verus!
