//! Features that are common to all aggregations

use vstd::prelude::*;

use crate::json::{
    entries_view, object, opt_entry, opt_v, push_entry, push_field, Json, JsonV, KeyedMap, MergeSerialize,
    ToJson,
};
use crate::units::JsonVal;

verus! {

/// Scripts used in aggregations
#[derive(Debug)]
pub struct Script<'a> {
    pub inline: Option<&'a str>,
    pub file: Option<&'a str>,
    pub id: Option<&'a str>,
    pub params: Option<KeyedMap<JsonVal>>,
}

impl<'a> Script<'a> {
    /// A script with nothing set.
    pub open spec fn empty_v() -> Script<'a> {
        Script { inline: None, file: None, id: None, params: None }
    }

    pub fn default() -> (r: Script<'a>)
        ensures
            r == Script::<'a>::empty_v(),
    {
        Script { inline: None, file: None, id: None, params: None }
    }
}

/// The entry of an optional name.
pub open spec fn opt_str_entry(k: Seq<char>, v: Option<&str>) -> Seq<(Seq<char>, JsonV)> {
    opt_entry(k, match v { Some(s) => Some(JsonV::Str(s@)), None => None })
}

/// Appends the entry of an optional name, when it is set.
pub fn push_opt_str(e: &mut Vec<(String, Json)>, key: &str, value: Option<&str>)
    ensures
        entries_view(final(e)@) == entries_view(old(e)@) + opt_str_entry(key@, value),
{
    match value {
        Some(s) => push_entry(e, key, Json::Str(s.to_owned())),
        None => {
            assert(entries_view(e@) =~= entries_view(old(e)@) + opt_str_entry(key@, value));
        },
    }
}

/// Base of all Metrics aggregations
#[derive(Debug)]
pub struct Agg<'a, E> {
    pub field: Option<&'a str>,
    pub script: Script<'a>,
    pub missing: Option<JsonVal>,
    pub extra: E,
}

/// Written as an object: the field, the script's parts, the value for
/// documents that lack the field, then the options of the particular kind.
impl<'a, E: MergeSerialize> ToJson for Agg<'a, E> {
    open spec fn json_v(&self) -> JsonV {
        JsonV::Object(
            opt_str_entry("field"@, self.field) + opt_str_entry("inline"@, self.script.inline)
                + opt_str_entry("file"@, self.script.file) + opt_str_entry("id"@, self.script.id)
                + opt_entry("params"@, opt_v(self.script.params)) + opt_entry("missing"@, opt_v(self.missing))
                + self.extra.merge_entries(),
        )
    }

    fn to_json(&self) -> (r: Json) {
        let mut e: Vec<(String, Json)> = Vec::new();
        push_opt_str(&mut e, "field", self.field);
        push_opt_str(&mut e, "inline", self.script.inline);
        push_opt_str(&mut e, "file", self.script.file);
        push_opt_str(&mut e, "id", self.script.id);
        push_field(&mut e, "params", &self.script.params);
        push_field(&mut e, "missing", &self.missing);
        self.extra.merge_serialize(&mut e);
        assert(entries_view(e@) =~= self.json_v()->Object_0);
        object(e)
    }
}

} // verus!
