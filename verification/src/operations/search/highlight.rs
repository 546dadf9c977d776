//! Implementation of ElasticSearch highlight

use vstd::prelude::*;

use crate::json::{
    entries_view, map_insert, object, one_entry, push_entry, str_json, Json, JsonV, KeyedMap, ToJson,
};

verus! {

#[derive(Debug, Clone, Copy, PartialEq, Eq)]
pub enum SettingTypes {
    Plain,
}

impl SettingTypes {
    /// The name written for this value.
    pub open spec fn text(self) -> Seq<char> {
        match self {
            SettingTypes::Plain => "plain"@,
        }
    }

    pub fn as_str(&self) -> (r: &'static str)
        ensures
            r@ == self.text(),
    {
        match self {
            SettingTypes::Plain => "plain",
        }
    }
}

impl ToJson for SettingTypes {
    open spec fn json_v(&self) -> JsonV {
        JsonV::Str(self.text())
    }

    fn to_json(&self) -> (r: Json) {
        str_json(self.as_str())
    }
}

#[derive(Debug, Clone, Copy)]
pub struct Setting {
    pub setting_type: SettingTypes,
}

impl Setting {
    pub fn with_type(setting_type: SettingTypes) -> (r: Setting)
        ensures
            r.setting_type == setting_type,
    {
        Setting { setting_type }
    }
}

impl ToJson for Setting {
    open spec fn json_v(&self) -> JsonV {
        JsonV::Object(
            one_entry("type"@, self.setting_type.json_v())
        )
    }

    fn to_json(&self) -> (r: Json) {
        let mut e: Vec<(String, Json)> = Vec::new();
        push_entry(&mut e, "type", self.setting_type.to_json());
        assert(entries_view(e@) =~= self.json_v()->Object_0);
        object(e)
    }
}

/// The fields to highlight, each with its setting.
#[derive(Debug)]
pub struct Highlight {
    pub fields: KeyedMap<Setting>,
}

impl Highlight {
    /// Create an Highlight entity without any field or setting
    /// specified as they are supposed to be added via the `add`
    /// method.
    pub fn new() -> (r: Highlight)
        ensures
            r.fields.view_v().len() == 0,
    {
        Highlight { fields: KeyedMap::new() }
    }

    /// Add a field to highlight to the set; a field added again gets the new setting.
    pub fn add(&mut self, name: String, setting: Setting)
        ensures
            final(self).fields.view_v() == map_insert(old(self).fields.view_v(), name@, setting),
            crate::json::keys_distinct(old(self).fields.view_v()) ==> crate::json::keys_distinct(final(self).fields.view_v()),
    {
        self.fields.insert(name, setting);
    }
}

impl ToJson for Highlight {
    open spec fn json_v(&self) -> JsonV {
        JsonV::Object(
            one_entry("fields"@, self.fields.json_v())
        )
    }

    fn to_json(&self) -> (r: Json) {
        let mut e: Vec<(String, Json)> = Vec::new();
        push_entry(&mut e, "fields", self.fields.to_json());
        assert(entries_view(e@) =~= self.json_v()->Object_0);
        object(e)
    }
}

/// The fields containing found terms
pub type HighlightResult = KeyedMap<Vec<String>>;

} // verus!
