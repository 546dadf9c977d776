//! Implementation of the Bulk API

use vstd::prelude::*;

use super::common::{options_text, Options, ToOptionVal};
use super::{Method, Request, ShardCountResult};
use crate::error::EsError;
use crate::json::{
    entries_view, object, opt_entry, opt_v, push_field, to_json_string, json_text, FieldBased, Json, JsonKey,
    JsonV, NoOuter, ToJson,
};
use crate::units::Duration;
use crate::util::str_eq;

verus! {

#[derive(Debug, Clone, Copy, PartialEq, Eq)]
pub enum ActionType {
    Index,
    Create,
    Delete,
    /// WARNING - currently un-implemented
    Update,
}

/// Law: each value is written by its ElasticSearch name (`index`, `create`, `delete`, `update`,
/// in the order of the variants), and different values are written differently.
pub proof fn lemma_action_type_names(x: ActionType)
    ensures
        x is Index ==> x.text() == "index"@,
        x is Create ==> x.text() == "create"@,
        x is Delete ==> x.text() == "delete"@,
        x is Update ==> x.text() == "update"@,
        forall|a: ActionType, b: ActionType| a != b ==> #[trigger] a.text() != #[trigger] b.text(),
{
    reveal_strlit("create");
    assert("create"@.len() == 6 && "create"@[0] == 'c' && "create"@[1] == 'r' && "create"@[2] == 'e' && "create"@[3] == 'a' && "create"@[4] == 't' && "create"@[5] == 'e');
    reveal_strlit("delete");
    assert("delete"@.len() == 6 && "delete"@[0] == 'd' && "delete"@[1] == 'e' && "delete"@[2] == 'l' && "delete"@[3] == 'e' && "delete"@[4] == 't' && "delete"@[5] == 'e');
    reveal_strlit("index");
    assert("index"@.len() == 5 && "index"@[0] == 'i' && "index"@[1] == 'n' && "index"@[2] == 'd' && "index"@[3] == 'e' && "index"@[4] == 'x');
    reveal_strlit("update");
    assert("update"@.len() == 6 && "update"@[0] == 'u' && "update"@[1] == 'p' && "update"@[2] == 'd' && "update"@[3] == 'a' && "update"@[4] == 't' && "update"@[5] == 'e');
}

impl ActionType {
    pub open spec fn text(self) -> Seq<char> {
        match self {
            ActionType::Index => "index"@,
            ActionType::Create => "create"@,
            ActionType::Delete => "delete"@,
            ActionType::Update => "update"@,
        }
    }

    pub fn to_string(&self) -> (r: String)
        ensures
            r@ == self.text(),
    {
        match self {
            ActionType::Index => "index".to_owned(),
            ActionType::Create => "create".to_owned(),
            ActionType::Delete => "delete".to_owned(),
            ActionType::Update => "update".to_owned(),
        }
    }

    /// The action named by a key of a bulk response item.
    pub open spec fn from_text(key: Seq<char>) -> Option<ActionType> {
        if key == "index"@ {
            Some(ActionType::Index)
        } else if key == "create"@ {
            Some(ActionType::Create)
        } else if key == "delete"@ {
            Some(ActionType::Delete)
        } else if key == "update"@ {
            Some(ActionType::Update)
        } else {
            None
        }
    }

    /// Reads the action named by a key: `index`, `create`, `delete` or `update`.
    pub fn from_key(key: &str) -> (r: Option<ActionType>)
        ensures
            r == ActionType::from_text(key@),
    {
        if str_eq(key, "index") {
            Some(ActionType::Index)
        } else if str_eq(key, "create") {
            Some(ActionType::Create)
        } else if str_eq(key, "delete") {
            Some(ActionType::Delete)
        } else if str_eq(key, "update") {
            Some(ActionType::Update)
        } else {
            None
        }
    }
}

/// Law: reading the name of an action gives that action back.
pub proof fn lemma_action_type_round_trip(t: ActionType)
    ensures
        ActionType::from_text(t.text()) == Some(t),
{
    reveal_strlit("index");
    reveal_strlit("create");
    reveal_strlit("delete");
    reveal_strlit("update");
    assert("index"@.len() != "create"@.len());
    assert("index"@.len() != "delete"@.len());
    assert("index"@.len() != "update"@.len());
    assert("create"@[0] != "delete"@[0]);
    assert("create"@[0] != "update"@[0]);
    assert("delete"@[0] != "update"@[0]);
}

impl ToJson for ActionType {
    open spec fn json_v(&self) -> JsonV {
        JsonV::Str(self.text())
    }

    fn to_json(&self) -> (r: Json) {
        Json::Str(self.to_string())
    }
}

impl JsonKey for ActionType {
    open spec fn key_v(&self) -> Seq<char> {
        self.text()
    }

    fn key(&self) -> (r: String) {
        self.to_string()
    }
}

/// The options of one action, written as its `_index`, `_type`, ... fields.
#[derive(Debug, Default)]
pub struct ActionOptions {
    pub index: Option<String>,
    pub doc_type: Option<String>,
    pub id: Option<String>,
    pub version: Option<u64>,
    pub version_type: Option<super::common::VersionType>,
    pub routing: Option<String>,
    pub parent: Option<String>,
    pub timestamp: Option<String>,
    pub ttl: Option<Duration>,
    pub retry_on_conflict: Option<u64>,
}

impl ActionOptions {
    pub fn new() -> (r: Self)
        ensures
            r.is_empty_v(),
    {
        ActionOptions {
            index: None,
            doc_type: None,
            id: None,
            version: None,
            version_type: None,
            routing: None,
            parent: None,
            timestamp: None,
            ttl: None,
            retry_on_conflict: None,
        }
    }

    pub open spec fn is_empty_v(self) -> bool {
        &&& self.index is None
        &&& self.doc_type is None
        &&& self.id is None
        &&& self.version is None
        &&& self.version_type is None
        &&& self.routing is None
        &&& self.parent is None
        &&& self.timestamp is None
        &&& self.ttl is None
        &&& self.retry_on_conflict is None
    }
}

impl ToJson for ActionOptions {
    open spec fn json_v(&self) -> JsonV {
        JsonV::Object(
            opt_entry("_index"@, opt_v(self.index)) + opt_entry("_type"@, opt_v(self.doc_type))
                + opt_entry("_id"@, opt_v(self.id)) + opt_entry("_version"@, opt_v(self.version))
                + opt_entry("_version_type"@, opt_v(self.version_type)) + opt_entry("_routing"@, opt_v(self.routing))
                + opt_entry("_parent"@, opt_v(self.parent)) + opt_entry("_timestamp"@, opt_v(self.timestamp))
                + opt_entry("_ttl"@, opt_v(self.ttl)) + opt_entry("_retry_on_conflict"@, opt_v(self.retry_on_conflict)),
        )
    }

    fn to_json(&self) -> (r: Json) {
        let mut e: Vec<(String, Json)> = Vec::new();
        push_field(&mut e, "_index", &self.index);
        push_field(&mut e, "_type", &self.doc_type);
        push_field(&mut e, "_id", &self.id);
        push_field(&mut e, "_version", &self.version);
        push_field(&mut e, "_version_type", &self.version_type);
        push_field(&mut e, "_routing", &self.routing);
        push_field(&mut e, "_parent", &self.parent);
        push_field(&mut e, "_timestamp", &self.timestamp);
        push_field(&mut e, "_ttl", &self.ttl);
        push_field(&mut e, "_retry_on_conflict", &self.retry_on_conflict);
        assert(entries_view(e@) =~= self.json_v()->Object_0);
        object(e)
    }
}

/// One action of a bulk request: its header, and the document's JSON text for
/// actions that carry one.
#[derive(Debug)]
pub struct Action(pub FieldBased<ActionType, ActionOptions, NoOuter>, pub Option<String>);

impl Action {
    /// An index action, with the document's JSON text.
    pub fn index(document: String) -> (r: Self)
        ensures
            r.0.field == ActionType::Index,
            r.0.inner.is_empty_v(),
            r.1 == Some(document),
    {
        Action(FieldBased::new(ActionType::Index, ActionOptions::new(), NoOuter), Some(document))
    }

    /// Create action
    pub fn create(document: String) -> (r: Self)
        ensures
            r.0.field == ActionType::Create,
            r.0.inner.is_empty_v(),
            r.1 == Some(document),
    {
        Action(FieldBased::new(ActionType::Create, ActionOptions::new(), NoOuter), Some(document))
    }

    /// Delete a document based on ID.
    pub fn delete(id: &str) -> (r: Self)
        ensures
            r.0.field == ActionType::Delete,
            r.0.inner == (ActionOptions { id: Some(r.0.inner.id.unwrap()), ..ActionOptions::new_v() }),
            r.0.inner.id.unwrap()@ == id@,
            r.1 is None,
    {
        let mut o = ActionOptions::new();
        o.id = Some(id.to_owned());
        Action(FieldBased::new(ActionType::Delete, o, NoOuter), None)
    }

    pub fn with_index(self, val: &str) -> (r: Self)
        ensures
            r.0.inner == (ActionOptions { index: r.0.inner.index, ..self.0.inner }),
            r.0.inner.index.unwrap()@ == val@,
            r.0.inner.index is Some,
            r.0.field == self.0.field,
            r.1 == self.1,
    {
        let mut s = self;
        s.0.inner.index = Some(val.to_owned());
        s
    }

    pub fn with_doc_type(self, val: &str) -> (r: Self)
        ensures
            r.0.inner == (ActionOptions { doc_type: r.0.inner.doc_type, ..self.0.inner }),
            r.0.inner.doc_type.unwrap()@ == val@,
            r.0.inner.doc_type is Some,
            r.0.field == self.0.field,
            r.1 == self.1,
    {
        let mut s = self;
        s.0.inner.doc_type = Some(val.to_owned());
        s
    }

    pub fn with_id(self, val: &str) -> (r: Self)
        ensures
            r.0.inner == (ActionOptions { id: r.0.inner.id, ..self.0.inner }),
            r.0.inner.id.unwrap()@ == val@,
            r.0.inner.id is Some,
            r.0.field == self.0.field,
            r.1 == self.1,
    {
        let mut s = self;
        s.0.inner.id = Some(val.to_owned());
        s
    }

    pub fn with_version(self, val: u64) -> (r: Self)
        ensures
            r.0.inner == (ActionOptions { version: Some(val), ..self.0.inner }),
            r.0.field == self.0.field,
            r.1 == self.1,
    {
        let mut s = self;
        s.0.inner.version = Some(val);
        s
    }

    pub fn with_version_type(self, val: super::common::VersionType) -> (r: Self)
        ensures
            r.0.inner == (ActionOptions { version_type: Some(val), ..self.0.inner }),
            r.0.field == self.0.field,
            r.1 == self.1,
    {
        let mut s = self;
        s.0.inner.version_type = Some(val);
        s
    }

    pub fn with_routing(self, val: &str) -> (r: Self)
        ensures
            r.0.inner == (ActionOptions { routing: r.0.inner.routing, ..self.0.inner }),
            r.0.inner.routing.unwrap()@ == val@,
            r.0.inner.routing is Some,
            r.0.field == self.0.field,
            r.1 == self.1,
    {
        let mut s = self;
        s.0.inner.routing = Some(val.to_owned());
        s
    }

    pub fn with_parent(self, val: &str) -> (r: Self)
        ensures
            r.0.inner == (ActionOptions { parent: r.0.inner.parent, ..self.0.inner }),
            r.0.inner.parent.unwrap()@ == val@,
            r.0.inner.parent is Some,
            r.0.field == self.0.field,
            r.1 == self.1,
    {
        let mut s = self;
        s.0.inner.parent = Some(val.to_owned());
        s
    }

    pub fn with_timestamp(self, val: &str) -> (r: Self)
        ensures
            r.0.inner == (ActionOptions { timestamp: r.0.inner.timestamp, ..self.0.inner }),
            r.0.inner.timestamp.unwrap()@ == val@,
            r.0.inner.timestamp is Some,
            r.0.field == self.0.field,
            r.1 == self.1,
    {
        let mut s = self;
        s.0.inner.timestamp = Some(val.to_owned());
        s
    }

    pub fn with_ttl(self, val: Duration) -> (r: Self)
        ensures
            r.0.inner == (ActionOptions { ttl: Some(val), ..self.0.inner }),
            r.0.field == self.0.field,
            r.1 == self.1,
    {
        let mut s = self;
        s.0.inner.ttl = Some(val);
        s
    }

    pub fn with_retry_on_conflict(self, val: u64) -> (r: Self)
        ensures
            r.0.inner == (ActionOptions { retry_on_conflict: Some(val), ..self.0.inner }),
            r.0.field == self.0.field,
            r.1 == self.1,
    {
        let mut s = self;
        s.0.inner.retry_on_conflict = Some(val);
        s
    }

    /// The lines of this action in a bulk body: the header's JSON text and a
    /// newline, then the document and a newline when there is one.
    pub open spec fn text(&self) -> Seq<char> {
        json_text(self.0.json_v()) + seq!['\n'] + match self.1 {
            Some(d) => d@ + seq!['\n'],
            None => Seq::empty(),
        }
    }

    /// Add the serialized version of this action to the bulk `String`.
    pub fn add(&self, actstr: &mut String)
        ensures
            final(actstr)@ == old(actstr)@ + self.text(),
    {
        let j = self.0.to_json();
        let command = to_json_string(&j);
        actstr.append(command.as_str());
        actstr.append("\n");
        match &self.1 {
            Some(source) => {
                actstr.append(source.as_str());
                actstr.append("\n");
            },
            None => {},
        }
        proof {
            reveal_strlit("\n");
        }
        assert(actstr@ =~= old(actstr)@ + self.text());
    }
}

impl ActionOptions {
    pub open spec fn new_v() -> ActionOptions {
        ActionOptions {
            index: None,
            doc_type: None,
            id: None,
            version: None,
            version_type: None,
            routing: None,
            parent: None,
            timestamp: None,
            ttl: None,
            retry_on_conflict: None,
        }
    }
}

/// The body of a bulk request: the lines of each action in turn.
pub open spec fn actions_text(actions: Seq<Action>) -> Seq<char>
    decreases actions.len(),
{
    if actions.len() == 0 {
        Seq::empty()
    } else {
        actions_text(actions.drop_last()) + actions.last().text()
    }
}

/// A bulk request.
#[derive(Debug)]
pub struct BulkOperation<'b> {
    pub index: Option<&'b str>,
    pub doc_type: Option<&'b str>,
    pub actions: &'b [Action],
    pub options: Options<'b>,
}

impl<'b> BulkOperation<'b> {
    pub open spec fn keeps(self, other: Self) -> bool {
        self.index == other.index && self.doc_type == other.doc_type && self.actions == other.actions
    }

    pub fn new(actions: &'b [Action]) -> (r: Self)
        ensures
            r.index is None,
            r.doc_type is None,
            r.actions == actions,
            r.options.view_v().len() == 0,
    {
        BulkOperation { index: None, doc_type: None, actions, options: Options::new() }
    }

    pub fn with_index(self, index: &'b str) -> (r: Self)
        ensures
            r.index == Some(index),
            r.doc_type == self.doc_type,
            r.actions == self.actions,
            r.options == self.options,
    {
        BulkOperation { index: Some(index), ..self }
    }

    pub fn with_doc_type(self, doc_type: &'b str) -> (r: Self)
        ensures
            r.doc_type == Some(doc_type),
            r.index == self.index,
            r.actions == self.actions,
            r.options == self.options,
    {
        BulkOperation { doc_type: Some(doc_type), ..self }
    }

    /// Adds a query-string option.
    pub fn with_option<T: ToOptionVal>(self, key: &'b str, val: T) -> (r: Self)
        ensures
            r.options.view_v() == self.options.view_v().push((key@, val.option_text())),
            r.keeps(self),
    {
        let mut s = self;
        s.options.push(key, val);
        s
    }

    pub fn with_consistency<T: ToOptionVal>(self, val: T) -> (r: Self)
        ensures
            r.options.view_v() == self.options.view_v().push(("consistency"@, val.option_text())),
            r.keeps(self),
    {
        self.with_option("consistency", val)
    }

    pub fn with_refresh<T: ToOptionVal>(self, val: T) -> (r: Self)
        ensures
            r.options.view_v() == self.options.view_v().push(("refresh"@, val.option_text())),
            r.keeps(self),
    {
        self.with_option("refresh", val)
    }

    /// `/`, then the index and the type each followed by `/` when given, then
    /// `_bulk` and the options.
    pub open spec fn url_v(&self) -> Seq<char> {
        "/"@ + (match self.index {
            Some(i) => i@ + "/"@,
            None => Seq::empty(),
        }) + (match self.doc_type {
            Some(t) => t@ + "/"@,
            None => Seq::empty(),
        }) + "_bulk"@ + options_text(self.options.view_v())
    }

    pub fn format_url(&self) -> (r: String)
        ensures
            r@ == self.url_v(),
    {
        let mut url = "/".to_owned();
        match self.index {
            Some(index) => {
                url.append(index);
                url.append("/");
            },
            None => {},
        }
        match self.doc_type {
            Some(doc_type) => {
                url.append(doc_type);
                url.append("/");
            },
            None => {},
        }
        url.append("_bulk");
        let o = self.options.to_string();
        url.append(o.as_str());
        assert(url@ =~= self.url_v());
        url
    }

    pub fn format_actions(&self) -> (r: String)
        ensures
            r@ == actions_text(self.actions@),
    {
        let mut actstr = String::new();
        let mut i: usize = 0;
        while i < self.actions.len()
            invariant
                i <= self.actions@.len(),
                actstr@ == actions_text(self.actions@.take(i as int)),
            decreases self.actions.len() - i,
        {
            self.actions[i].add(&mut actstr);
            proof {
                assert(self.actions@.take(i + 1).drop_last() =~= self.actions@.take(i as int));
            }
            i = i + 1;
        }
        assert(self.actions@.take(self.actions.len() as int) =~= self.actions@);
        actstr
    }

    /// `POST` of the actions to the bulk URL.
    pub fn request(&self) -> (r: Request)
        ensures
            r.method == Method::Post,
            r.url@ == self.url_v(),
            r.body_v() == Some(actions_text(self.actions@)),
    {
        let url = self.format_url();
        let body = self.format_actions();
        Request { method: Method::Post, url, body: Some(body) }
    }
}

/// Law: the bulk URL names the index first and the type second: with an
/// index `i` and a type `t` it is `/{i}/{t}/_bulk`, with only an index
/// `/{i}/_bulk`, with only a type `/{t}/_bulk`, with neither `/_bulk`; the
/// options follow.
pub proof fn lemma_bulk_url(op: BulkOperation)
    ensures
        ({
            let opts = options_text(op.options.view_v());
            match (op.index, op.doc_type) {
                (Some(i), Some(t)) => op.url_v() == "/"@ + i@ + "/"@ + t@ + "/_bulk"@ + opts,
                (Some(i), None) => op.url_v() == "/"@ + i@ + "/_bulk"@ + opts,
                (None, Some(t)) => op.url_v() == "/"@ + t@ + "/_bulk"@ + opts,
                (None, None) => op.url_v() == "/_bulk"@ + opts,
            }
        }),
{
    reveal_strlit("/");
    reveal_strlit("_bulk");
    reveal_strlit("/_bulk");
    let opts = options_text(op.options.view_v());
    match (op.index, op.doc_type) {
        (Some(i), Some(t)) => {
            assert(op.url_v() =~= "/"@ + i@ + "/"@ + t@ + "/_bulk"@ + opts);
        },
        (Some(i), None) => {
            assert(op.url_v() =~= "/"@ + i@ + "/_bulk"@ + opts);
        },
        (None, Some(t)) => {
            assert(op.url_v() =~= "/"@ + t@ + "/_bulk"@ + opts);
        },
        (None, None) => {
            assert(op.url_v() =~= "/_bulk"@ + opts);
        },
    }
}

/// The result of specific actions
#[derive(Debug)]
pub struct ActionResult {
    pub action: ActionType,
    pub inner: ActionResultInner,
}

impl ActionResult {
    /// Reads one item of a bulk response, which is an object whose single key
    /// names the action.
    pub fn from_entry(key: &str, inner: ActionResultInner) -> (r: Result<ActionResult, EsError>)
        ensures
            r is Ok <==> ActionType::from_text(key@) is Some,
            r matches Ok(a) ==> a.action == ActionType::from_text(key@).unwrap() && a.inner == inner,
            r is Err ==> (r matches Err(EsError::JsonError(m)) && m@ == "Unrecognised key: "@ + key@),
    {
        match ActionType::from_key(key) {
            Some(action) => Ok(ActionResult { action, inner }),
            None => {
                let mut msg = "Unrecognised key: ".to_owned();
                msg.append(key);
                Err(EsError::JsonError(msg))
            },
        }
    }

    /// Reads one item of a bulk response from its entries, each key with its
    /// decoded value: the item must have exactly one entry, read by
    /// `from_entry`.
    pub fn from_entries(entries: Vec<(String, ActionResultInner)>) -> (r: Result<ActionResult, EsError>)
        ensures
            entries@.len() == 0 ==> (r matches Err(EsError::JsonError(m)) && m@ == "expecting at least one field"@),
            entries@.len() > 1 ==> (r matches Err(EsError::JsonError(m)) && m@ == "expecting exactly one field"@),
            entries@.len() == 1 ==> {
                let key = entries@[0].0@;
                &&& r is Ok <==> ActionType::from_text(key) is Some
                &&& r matches Ok(a) ==> a.action == ActionType::from_text(key).unwrap() && a.inner == entries@[0].1
                &&& r is Err ==> (r matches Err(EsError::JsonError(m)) && m@ == "Unrecognised key: "@ + key)
            },
    {
        if entries.len() == 0 {
            return Err(EsError::JsonError("expecting at least one field".to_owned()));
        }
        if entries.len() > 1 {
            return Err(EsError::JsonError("expecting exactly one field".to_owned()));
        }
        let mut v = entries;
        let (key, inner) = v.pop().unwrap();
        ActionResult::from_entry(key.as_str(), inner)
    }
}

#[derive(Debug)]
pub struct ActionResultInner {
    pub index: String,
    pub doc_type: String,
    pub version: u64,
    pub status: u64,
    pub shards: ShardCountResult,
    pub found: Option<bool>,
}

/// The result of a bulk operation
#[derive(Debug)]
pub struct BulkResult {
    pub errors: bool,
    pub items: Vec<ActionResult>,
    pub took: u64,
}

} // verus!
