//! Implementations of specific ElasticSearch operations: for each, the request
//! it makes (method, URL and body).  The client sends them.

use vstd::prelude::*;

use crate::json::seq_join;
use crate::util::{lemma_str_join_single_char, StrJoin};

pub mod common;

pub mod analyze;
pub mod bulk;
pub mod delete;
pub mod delete_index;
pub mod get;
pub mod index;
pub mod mapping;
pub mod refresh;
pub mod search;
pub mod version;

verus! {

/// The HTTP method of a request.
#[derive(Debug, Clone, Copy, PartialEq, Eq)]
pub enum Method {
    Get,
    Post,
    Put,
    Delete,
}

/// The views of a list of names.
pub open spec fn names_v(parts: Seq<&str>) -> Seq<Seq<char>> {
    Seq::new(parts.len(), |i: int| parts[i]@)
}

/// How a parameter that takes several values is written: `_all` for none,
/// otherwise the values separated by commas.
pub open spec fn multi_text(parts: Seq<Seq<char>>) -> Seq<char> {
    if parts.len() == 0 {
        "_all"@
    } else {
        seq_join(parts, seq![','])
    }
}

/// A repeating convention in the ElasticSearch REST API is parameters that can
/// take multiple values
pub fn format_multi(parts: &[&str]) -> (r: String)
    ensures
        r@ == multi_text(names_v(parts@)),
{
    if parts.len() == 0 {
        "_all".to_owned()
    } else if parts.len() == 1 {
        assert(names_v(parts@)[0] == parts@[0]@);
        parts[0].to_owned()
    } else {
        let v: Vec<&str> = vstd::slice::slice_to_vec(parts);
        assert(v.parts_v() =~= names_v(parts@));
        let r = StrJoin::join(&v, ",");
        proof {
            reveal_strlit(",");
            lemma_str_join_single_char(names_v(parts@), ',');
            assert(","@ =~= seq![',']);
        }
        r
    }
}

/// How indexes and types are combined in a path: all indexes is `_all`, but
/// all types is written by leaving the types out.
pub open spec fn indexes_and_types_text(indexes: Seq<Seq<char>>, types: Seq<Seq<char>>) -> Seq<char> {
    if types.len() == 0 {
        multi_text(indexes)
    } else {
        multi_text(indexes) + seq!['/'] + multi_text(types)
    }
}

/// Multiple operations require indexes and types to be specified, there are
/// rules for combining the two however.
pub fn format_indexes_and_types(indexes: &[&str], types: &[&str]) -> (r: String)
    ensures
        r@ == indexes_and_types_text(names_v(indexes@), names_v(types@)),
{
    if types.len() == 0 {
        format_multi(indexes)
    } else {
        let mut s = format_multi(indexes);
        s.append("/");
        let t = format_multi(types);
        s.append(t.as_str());
        proof {
            reveal_strlit("/");
        }
        assert(s@ =~= indexes_and_types_text(names_v(indexes@), names_v(types@)));
        s
    }
}

/// A request for the server: method, path (with query string) and body.
#[derive(Debug)]
pub struct Request {
    pub method: Method,
    pub url: String,
    pub body: Option<String>,
}

impl Request {
    pub open spec fn body_v(&self) -> Option<Seq<char>> {
        match self.body {
            Some(b) => Some(b@),
            None => None,
        }
    }
}

/// The statuses under which a response is read rather than turned into an
/// error: OK, Created and Not Found.
pub open spec fn accepted_status(code: u16) -> bool {
    code == 200 || code == 201 || code == 404
}

/// Whether a response with this status is handed on to be read.
pub fn is_accepted_status(code: u16) -> (r: bool)
    ensures
        r == accepted_status(code),
{
    code == 200 || code == 201 || code == 404
}

/// What a reply that must be OK gives: with OK (200), what `read_ok` makes of
/// its body (itself a result: the body may not decode); with any other
/// status, the error `"Unexpected status: {status}"`.  `read_ok` is called
/// only for OK.
pub fn ok_reply<R, F: FnOnce() -> R>(status: u16, status_text: &str, read_ok: F) -> (r: Result<
    R,
    crate::error::EsError,
>)
    requires
        status == 200 ==> read_ok.requires(()),
    ensures
        status == 200 ==> (r matches Ok(x) && read_ok.ensures((), x)),
        status != 200 ==> (r matches Err(crate::error::EsError::EsError(m)) && m@ == "Unexpected status: "@
            + status_text@),
{
    if status == 200 {
        Ok(read_ok())
    } else {
        let mut m = "Unexpected status: ".to_owned();
        m.append(status_text);
        Err(crate::error::EsError::EsError(m))
    }
}

/// Shared struct for operations that include counts of success/failed shards.
/// This is returned within various other result structs.
#[derive(Debug, Clone, Copy, PartialEq, Eq)]
pub struct ShardCountResult {
    pub total: u64,
    pub successful: u64,
    pub failed: u64,
}

#[derive(Debug, Clone, Copy, PartialEq, Eq)]
pub struct GenericResult {
    pub acknowledged: bool,
}

} // verus!
