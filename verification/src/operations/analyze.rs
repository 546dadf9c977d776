//! Implementation of ElasticSearch Analyze operation

use vstd::prelude::*;

use super::{Method, Request};

verus! {

#[derive(Debug)]
pub struct AnalyzeOperation<'b> {
    pub body: &'b str,
    pub index: Option<&'b str>,
    pub analyzer: Option<&'b str>,
}

impl<'b> AnalyzeOperation<'b> {
    pub fn new(body: &'b str) -> (r: Self)
        ensures
            r.body == body,
            r.index is None,
            r.analyzer is None,
    {
        AnalyzeOperation { body, index: None, analyzer: None }
    }

    pub fn with_index(self, index: &'b str) -> (r: Self)
        ensures
            r.index == Some(index),
            r.body == self.body,
            r.analyzer == self.analyzer,
    {
        AnalyzeOperation { index: Some(index), ..self }
    }

    pub fn with_analyzer(self, analyzer: &'b str) -> (r: Self)
        ensures
            r.analyzer == Some(analyzer),
            r.body == self.body,
            r.index == self.index,
    {
        AnalyzeOperation { analyzer: Some(analyzer), ..self }
    }

    /// `/_analyze`, or `{index}/_analyze` (no leading slash) for an index,
    /// followed by `?analyzer={analyzer}` when one is given.
    pub open spec fn url_v(&self) -> Seq<char> {
        (match self.index {
            None => "/_analyze"@,
            Some(index) => index@ + "/_analyze"@,
        }) + (match self.analyzer {
            None => Seq::empty(),
            Some(a) => "?analyzer="@ + a@,
        })
    }

    /// A `POST` whose body is the text to analyze.
    pub fn request(&self) -> (r: Request)
        ensures
            r.method == Method::Post,
            r.url@ == self.url_v(),
            r.body_v() == Some(self.body@),
    {
        let mut url = match self.index {
            None => "/_analyze".to_owned(),
            Some(index) => {
                let mut u = index.to_owned();
                u.append("/_analyze");
                u
            },
        };
        match self.analyzer {
            None => {},
            Some(analyzer) => {
                url.append("?analyzer=");
                url.append(analyzer);
            },
        }
        assert(url@ =~= self.url_v());
        Request { method: Method::Post, url, body: Some(self.body.to_owned()) }
    }
}

/// The result of an analyze operation
#[derive(Debug, Clone)]
pub struct AnalyzeResult {
    pub tokens: Vec<Token>,
}

#[derive(Debug, Clone)]
pub struct Token {
    pub token: String,
    pub token_type: String,
    pub position: u64,
    pub start_offset: u64,
    pub end_offset: u64,
}

} // verus!
