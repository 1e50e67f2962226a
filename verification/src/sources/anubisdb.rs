use vstd::prelude::*;
use vstd::string::StringExecFns;

use crate::text::{clone_strings, string_views};

verus! {

/// The body this source answers with: the text of each element of the
/// answered array.
pub struct AnubisResult {
    pub results: Vec<String>,
}

impl AnubisResult {
    /// Wraps an answered array.
    pub fn new(results: Vec<String>) -> (r: Self)
        ensures
            r.results@ == results@,
    {
        AnubisResult { results }
    }

    /// Extracts the discovered names: the array elements as they came.
    pub fn subdomains(&self) -> (r: Vec<String>)
        ensures
            string_views(r@) == string_views(self.results@),
    {
        clone_strings(&self.results)
    }
}

/// The AnubisDB source.
#[derive(Clone, Copy, Debug, Default)]
pub struct AnubisDB;

impl AnubisDB {
    /// A fresh handle on this source.
    pub fn new() -> Self {
        AnubisDB
    }

    /// The query that asks for the subdomains of `host`.
    pub fn build_url(&self, host: &str) -> (r: String)
        ensures
            r@ == "https://jldc.me/anubis/subdomains/"@ + host@,
    {
        String::from_str("https://jldc.me/anubis/subdomains/").concat(host)
    }
}

} // verus!
