use vstd::prelude::*;
use vstd::string::StringExecFns;

use crate::text::{clone_strings, string_views};

verus! {

/// The body this source answers with: the text of each element of the
/// answered array.
pub struct SublisterResult {
    pub items: Vec<String>,
}

impl SublisterResult {
    /// Wraps an answered array.
    pub fn new(items: Vec<String>) -> (r: Self)
        ensures
            r.items@ == items@,
    {
        SublisterResult { items }
    }

    /// Extracts the discovered names: the array elements as they came.
    pub fn subdomains(&self) -> (r: Vec<String>)
        ensures
            string_views(r@) == string_views(self.items@),
    {
        clone_strings(&self.items)
    }
}

/// The Sublist3r source.
#[derive(Clone, Copy, Debug, Default)]
pub struct Sublister;

impl Sublister {
    /// A fresh handle on this source.
    pub fn new() -> Self {
        Sublister
    }

    /// The query that asks for the subdomains of `host`.
    pub fn build_url(&self, host: &str) -> (r: String)
        ensures
            r@ == "https://api.sublist3r.com/search.php?domain="@ + host@,
    {
        String::from_str("https://api.sublist3r.com/search.php?domain=").concat(host)
    }
}

} // verus!
