use vstd::prelude::*;
use vstd::string::StringExecFns;

use crate::text::{clone_strings, string_views};

verus! {

/// The body this source answers with; the list is absent when the
/// provider has nothing.
pub struct ThreatCrowdResult {
    pub subdomains: Option<Vec<String>>,
}

impl ThreatCrowdResult {
    /// The names the batch holds, none when the list is absent.
    pub open spec fn subdomains_view(&self) -> Seq<Seq<char>> {
        match self.subdomains {
            Some(v) => string_views(v@),
            None => Seq::empty(),
        }
    }

    /// Extracts the discovered names.
    pub fn subdomains(&self) -> (r: Vec<String>)
        ensures
            string_views(r@) == self.subdomains_view(),
    {
        match &self.subdomains {
            Some(v) => clone_strings(v),
            None => {
                let r: Vec<String> = Vec::new();
                proof {
                    assert(string_views(r@) =~= Seq::<Seq<char>>::empty());
                }
                r
            },
        }
    }
}

/// The ThreatCrowd source.
#[derive(Clone, Copy, Debug, Default)]
pub struct ThreatCrowd;

impl ThreatCrowd {
    /// A fresh handle on this source.
    pub fn new() -> Self {
        ThreatCrowd
    }

    /// The query that asks for the report on `host`.
    pub fn build_url(&self, host: &str) -> (r: String)
        ensures
            r@ == "https://www.threatcrowd.org/searchApi/v2/domain/report/?domain="@ + host@,
    {
        String::from_str("https://www.threatcrowd.org/searchApi/v2/domain/report/?domain=").concat(
            host,
        )
    }
}

} // verus!
