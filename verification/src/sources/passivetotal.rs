use vstd::prelude::*;
use vstd::string::StringExecFns;

use crate::text::string_views;

verus! {

broadcast use vstd::prelude::Seq::lemma_take_succ_push;

/// The body this source expects as its query.
pub struct Query {
    pub query: String,
}

impl Query {
    /// A query for one host.
    pub fn new(host: &str) -> (r: Self)
        ensures
            r.query@ == host@,
    {
        Query { query: host.to_owned() }
    }
}

/// The body this source answers with: bare labels under one domain.
pub struct PassiveTotalResult {
    pub success: bool,
    pub primary_domain: String,
    pub subdomains: Vec<String>,
}

impl PassiveTotalResult {
    /// The names the batch holds: each label joined to the domain.
    pub open spec fn subdomains_view(&self) -> Seq<Seq<char>> {
        self.subdomains@.map_values(|s: String| s@ + "."@ + self.primary_domain@)
    }

    /// Extracts the discovered names.
    pub fn subdomains(&self) -> (r: Vec<String>)
        ensures
            string_views(r@) == self.subdomains_view(),
    {
        let ghost f = |s: String| s@ + "."@ + self.primary_domain@;
        let mut out: Vec<String> = Vec::new();
        let mut i: usize = 0;
        while i < self.subdomains.len()
            invariant
                i <= self.subdomains.len(),
                f == (|s: String| s@ + "."@ + self.primary_domain@),
                string_views(out@) =~= self.subdomains@.take(i as int).map_values(f),
            decreases self.subdomains.len() - i,
        {
            let ghost pre = string_views(out@);
            let item = String::from_str(self.subdomains[i].as_str()).concat(".").concat(
                self.primary_domain.as_str(),
            );
            out.push(item);
            proof {
                assert(string_views(out@) =~= pre.push(f(self.subdomains@[i as int])));
                assert(string_views(out@) =~= self.subdomains@.take(i + 1).map_values(f));
            }
            i += 1;
        }
        proof {
            assert(self.subdomains@.take(self.subdomains@.len() as int) =~= self.subdomains@);
        }
        out
    }
}

/// The PassiveTotal source.
#[derive(Clone, Copy, Debug, Default)]
pub struct PassiveTotal;

impl PassiveTotal {
    /// A fresh handle on this source.
    pub fn new() -> Self {
        PassiveTotal
    }

    /// The enrichment endpoint; the host travels in the request body.
    pub fn build_url(&self) -> (r: String)
        ensures
            r@ == "https://api.passivetotal.org/v2/enrichment/subdomains"@,
    {
        String::from_str("https://api.passivetotal.org/v2/enrichment/subdomains")
    }
}

} // verus!
