use vstd::prelude::*;
use vstd::string::StringExecFns;

use crate::text::string_views;

verus! {

broadcast use vstd::prelude::Seq::lemma_take_succ_push;

/// The body this source answers with: bare labels under one domain.
pub struct ChaosResult {
    pub domain: String,
    pub subdomains: Vec<String>,
}

impl ChaosResult {
    /// The names the batch holds: each label joined to the domain.
    pub open spec fn subdomains_view(&self) -> Seq<Seq<char>> {
        self.subdomains@.map_values(|s: String| s@ + "."@ + self.domain@)
    }

    /// Extracts the discovered names.
    pub fn subdomains(&self) -> (r: Vec<String>)
        ensures
            string_views(r@) == self.subdomains_view(),
    {
        let ghost f = |s: String| s@ + "."@ + self.domain@;
        let mut out: Vec<String> = Vec::new();
        let mut i: usize = 0;
        while i < self.subdomains.len()
            invariant
                i <= self.subdomains.len(),
                f == (|s: String| s@ + "."@ + self.domain@),
                string_views(out@) =~= self.subdomains@.take(i as int).map_values(f),
            decreases self.subdomains.len() - i,
        {
            let ghost pre = string_views(out@);
            let item = String::from_str(self.subdomains[i].as_str()).concat(".").concat(
                self.domain.as_str(),
            );
            out.push(item);
            proof {
                assert(string_views(out@) =~= pre.push(f(self.subdomains@[i as int])));
                assert(string_views(out@) =~= self.subdomains@.take(i + 1).map_values(f));
            }
            i += 1;
        }
        proof {
            assert(self.subdomains@.take(self.subdomains@.len() as int) =~= self.subdomains@);
        }
        out
    }
}

/// The Chaos source.
#[derive(Clone, Copy, Debug, Default)]
pub struct Chaos;

impl Chaos {
    /// A fresh handle on this source.
    pub fn new() -> Self {
        Chaos
    }

    /// The query that asks for the subdomains of `host`.
    pub fn build_url(&self, host: &str) -> (r: String)
        ensures
            r@ == "https://dns.projectdiscovery.io/dns/"@ + host@ + "/subdomains"@,
    {
        String::from_str("https://dns.projectdiscovery.io/dns/").concat(host).concat("/subdomains")
    }
}

} // verus!
