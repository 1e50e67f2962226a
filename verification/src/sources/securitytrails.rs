use vstd::prelude::*;
use vstd::string::StringExecFns;

use crate::text::string_views;

verus! {

broadcast use vstd::prelude::Seq::lemma_take_succ_push;

/// The body this source answers with: bare labels under the queried
/// host, which the caller records here.
pub struct SecTrailsResult {
    pub subdomains: Vec<String>,
    pub host: String,
}

impl SecTrailsResult {
    /// The names the batch holds: each label joined to the host.
    pub open spec fn subdomains_view(&self) -> Seq<Seq<char>> {
        self.subdomains@.map_values(|s: String| s@ + "."@ + self.host@)
    }

    /// Extracts the discovered names.
    pub fn subdomains(&self) -> (r: Vec<String>)
        ensures
            string_views(r@) == self.subdomains_view(),
    {
        let ghost f = |s: String| s@ + "."@ + self.host@;
        let mut out: Vec<String> = Vec::new();
        let mut i: usize = 0;
        while i < self.subdomains.len()
            invariant
                i <= self.subdomains.len(),
                f == (|s: String| s@ + "."@ + self.host@),
                string_views(out@) =~= self.subdomains@.take(i as int).map_values(f),
            decreases self.subdomains.len() - i,
        {
            let ghost pre = string_views(out@);
            let item = String::from_str(self.subdomains[i].as_str()).concat(".").concat(
                self.host.as_str(),
            );
            out.push(item);
            proof {
                assert(string_views(out@) =~= pre.push(f(self.subdomains@[i as int])));
                assert(string_views(out@) =~= self.subdomains@.take(i + 1).map_values(f));
            }
            i += 1;
        }
        proof {
            assert(self.subdomains@.take(self.subdomains@.len() as int) =~= self.subdomains@);
        }
        out
    }
}

/// The SecurityTrails source.
#[derive(Clone, Copy, Debug, Default)]
pub struct SecurityTrails;

impl SecurityTrails {
    /// A fresh handle on this source.
    pub fn new() -> Self {
        SecurityTrails
    }

    /// The query that asks for the subdomains of `host`.
    pub fn build_url(&self, host: &str) -> (r: String)
        ensures
            r@ == "https://api.securitytrails.com/v1/domain/"@ + host@ + "/subdomains"@,
    {
        String::from_str("https://api.securitytrails.com/v1/domain/").concat(host).concat(
            "/subdomains",
        )
    }
}

} // verus!
