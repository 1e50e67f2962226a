use vstd::prelude::*;
use vstd::string::StringExecFns;

use crate::text::string_views;

verus! {

broadcast use vstd::prelude::Seq::lemma_take_succ_push;

/// One record of passive DNS data.
pub struct Subdomain {
    pub hostname: String,
}

/// The body this source answers with.
pub struct AlienvaultResult {
    pub passive_dns: Vec<Subdomain>,
    pub count: i32,
}

impl AlienvaultResult {
    /// The names the batch holds: each record's hostname.
    pub open spec fn subdomains_view(&self) -> Seq<Seq<char>> {
        self.passive_dns@.map_values(|s: Subdomain| s.hostname@)
    }

    /// Extracts the discovered names.
    pub fn subdomains(&self) -> (r: Vec<String>)
        ensures
            string_views(r@) == self.subdomains_view(),
    {
        let mut out: Vec<String> = Vec::new();
        let mut i: usize = 0;
        while i < self.passive_dns.len()
            invariant
                i <= self.passive_dns.len(),
                string_views(out@) =~= self.passive_dns@.take(i as int).map_values(
                    |s: Subdomain| s.hostname@,
                ),
            decreases self.passive_dns.len() - i,
        {
            let ghost pre = string_views(out@);
            out.push(self.passive_dns[i].hostname.clone());
            proof {
                assert(string_views(out@) =~= pre.push(self.passive_dns@[i as int].hostname@));
                assert(string_views(out@) =~= self.passive_dns@.take(i + 1).map_values(
                    |s: Subdomain| s.hostname@,
                ));
            }
            i += 1;
        }
        proof {
            assert(self.passive_dns@.take(self.passive_dns@.len() as int) =~= self.passive_dns@);
        }
        out
    }
}

/// The AlienVault OTX passive DNS source.
#[derive(Clone, Copy, Debug, Default)]
pub struct AlienVault;

impl AlienVault {
    /// A fresh handle on this source.
    pub fn new() -> Self {
        AlienVault
    }

    /// The query that asks for the passive DNS records of `host`.
    pub fn build_url(&self, host: &str) -> (r: String)
        ensures
            r@ == "https://otx.alienvault.com/api/v1/indicators/domain/"@ + host@
                + "/passive_dns"@,
    {
        String::from_str("https://otx.alienvault.com/api/v1/indicators/domain/").concat(
            host,
        ).concat("/passive_dns")
    }
}

} // verus!
