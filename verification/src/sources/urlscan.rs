use vstd::prelude::*;
use vstd::string::StringExecFns;

use crate::text::string_views;

verus! {

broadcast use vstd::prelude::Seq::lemma_take_succ_push;

/// The page a scan was seen on.
pub struct UrlScanDomain {
    pub domain: String,
}

/// One search hit.
pub struct UrlScanPage {
    pub page: UrlScanDomain,
}

/// The body this source answers with.
pub struct UrlScanResult {
    pub results: Vec<UrlScanPage>,
}

impl UrlScanResult {
    /// The names the batch holds: each hit's page domain.
    pub open spec fn subdomains_view(&self) -> Seq<Seq<char>> {
        self.results@.map_values(|s: UrlScanPage| s.page.domain@)
    }

    /// Extracts the discovered names.
    pub fn subdomains(&self) -> (r: Vec<String>)
        ensures
            string_views(r@) == self.subdomains_view(),
    {
        let mut out: Vec<String> = Vec::new();
        let mut i: usize = 0;
        while i < self.results.len()
            invariant
                i <= self.results.len(),
                string_views(out@) =~= self.results@.take(i as int).map_values(
                    |s: UrlScanPage| s.page.domain@,
                ),
            decreases self.results.len() - i,
        {
            let ghost pre = string_views(out@);
            out.push(self.results[i].page.domain.clone());
            proof {
                assert(string_views(out@) =~= pre.push(self.results@[i as int].page.domain@));
                assert(string_views(out@) =~= self.results@.take(i + 1).map_values(
                    |s: UrlScanPage| s.page.domain@,
                ));
            }
            i += 1;
        }
        proof {
            assert(self.results@.take(self.results@.len() as int) =~= self.results@);
        }
        out
    }
}

/// The UrlScan source.
#[derive(Clone, Copy, Debug, Default)]
pub struct UrlScan;

impl UrlScan {
    /// A fresh handle on this source.
    pub fn new() -> Self {
        UrlScan
    }

    /// The query that searches scans for `host`.
    pub fn build_url(&self, host: &str) -> (r: String)
        ensures
            r@ == "https://urlscan.io/api/v1/search/?q=domain:"@ + host@,
    {
        String::from_str("https://urlscan.io/api/v1/search/?q=domain:").concat(host)
    }
}

} // verus!
