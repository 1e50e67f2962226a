use vstd::prelude::*;
use vstd::string::StringExecFns;

use crate::text::string_views;

verus! {

broadcast use vstd::prelude::Seq::lemma_take_succ_push;

/// One discovered name.
pub struct Subdomain {
    pub name: String,
}

/// The paged list inside the answer.
pub struct SpyseItem {
    pub items: Vec<Subdomain>,
}

/// The body this source answers with.
pub struct SpyseResult {
    pub data: SpyseItem,
}

impl SpyseResult {
    /// The names the batch holds.
    pub open spec fn subdomains_view(&self) -> Seq<Seq<char>> {
        self.data.items@.map_values(|s: Subdomain| s.name@)
    }

    /// Extracts the discovered names.
    pub fn subdomains(&self) -> (r: Vec<String>)
        ensures
            string_views(r@) == self.subdomains_view(),
    {
        let mut out: Vec<String> = Vec::new();
        let mut i: usize = 0;
        while i < self.data.items.len()
            invariant
                i <= self.data.items.len(),
                string_views(out@) =~= self.data.items@.take(i as int).map_values(
                    |s: Subdomain| s.name@,
                ),
            decreases self.data.items.len() - i,
        {
            let ghost pre = string_views(out@);
            out.push(self.data.items[i].name.clone());
            proof {
                assert(string_views(out@) =~= pre.push(self.data.items@[i as int].name@));
                assert(string_views(out@) =~= self.data.items@.take(i + 1).map_values(
                    |s: Subdomain| s.name@,
                ));
            }
            i += 1;
        }
        proof {
            assert(self.data.items@.take(self.data.items@.len() as int) =~= self.data.items@);
        }
        out
    }
}

/// The Spyse source.
#[derive(Clone, Copy, Debug, Default)]
pub struct Spyse;

impl Spyse {
    /// A fresh handle on this source.
    pub fn new() -> Self {
        Spyse
    }

    /// The query that asks for the subdomains of `host`.
    pub fn build_url(&self, host: &str) -> (r: String)
        ensures
            r@ == "https://api.spyse.com/v3/data/domain/subdomain?limit=100&domain="@ + host@,
    {
        String::from_str("https://api.spyse.com/v3/data/domain/subdomain?limit=100&domain=").concat(
            host,
        )
    }
}

} // verus!
