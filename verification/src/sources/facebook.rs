use vstd::prelude::*;
use vstd::string::StringExecFns;

use crate::text::{clone_strings, string_views};

verus! {

broadcast use
    vstd::prelude::Seq::lemma_take_succ_push,
    vstd::prelude::Seq::lemma_flatten_push;

/// One certificate record, with the names it covers.
pub struct Subdomains {
    pub domains: Vec<String>,
}

/// The body this source answers with.
pub struct FacebookResult {
    pub data: Vec<Subdomains>,
}

impl FacebookResult {
    /// The names the batch holds: every domain of every record.
    pub open spec fn subdomains_view(&self) -> Seq<Seq<char>> {
        self.data@.map_values(|c: Subdomains| string_views(c.domains@)).flatten()
    }

    /// Extracts the discovered names.
    pub fn subdomains(&self) -> (r: Vec<String>)
        ensures
            string_views(r@) == self.subdomains_view(),
    {
        let ghost f = |c: Subdomains| string_views(c.domains@);
        let mut out: Vec<String> = Vec::new();
        let mut i: usize = 0;
        while i < self.data.len()
            invariant
                i <= self.data.len(),
                f == (|c: Subdomains| string_views(c.domains@)),
                string_views(out@) =~= self.data@.take(i as int).map_values(f).flatten(),
            decreases self.data.len() - i,
        {
            let ghost pre = out@;
            let mut piece = clone_strings(&self.data[i].domains);
            out.append(&mut piece);
            proof {
                let fv = string_views(self.data@[i as int].domains@);
                assert(string_views(out@) =~= string_views(pre) + fv);
                assert(self.data@.take(i + 1).map_values(f) =~= self.data@.take(
                    i as int,
                ).map_values(f).push(fv));
                assert(self.data@.take(i as int).map_values(f).push(fv).flatten()
                    =~= self.data@.take(i as int).map_values(f).flatten() + fv);
            }
            i += 1;
        }
        proof {
            assert(self.data@.take(self.data@.len() as int) =~= self.data@);
        }
        out
    }
}

/// The Facebook certificate transparency source.
#[derive(Clone, Copy, Debug, Default)]
pub struct Facebook;

impl Facebook {
    /// A fresh handle on this source.
    pub fn new() -> Self {
        Facebook
    }

    /// The query that searches certificates for `host`, under `token`.
    pub fn build_url(&self, host: &str, token: &str) -> (r: String)
        ensures
            r@ == "https://graph.facebook.com/certificates?fields=domains&access_token="@ + token@
                + "&query=*."@ + host@,
    {
        String::from_str("https://graph.facebook.com/certificates?fields=domains&access_token=")
            .concat(token).concat("&query=*.").concat(host)
    }
}

} // verus!
