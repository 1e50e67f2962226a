use vstd::prelude::*;
use vstd::string::StringExecFns;

use crate::text::string_views;

verus! {

broadcast use vstd::prelude::Seq::lemma_take_succ_push;

/// One discovered name.
pub struct C99Item {
    pub subdomain: String,
}

/// The body this source answers with; the list is absent when the
/// provider has nothing.
pub struct C99Result {
    pub subdomains: Option<Vec<C99Item>>,
}

impl C99Result {
    /// The names the batch holds, none when the list is absent.
    pub open spec fn subdomains_view(&self) -> Seq<Seq<char>> {
        match self.subdomains {
            Some(v) => v@.map_values(|s: C99Item| s.subdomain@),
            None => Seq::empty(),
        }
    }

    /// Extracts the discovered names.
    pub fn subdomains(&self) -> (r: Vec<String>)
        ensures
            string_views(r@) == self.subdomains_view(),
    {
        let mut out: Vec<String> = Vec::new();
        match &self.subdomains {
            Some(v) => {
                let mut i: usize = 0;
                while i < v.len()
                    invariant
                        i <= v.len(),
                        string_views(out@) =~= v@.take(i as int).map_values(
                            |s: C99Item| s.subdomain@,
                        ),
                    decreases v.len() - i,
                {
                    let ghost pre = string_views(out@);
                    out.push(v[i].subdomain.clone());
                    proof {
                        assert(string_views(out@) =~= pre.push(v@[i as int].subdomain@));
                        assert(string_views(out@) =~= v@.take(i + 1).map_values(
                            |s: C99Item| s.subdomain@,
                        ));
                    }
                    i += 1;
                }
                proof {
                    assert(v@.take(v@.len() as int) =~= v@);
                }
            },
            None => {
                proof {
                    assert(string_views(out@) =~= Seq::<Seq<char>>::empty());
                }
            },
        }
        out
    }
}

/// The C99 source.
#[derive(Clone, Copy, Debug, Default)]
pub struct C99;

impl C99 {
    /// A fresh handle on this source.
    pub fn new() -> Self {
        C99
    }

    /// The query that asks for the subdomains of `host`, under `api_key`.
    pub fn build_url(&self, host: &str, api_key: &str) -> (r: String)
        ensures
            r@ == "https://api.c99.nl/subdomainfinder?key="@ + api_key@ + "&domain="@ + host@
                + "&json"@,
    {
        String::from_str("https://api.c99.nl/subdomainfinder?key=").concat(api_key).concat(
            "&domain=",
        ).concat(host).concat("&json")
    }
}

} // verus!
