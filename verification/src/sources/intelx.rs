use vstd::prelude::*;
use vstd::string::StringExecFns;

use crate::text::string_views;

verus! {

broadcast use vstd::prelude::Seq::lemma_take_succ_push;

/// The phonebook search request.
pub struct Query {
    pub term: String,
    pub maxresults: i32,
    pub media: usize,
    pub target: usize,
    pub timeout: i32,
}

impl Query {
    /// A query for one term, with the fixed search parameters.
    pub fn new(term: String) -> (r: Self)
        ensures
            r.term@ == term@,
            r.maxresults == 100000,
            r.media == 0,
            r.target == 1,
            r.timeout == 20,
    {
        Query { term, maxresults: 100000, media: 0, target: 1, timeout: 20 }
    }
}

/// The identifier a search request is answered with.
pub struct SearchId {
    pub id: String,
}

/// One selector of the result listing.
pub struct IntelxItem {
    pub selectorvalue: String,
}

/// The body a result request is answered with.
pub struct IntelxResults {
    pub selectors: Vec<IntelxItem>,
    pub status: usize,
}

impl IntelxResults {
    /// The names the batch holds: each selector's value.
    pub open spec fn subdomains_view(&self) -> Seq<Seq<char>> {
        self.selectors@.map_values(|s: IntelxItem| s.selectorvalue@)
    }

    /// Extracts the discovered names.
    pub fn subdomains(&self) -> (r: Vec<String>)
        ensures
            string_views(r@) == self.subdomains_view(),
    {
        let mut out: Vec<String> = Vec::new();
        let mut i: usize = 0;
        while i < self.selectors.len()
            invariant
                i <= self.selectors.len(),
                string_views(out@) =~= self.selectors@.take(i as int).map_values(
                    |s: IntelxItem| s.selectorvalue@,
                ),
            decreases self.selectors.len() - i,
        {
            let ghost pre = string_views(out@);
            out.push(self.selectors[i].selectorvalue.clone());
            proof {
                assert(string_views(out@) =~= pre.push(self.selectors@[i as int].selectorvalue@));
                assert(string_views(out@) =~= self.selectors@.take(i + 1).map_values(
                    |s: IntelxItem| s.selectorvalue@,
                ));
            }
            i += 1;
        }
        proof {
            assert(self.selectors@.take(self.selectors@.len() as int) =~= self.selectors@);
        }
        out
    }
}

/// The Intelx source.
#[derive(Clone, Copy, Debug, Default)]
pub struct Intelx;

impl Intelx {
    /// A fresh handle on this source.
    pub fn new() -> Self {
        Intelx
    }

    /// The search endpoint while `querying`; afterwards, the result
    /// endpoint for the search whose identifier is given.
    pub fn build_url(
        &self,
        intelx_url: &str,
        api_key: &str,
        querying: bool,
        search_id: Option<&str>,
    ) -> (r: String)
        requires
            !querying ==> search_id is Some,
        ensures
            querying ==> r@ == "https://"@ + intelx_url@ + "/phonebook/search?k="@ + api_key@,
            !querying ==> r@ == "https://"@ + intelx_url@ + "/phonebook/search/result?k="@
                + api_key@ + "&id="@ + search_id->0@ + "&limit=100000"@,
    {
        if querying {
            String::from_str("https://").concat(intelx_url).concat("/phonebook/search?k=").concat(
                api_key,
            )
        } else {
            String::from_str("https://").concat(intelx_url).concat(
                "/phonebook/search/result?k=",
            ).concat(api_key).concat("&id=").concat(search_id.unwrap()).concat("&limit=100000")
        }
    }
}

} // verus!
