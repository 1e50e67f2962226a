use vstd::prelude::*;
use vstd::string::StringExecFns;

use crate::text::{clone_strings, string_views};

verus! {

broadcast use
    vstd::prelude::Seq::lemma_take_succ_push,
    vstd::prelude::Seq::lemma_flatten_push;

/// One search hit, with the raw names it mentions.
pub struct RecondevResult {
    pub raw_domains: Vec<String>,
}

/// The names a list of search hits holds, in order.
pub open spec fn subdomains_view(results: Seq<RecondevResult>) -> Seq<Seq<char>> {
    results.map_values(|c: RecondevResult| string_views(c.raw_domains@)).flatten()
}

/// Extracts every raw name of every search hit.
pub fn subdomains(results: &Vec<RecondevResult>) -> (r: Vec<String>)
    ensures
        string_views(r@) == subdomains_view(results@),
{
    let ghost f = |c: RecondevResult| string_views(c.raw_domains@);
    let mut out: Vec<String> = Vec::new();
    let mut i: usize = 0;
    while i < results.len()
        invariant
            i <= results.len(),
            f == (|c: RecondevResult| string_views(c.raw_domains@)),
            string_views(out@) =~= results@.take(i as int).map_values(f).flatten(),
        decreases results.len() - i,
    {
        let ghost pre = out@;
        let mut piece = clone_strings(&results[i].raw_domains);
        out.append(&mut piece);
        proof {
            let fv = string_views(results@[i as int].raw_domains@);
            assert(string_views(out@) =~= string_views(pre) + fv);
            assert(results@.take(i + 1).map_values(f) =~= results@.take(i as int).map_values(
                f,
            ).push(fv));
            assert(results@.take(i as int).map_values(f).push(fv).flatten() =~= results@.take(
                i as int,
            ).map_values(f).flatten() + fv);
        }
        i += 1;
    }
    proof {
        assert(results@.take(results@.len() as int) =~= results@);
    }
    out
}

/// The query that searches recon.dev for `host`.
pub fn build_url(host: &str) -> (r: String)
    ensures
        r@ == "https://api.recon.dev/search?domain="@ + host@,
{
    String::from_str("https://api.recon.dev/search?domain=").concat(host)
}

} // verus!
