use vstd::prelude::*;
use vstd::string::StringExecFns;

use crate::text::{clone_strings, string_views};

verus! {

broadcast use
    vstd::prelude::Seq::lemma_take_succ_push,
    vstd::prelude::Seq::lemma_flatten_push;

/// One issuance record, with every name on the certificate.
pub struct CertSpotterResult {
    pub dns_names: Vec<String>,
}

/// The names a list of issuance records holds, in order.
pub open spec fn subdomains_view(results: Seq<CertSpotterResult>) -> Seq<Seq<char>> {
    results.map_values(|c: CertSpotterResult| string_views(c.dns_names@)).flatten()
}

/// Extracts every name of every issuance record.
pub fn subdomains(results: &Vec<CertSpotterResult>) -> (r: Vec<String>)
    ensures
        string_views(r@) == subdomains_view(results@),
{
    let ghost f = |c: CertSpotterResult| string_views(c.dns_names@);
    let mut out: Vec<String> = Vec::new();
    let mut i: usize = 0;
    while i < results.len()
        invariant
            i <= results.len(),
            f == (|c: CertSpotterResult| string_views(c.dns_names@)),
            string_views(out@) =~= results@.take(i as int).map_values(f).flatten(),
        decreases results.len() - i,
    {
        let ghost pre = out@;
        let mut piece = clone_strings(&results[i].dns_names);
        out.append(&mut piece);
        proof {
            let fv = string_views(results@[i as int].dns_names@);
            assert(string_views(out@) =~= string_views(pre) + fv);
            assert(results@.take(i + 1).map_values(f) =~= results@.take(i as int).map_values(
                f,
            ).push(fv));
            assert(results@.take(i as int).map_values(f).push(fv).flatten() =~= results@.take(
                i as int,
            ).map_values(f).flatten() + fv);
        }
        i += 1;
    }
    proof {
        assert(results@.take(results@.len() as int) =~= results@);
    }
    out
}

/// The CertSpotter source.
#[derive(Clone, Copy, Debug, Default)]
pub struct CertSpotter;

impl CertSpotter {
    /// A fresh handle on this source.
    pub fn new() -> Self {
        CertSpotter
    }

    /// The query that asks for the issuances touching `host`.
    pub fn build_url(&self, host: &str) -> (r: String)
        ensures
            r@ == "https://api.certspotter.com/v1/issuances?domain="@ + host@
                + "&include_subdomains=true&expand=dns_names"@,
    {
        String::from_str("https://api.certspotter.com/v1/issuances?domain=").concat(host).concat(
            "&include_subdomains=true&expand=dns_names",
        )
    }
}

} // verus!
