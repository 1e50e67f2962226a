use vstd::prelude::*;
use vstd::string::StringExecFns;

use crate::text::string_views;

verus! {

broadcast use vstd::prelude::Seq::lemma_take_succ_push;

/// One certificate log entry.
pub struct CrtshResult {
    pub name_value: String,
}

/// The names a list of log entries holds, in order.
pub open spec fn subdomains_view(results: Seq<CrtshResult>) -> Seq<Seq<char>> {
    results.map_values(|c: CrtshResult| c.name_value@)
}

/// Extracts the name of every log entry.
pub fn subdomains(results: &Vec<CrtshResult>) -> (r: Vec<String>)
    ensures
        string_views(r@) == subdomains_view(results@),
{
    let mut out: Vec<String> = Vec::new();
    let mut i: usize = 0;
    while i < results.len()
        invariant
            i <= results.len(),
            string_views(out@) =~= results@.take(i as int).map_values(
                |c: CrtshResult| c.name_value@,
            ),
        decreases results.len() - i,
    {
        let ghost pre = string_views(out@);
        out.push(results[i].name_value.clone());
        proof {
            assert(string_views(out@) =~= pre.push(results@[i as int].name_value@));
            assert(string_views(out@) =~= results@.take(i + 1).map_values(
                |c: CrtshResult| c.name_value@,
            ));
        }
        i += 1;
    }
    proof {
        assert(results@.take(results@.len() as int) =~= results@);
    }
    out
}

/// The crt.sh source.
#[derive(Clone, Copy, Debug, Default)]
pub struct Crtsh;

impl Crtsh {
    /// A fresh handle on this source.
    pub fn new() -> Self {
        Crtsh
    }

    /// The query that searches the logs for `host` and its subdomains.
    pub fn build_url(&self, host: &str) -> (r: String)
        ensures
            r@ == "https://crt.sh/?q=%."@ + host@ + "&output=json"@,
    {
        String::from_str("https://crt.sh/?q=%.").concat(host).concat("&output=json")
    }
}

} // verus!
