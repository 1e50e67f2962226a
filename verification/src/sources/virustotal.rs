use vstd::prelude::*;
use vstd::string::StringExecFns;

use crate::text::string_views;

verus! {

broadcast use vstd::prelude::Seq::lemma_take_succ_push;

/// One discovered name.
pub struct Subdomain {
    pub id: String,
}

/// The body this source answers with; the list is absent when the
/// provider has nothing.
pub struct VirustotalResult {
    pub data: Option<Vec<Subdomain>>,
}

impl VirustotalResult {
    /// The names the batch holds, none when the list is absent.
    pub open spec fn subdomains_view(&self) -> Seq<Seq<char>> {
        match self.data {
            Some(v) => v@.map_values(|s: Subdomain| s.id@),
            None => Seq::empty(),
        }
    }

    /// Extracts the discovered names.
    pub fn subdomains(&self) -> (r: Vec<String>)
        ensures
            string_views(r@) == self.subdomains_view(),
    {
        let mut out: Vec<String> = Vec::new();
        match &self.data {
            Some(v) => {
                let mut i: usize = 0;
                while i < v.len()
                    invariant
                        i <= v.len(),
                        string_views(out@) =~= v@.take(i as int).map_values(
                            |s: Subdomain| s.id@,
                        ),
                    decreases v.len() - i,
                {
                    let ghost pre = string_views(out@);
                    out.push(v[i].id.clone());
                    proof {
                        assert(string_views(out@) =~= pre.push(v@[i as int].id@));
                        assert(string_views(out@) =~= v@.take(i + 1).map_values(
                            |s: Subdomain| s.id@,
                        ));
                    }
                    i += 1;
                }
                proof {
                    assert(v@.take(v@.len() as int) =~= v@);
                }
            },
            None => {
                proof {
                    assert(string_views(out@) =~= Seq::<Seq<char>>::empty());
                }
            },
        }
        out
    }
}

/// The VirusTotal source.
#[derive(Clone, Copy, Debug, Default)]
pub struct VirusTotal;

impl VirusTotal {
    /// A fresh handle on this source.
    pub fn new() -> Self {
        VirusTotal
    }

    /// The query that asks for the subdomains of `host`.
    pub fn build_url(&self, host: &str) -> (r: String)
        ensures
            r@ == "https://www.virustotal.com/ui/domains/"@ + host@ + "/subdomains?limit=40"@,
    {
        String::from_str("https://www.virustotal.com/ui/domains/").concat(host).concat(
            "/subdomains?limit=40",
        )
    }
}

} // verus!
