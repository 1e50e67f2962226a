use vstd::prelude::*;
use vstd::string::StringExecFns;

use crate::text::{fields, first_sep, lemma_first_sep_le_len, lines_of, split_char, split_lines,
    str_eq, string_views};

verus! {

broadcast use vstd::prelude::Seq::lemma_take_succ_push;

/// The answer that stands for "no data" with this provider.
pub fn is_api_error(resp: &str) -> (r: bool)
    ensures
        r == (resp@ == "error check your search parameter"@),
{
    str_eq(resp, "error check your search parameter")
}

/// The body this source answers with: comma-separated lines, the name
/// first on each.
pub struct HTResult {
    pub items: String,
}

impl HTResult {
    /// Wraps an answered body.
    pub fn new(items: String) -> (r: Self)
        ensures
            r.items@ == items@,
    {
        HTResult { items }
    }

    /// The names the batch holds: the part of each line before its
    /// first comma.
    pub open spec fn subdomains_view(&self) -> Seq<Seq<char>> {
        lines_of(self.items@).map_values(|l: Seq<char>| l.take(first_sep(l, ',') as int))
    }

    /// Extracts the discovered names.
    pub fn subdomains(&self) -> (r: Vec<String>)
        ensures
            string_views(r@) == self.subdomains_view(),
    {
        let ghost f = |l: Seq<char>| l.take(first_sep(l, ',') as int);
        let lines = split_lines(self.items.as_str());
        let ghost lv = lines_of(self.items@);
        let mut out: Vec<String> = Vec::new();
        let mut i: usize = 0;
        while i < lines.len()
            invariant
                i <= lines.len(),
                f == (|l: Seq<char>| l.take(first_sep(l, ',') as int)),
                string_views(lines@) == lv,
                string_views(out@) =~= lv.take(i as int).map_values(f),
            decreases lines.len() - i,
        {
            let pieces = split_char(lines[i].as_str(), ',');
            proof {
                let l = lv[i as int];
                lemma_first_sep_le_len(l, ',');
                let k = first_sep(l, ',') as int;
                if k >= l.len() {
                    assert(fields(l, ',')[0] == l);
                    assert(l.take(l.len() as int) =~= l);
                    assert(fields(l, ',')[0] == f(l));
                } else {
                    assert(fields(l, ',')[0] == l.take(k));
                }
                assert(fields(l, ',').len() >= 1);
            }
            let ghost pre = string_views(out@);
            out.push(pieces[0].clone());
            proof {
                assert(string_views(out@) =~= pre.push(f(lv[i as int])));
                assert(string_views(out@) =~= lv.take(i + 1).map_values(f));
            }
            i += 1;
        }
        proof {
            assert(lv.take(lv.len() as int) =~= lv);
        }
        out
    }
}

/// The HackerTarget source.
#[derive(Clone, Copy, Debug, Default)]
pub struct HackerTarget;

impl HackerTarget {
    /// A fresh handle on this source.
    pub fn new() -> Self {
        HackerTarget
    }

    /// The query that searches hosts matching `host`.
    pub fn build_url(&self, host: &str) -> (r: String)
        ensures
            r@ == "https://api.hackertarget.com/hostsearch/?q="@ + host@,
    {
        String::from_str("https://api.hackertarget.com/hostsearch/?q=").concat(host)
    }
}

} // verus!
