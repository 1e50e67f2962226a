use vstd::prelude::*;
use vstd::string::StringExecFns;

use crate::text::string_views;

verus! {

/// The host part of a URL, when the text parses as a URL with a host.
pub uninterp spec fn url_host_of(s: Seq<char>) -> Option<Seq<char>>;

/// Relies on url::Url::parse and Url::host_str: whether the text parses
/// and what host it names are functions of the text alone.
#[verifier::external_body]
fn url_host(s: &str) -> (r: Option<String>)
    ensures
        r is Some <==> url_host_of(s@) is Some,
        r matches Some(h) ==> url_host_of(s@) == Some(h@),
{
    match url::Url::parse(s) {
        Ok(u) => u.host_str().map(|h| h.to_owned()),
        Err(_) => None,
    }
}

/// The hosts of those of `urls` that parse as URLs with a host, in
/// order.
pub open spec fn url_hosts(urls: Seq<Seq<char>>) -> Seq<Seq<char>>
    decreases urls.len(),
{
    if urls.len() == 0 {
        Seq::empty()
    } else {
        url_hosts(urls.drop_last()) + match url_host_of(urls.last()) {
            Some(h) => seq![h],
            None => Seq::empty(),
        }
    }
}

/// The body this source answers with: the original URL of each archive
/// record.
pub struct WaybackResult {
    pub data: Vec<String>,
}

impl WaybackResult {
    /// Wraps an answered record list.
    pub fn new(data: Vec<String>) -> (r: Self)
        ensures
            r.data@ == data@,
    {
        Self { data }
    }

    /// Extracts the discovered names: the host of each archived URL
    /// that parses; the rest contribute nothing.
    pub fn subdomains(&self) -> (r: Vec<String>)
        ensures
            string_views(r@) == url_hosts(string_views(self.data@)),
    {
        let ghost uv = string_views(self.data@);
        let mut out: Vec<String> = Vec::new();
        let mut i: usize = 0;
        while i < self.data.len()
            invariant
                i <= self.data.len(),
                uv == string_views(self.data@),
                string_views(out@) =~= url_hosts(uv.take(i as int)),
            decreases self.data.len() - i,
        {
            let ghost pre = string_views(out@);
            match url_host(self.data[i].as_str()) {
                Some(h) => {
                    let ghost hv = h@;
                    out.push(h);
                    proof {
                        assert(string_views(out@) =~= pre.push(hv));
                    }
                },
                None => {},
            }
            proof {
                assert(uv.take(i + 1).drop_last() =~= uv.take(i as int));
                assert(uv.take(i + 1).last() == uv[i as int]);
                match url_host_of(uv[i as int]) {
                    Some(h) => {
                        assert(string_views(out@) =~= url_hosts(uv.take(i as int)) + seq![h]);
                    },
                    None => {
                        assert(string_views(out@) =~= url_hosts(uv.take(i as int))
                            + Seq::<Seq<char>>::empty());
                    },
                }
            }
            i += 1;
        }
        proof {
            assert(uv.take(uv.len() as int) =~= uv);
        }
        out
    }
}

/// The Wayback Machine source.
#[derive(Clone, Copy, Debug, Default)]
pub struct Wayback;

impl Wayback {
    /// A fresh handle on this source.
    pub fn new() -> Self {
        Wayback
    }

    /// The query that asks the archive index for every URL under `host`.
    pub fn build_url(&self, host: &str) -> (r: String)
        ensures
            r@ == "https://web.archive.org/cdx/search/cdx?url=*."@ + host@
                + "/*&output=json&fl=original&collapse=urlkey&limit=100000"@,
    {
        String::from_str("https://web.archive.org/cdx/search/cdx?url=*.").concat(host).concat(
            "/*&output=json&fl=original&collapse=urlkey&limit=100000",
        )
    }
}

} // verus!
