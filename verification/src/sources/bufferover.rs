use vstd::prelude::*;
use vstd::string::StringExecFns;

use crate::text::{fields, split_char, string_views};

verus! {

broadcast use vstd::prelude::Seq::lemma_take_succ_push;

/// The DNS body this source answers with: comma-separated records, the
/// name second on each; the list is absent when the provider has
/// nothing.
pub struct DnsResult {
    pub items: Option<Vec<String>>,
}

impl DnsResult {
    /// The records of the answer.
    pub open spec fn items_view(&self) -> Seq<Seq<char>> {
        match self.items {
            Some(v) => string_views(v@),
            None => Seq::empty(),
        }
    }

    /// The names the batch holds: the second comma-separated field of
    /// each record.
    pub open spec fn subdomains_view(&self) -> Seq<Seq<char>> {
        self.items_view().map_values(|t: Seq<char>| fields(t, ',')[1])
    }

    /// Extracts the discovered names. Every record must hold at least
    /// two fields; the caller checks that each has a comma.
    #[verifier::loop_isolation(false)]
    pub fn subdomains(&self) -> (r: Vec<String>)
        requires
            forall|k: int|
                0 <= k < self.items_view().len() ==> fields(
                    #[trigger] self.items_view()[k],
                    ',',
                ).len() >= 2,
        ensures
            string_views(r@) == self.subdomains_view(),
    {
        let ghost f = |t: Seq<char>| fields(t, ',')[1];
        let mut out: Vec<String> = Vec::new();
        match &self.items {
            Some(v) => {
                proof {
                    assert(self.items_view() == string_views(v@));
                }
                let ghost iv = string_views(v@);
                let mut i: usize = 0;
                while i < v.len()
                    invariant
                        i <= v.len(),
                        f == (|t: Seq<char>| fields(t, ',')[1]),
                        iv == string_views(v@),
                        iv == self.items_view(),
                        forall|k: int|
                            0 <= k < iv.len() ==> fields(#[trigger] iv[k], ',').len() >= 2,
                        string_views(out@) =~= iv.take(i as int).map_values(f),
                    decreases v.len() - i,
                {
                    let pieces = split_char(v[i].as_str(), ',');
                    proof {
                        assert(pieces@.len() == fields(iv[i as int], ',').len());
                    }
                    let ghost pre = string_views(out@);
                    out.push(pieces[1].clone());
                    proof {
                        assert(string_views(out@) =~= pre.push(f(iv[i as int])));
                        assert(string_views(out@) =~= iv.take(i + 1).map_values(f));
                    }
                    i += 1;
                }
                proof {
                    assert(iv.take(iv.len() as int) =~= iv);
                }
            },
            None => {
                proof {
                    assert(string_views(out@) =~= self.subdomains_view());
                }
            },
        }
        out
    }
}

/// The TLS body this source answers with: comma-separated records, the
/// name second or third on each.
pub struct TlsResult {
    pub items: Option<Vec<String>>,
}

impl TlsResult {
    /// The records of the answer.
    pub open spec fn items_view(&self) -> Seq<Seq<char>> {
        match self.items {
            Some(v) => string_views(v@),
            None => Seq::empty(),
        }
    }

    /// The names the batch holds: the third field of a three-field
    /// record, the second of any other.
    pub open spec fn subdomains_view(&self) -> Seq<Seq<char>> {
        self.items_view().map_values(
            |t: Seq<char>|
                if fields(t, ',').len() == 3 {
                    fields(t, ',')[2]
                } else {
                    fields(t, ',')[1]
                },
        )
    }

    /// Extracts the discovered names. Every record must hold at least
    /// two fields; the caller checks that each has a comma.
    #[verifier::loop_isolation(false)]
    pub fn subdomains(&self) -> (r: Vec<String>)
        requires
            forall|k: int|
                0 <= k < self.items_view().len() ==> fields(
                    #[trigger] self.items_view()[k],
                    ',',
                ).len() >= 2,
        ensures
            string_views(r@) == self.subdomains_view(),
    {
        let ghost f = |t: Seq<char>|
            if fields(t, ',').len() == 3 {
                fields(t, ',')[2]
            } else {
                fields(t, ',')[1]
            };
        let mut out: Vec<String> = Vec::new();
        match &self.items {
            Some(v) => {
                proof {
                    assert(self.items_view() == string_views(v@));
                }
                let ghost iv = string_views(v@);
                let mut i: usize = 0;
                while i < v.len()
                    invariant
                        i <= v.len(),
                        f == (|t: Seq<char>|
                            if fields(t, ',').len() == 3 {
                                fields(t, ',')[2]
                            } else {
                                fields(t, ',')[1]
                            }),
                        iv == string_views(v@),
                        iv == self.items_view(),
                        forall|k: int|
                            0 <= k < iv.len() ==> fields(#[trigger] iv[k], ',').len() >= 2,
                        string_views(out@) =~= iv.take(i as int).map_values(f),
                    decreases v.len() - i,
                {
                    let pieces = split_char(v[i].as_str(), ',');
                    proof {
                        assert(pieces@.len() == fields(iv[i as int], ',').len());
                    }
                    let item = if pieces.len() == 3 {
                        pieces[2].clone()
                    } else {
                        pieces[1].clone()
                    };
                    let ghost pre = string_views(out@);
                    out.push(item);
                    proof {
                        assert(string_views(out@) =~= pre.push(f(iv[i as int])));
                        assert(string_views(out@) =~= iv.take(i + 1).map_values(f));
                    }
                    i += 1;
                }
                proof {
                    assert(iv.take(iv.len() as int) =~= iv);
                }
            },
            None => {
                proof {
                    assert(string_views(out@) =~= self.subdomains_view());
                }
            },
        }
        out
    }
}

/// The query that asks for DNS data when `dns` holds, TLS data else.
pub fn build_url(host: &str, dns: bool) -> (r: String)
    ensures
        dns ==> r@ == "http://dns.bufferover.run/dns?q="@ + host@,
        !dns ==> r@ == "http://tls.bufferover.run/dns?q="@ + host@,
{
    if dns {
        String::from_str("http://dns.bufferover.run/dns?q=").concat(host)
    } else {
        String::from_str("http://tls.bufferover.run/dns?q=").concat(host)
    }
}

} // verus!
