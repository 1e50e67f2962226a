use vstd::prelude::*;
use vstd::string::StringExecFns;

use crate::text::{clone_strings, i32_to_string, int_str, string_views};

verus! {

/// One page of the answer.
pub struct BinaryEdgeResponse {
    pub page: i32,
    pub pagesize: i32,
    pub total: i32,
    pub events: Vec<String>,
}

impl BinaryEdgeResponse {
    /// Extracts the discovered names of this page.
    pub fn subdomains(&self) -> (r: Vec<String>)
        ensures
            string_views(r@) == string_views(self.events@),
    {
        clone_strings(&self.events)
    }
}

/// Whether fetching stops at `page`: the pages so far cover the total.
pub open spec fn be_stop(page: int, pagesize: int, total: int) -> bool {
    page > 0 && page * pagesize >= total
}

fn be_stop_exec(p: i32, pagesize: i32, total: i32) -> (r: bool)
    requires
        1 <= pagesize,
    ensures
        r == be_stop(p as int, pagesize as int, total as int),
{
    let a = p as i64;
    let b = pagesize as i64;
    proof {
        assert(-0x4000_0000_0000_0000 <= a * b < 0x4000_0000_0000_0000) by (nonlinear_arith)
            requires
                -0x8000_0000 <= a < 0x8000_0000,
                1 <= b < 0x8000_0000,
        ;
    }
    p > 0 && a * b >= (total as i64)
}

/// The pages that remain to be fetched after the first answer: page
/// numbers climb one at a time from the answered page, until one covers
/// the reported total.
pub fn pages_to_fetch(page: i32, pagesize: i32, total: i32) -> (r: Vec<i32>)
    requires
        0 <= page,
        1 <= pagesize,
        0 <= total,
    ensures
        forall|k: int| 0 <= k < r@.len() ==> r@[k] == page + 1 + k,
        r@.len() == 0 ==> be_stop(page as int, pagesize as int, total as int),
        r@.len() > 0 ==> be_stop(r@.last() as int, pagesize as int, total as int) && (forall|
            q: int,
        |
            page <= q < r@.last() ==> !be_stop(q, pagesize as int, total as int)),
{
    let mut out: Vec<i32> = Vec::new();
    let mut p = page;
    while !be_stop_exec(p, pagesize, total)
        invariant
            0 <= page <= p,
            1 <= pagesize,
            0 <= total,
            p as int == page + out@.len(),
            forall|k: int| 0 <= k < out@.len() ==> out@[k] == page + 1 + k,
            forall|q: int| page <= q < p ==> !be_stop(q, pagesize as int, total as int),
        decreases total + 2 - p,
    {
        proof {
            if p > 0 {
                assert(p <= p * pagesize) by (nonlinear_arith)
                    requires
                        0 < p,
                        1 <= pagesize,
                ;
            }
        }
        p = p + 1;
        out.push(p);
    }
    out
}

/// The BinaryEdge source.
#[derive(Clone, Copy, Debug, Default)]
pub struct BinaryEdge;

impl BinaryEdge {
    /// A fresh handle on this source.
    pub fn new() -> Self {
        BinaryEdge
    }

    /// The query that asks for the subdomains of `host`: the first page
    /// when no page is named, the numbered page otherwise.
    pub fn build_url(&self, host: &str, page: Option<i32>) -> (r: String)
        ensures
            page matches Some(p) ==> r@ == "https://api.binaryedge.io/v2/query/domains/subdomain/"@
                + host@ + "?page="@ + int_str(p as int),
            page is None ==> r@ == "https://api.binaryedge.io/v2/query/domains/subdomain/"@
                + host@,
    {
        match page {
            Some(p) => String::from_str(
                "https://api.binaryedge.io/v2/query/domains/subdomain/",
            ).concat(host).concat("?page=").concat(i32_to_string(p).as_str()),
            None => String::from_str("https://api.binaryedge.io/v2/query/domains/subdomain/")
                .concat(host),
        }
    }
}

} // verus!
