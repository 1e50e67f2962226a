use vstd::prelude::*;
use vstd::string::StringExecFns;

use crate::text::string_views;

verus! {

/// What the anchor targets of an answered page are: the capture of each
/// successive match of the fixed pattern `target="_blank">(.*)</a>`.
pub uninterp spec fn anchor_targets_of(body: Seq<char>) -> Seq<Seq<char>>;

/// Relies on regex::Regex::new and Regex::captures_iter with the fixed
/// pattern above: the captures are a function of the body text alone,
/// and the pattern always compiles.
#[verifier::external_body]
fn extract_anchor_targets(body: &str) -> (r: Vec<String>)
    ensures
        string_views(r@) == anchor_targets_of(body@),
{
    match regex::Regex::new(r#"target="_blank">(.*)</a>"#) {
        Ok(re) => re.captures_iter(body).map(|c| c[1].to_string()).collect(),
        Err(_) => Vec::new(),
    }
}

/// The page this source answers with.
#[derive(Debug)]
pub struct RapidnsResponse {
    pub body: String,
}

impl RapidnsResponse {
    /// Wraps an answered page.
    pub fn new(body: String) -> (r: Self)
        ensures
            r.body@ == body@,
    {
        Self { body }
    }

    /// Extracts the discovered names: the anchor targets of the page.
    pub fn subdomains(&self) -> (r: Vec<String>)
        ensures
            string_views(r@) == anchor_targets_of(self.body@),
    {
        extract_anchor_targets(self.body.as_str())
    }
}

/// The query that asks for the full subdomain listing of `host`.
pub fn build_url(host: &str) -> (r: String)
    ensures
        r@ == "https://rapiddns.io/subdomain/"@ + host@ + "?full=1"@,
{
    String::from_str("https://rapiddns.io/subdomain/").concat(host).concat("?full=1")
}

} // verus!
