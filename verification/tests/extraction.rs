use vita::sources::alienvault::{AlienvaultResult, Subdomain};
use vita::sources::anubisdb::AnubisResult;
use vita::sources::binaryedge::{pages_to_fetch, BinaryEdgeResponse};
use vita::sources::bufferover::{DnsResult, TlsResult};
use vita::sources::c99::{C99Item, C99Result};
use vita::sources::certspotter::{self, CertSpotterResult};
use vita::sources::chaos::ChaosResult;
use vita::sources::crtsh::{self, CrtshResult};
use vita::sources::facebook::{FacebookResult, Subdomains};
use vita::sources::hackertarget::{is_api_error, HTResult};
use vita::sources::intelx::{IntelxItem, IntelxResults, Query};
use vita::sources::passivetotal::PassiveTotalResult;
use vita::sources::rapidns::RapidnsResponse;
use vita::sources::recondev::{self, RecondevResult};
use vita::sources::securitytrails::SecTrailsResult;
use vita::sources::spyse::{SpyseItem, SpyseResult};
use vita::sources::sublister::SublisterResult;
use vita::sources::threatcrowd::ThreatCrowdResult;
use vita::sources::threatminer::ThreatminerResult;
use vita::sources::urlscan::{UrlScanDomain, UrlScanPage, UrlScanResult};
use vita::sources::virustotal::VirustotalResult;
use vita::sources::wayback::WaybackResult;

fn strings(items: &[&str]) -> Vec<String> {
    items.iter().map(|s| s.to_string()).collect()
}

#[test]
fn alienvault_extracts_hostnames() {
    let body = AlienvaultResult {
        passive_dns: vec![
            Subdomain { hostname: "a.example.com".to_string() },
            Subdomain { hostname: "b.example.com".to_string() },
        ],
        count: 2,
    };
    assert_eq!(body.subdomains(), strings(&["a.example.com", "b.example.com"]));
}

#[test]
fn anubisdb_passes_elements_through() {
    let body = AnubisResult::new(strings(&["\"a.example.com\""]));
    assert_eq!(body.subdomains(), strings(&["\"a.example.com\""]));
}

#[test]
fn binaryedge_extracts_events_and_plans_pages() {
    let body = BinaryEdgeResponse {
        page: 1,
        pagesize: 100,
        total: 250,
        events: strings(&["a.example.com"]),
    };
    assert_eq!(body.subdomains(), strings(&["a.example.com"]));
    assert_eq!(pages_to_fetch(1, 100, 250), vec![2, 3]);
    assert_eq!(pages_to_fetch(1, 100, 100), Vec::<i32>::new());
    assert_eq!(pages_to_fetch(0, 100, 0), vec![1]);
}

#[test]
fn bufferover_takes_the_name_field() {
    let dns = DnsResult { items: Some(strings(&["1.2.3.4,a.example.com", "5.6.7.8,b.example.com"])) };
    assert_eq!(dns.subdomains(), strings(&["a.example.com", "b.example.com"]));
    let none = DnsResult { items: None };
    assert_eq!(none.subdomains(), Vec::<String>::new());
    let tls = TlsResult { items: Some(strings(&["x,y,c.example.com", "x,d.example.com"])) };
    assert_eq!(tls.subdomains(), strings(&["c.example.com", "d.example.com"]));
}

#[test]
fn c99_extracts_subdomains() {
    let body = C99Result {
        subdomains: Some(vec![C99Item { subdomain: "a.example.com".to_string() }]),
    };
    assert_eq!(body.subdomains(), strings(&["a.example.com"]));
    assert_eq!(C99Result { subdomains: None }.subdomains(), Vec::<String>::new());
}

#[test]
fn certspotter_flattens_dns_names() {
    let body = vec![
        CertSpotterResult { dns_names: strings(&["a.example.com", "b.example.com"]) },
        CertSpotterResult { dns_names: strings(&["c.example.com"]) },
    ];
    assert_eq!(
        certspotter::subdomains(&body),
        strings(&["a.example.com", "b.example.com", "c.example.com"])
    );
}

#[test]
fn chaos_joins_labels_to_the_domain() {
    let body = ChaosResult {
        domain: "example.com".to_string(),
        subdomains: strings(&["a", "b"]),
    };
    assert_eq!(body.subdomains(), strings(&["a.example.com", "b.example.com"]));
}

#[test]
fn crtsh_extracts_name_values() {
    let body = vec![CrtshResult { name_value: "a.example.com".to_string() }];
    assert_eq!(crtsh::subdomains(&body), strings(&["a.example.com"]));
}

#[test]
fn facebook_flattens_domains() {
    let body = FacebookResult {
        data: vec![
            Subdomains { domains: strings(&["a.example.com"]) },
            Subdomains { domains: strings(&["b.example.com"]) },
        ],
    };
    assert_eq!(body.subdomains(), strings(&["a.example.com", "b.example.com"]));
}

#[test]
fn hackertarget_takes_the_host_of_each_line() {
    let body = HTResult::new("a.example.com,1.2.3.4\nb.example.com,5.6.7.8\n".to_string());
    assert_eq!(body.subdomains(), strings(&["a.example.com", "b.example.com"]));
    assert!(is_api_error("error check your search parameter"));
    assert!(!is_api_error("a.example.com,1.2.3.4"));
}

#[test]
fn hackertarget_handles_carriage_returns() {
    let body = HTResult::new("a.example.com,1.2.3.4\r\nb.example.com,5.6.7.8".to_string());
    assert_eq!(body.subdomains(), strings(&["a.example.com", "b.example.com"]));
}

#[test]
fn intelx_extracts_selectors() {
    let query = Query::new("example.com".to_string());
    assert_eq!(query.term, "example.com");
    assert_eq!(query.maxresults, 100000);
    assert_eq!(query.media, 0);
    assert_eq!(query.target, 1);
    assert_eq!(query.timeout, 20);
    let body = IntelxResults {
        selectors: vec![IntelxItem { selectorvalue: "a.example.com".to_string() }],
        status: 0,
    };
    assert_eq!(body.subdomains(), strings(&["a.example.com"]));
}

#[test]
fn passivetotal_joins_labels_to_the_primary_domain() {
    let body = PassiveTotalResult {
        success: true,
        primary_domain: "example.com".to_string(),
        subdomains: strings(&["a"]),
    };
    assert_eq!(body.subdomains(), strings(&["a.example.com"]));
}

#[test]
fn rapidns_extracts_anchor_targets() {
    let page = "<td><a target=\"_blank\">a.example.com</a></td>\n\
        <td><a target=\"_blank\">b.example.com</a></td>";
    let body = RapidnsResponse::new(page.to_string());
    assert_eq!(body.subdomains(), strings(&["a.example.com", "b.example.com"]));
}

#[test]
fn recondev_flattens_raw_domains() {
    let body = vec![RecondevResult { raw_domains: strings(&["a.example.com"]) }];
    assert_eq!(recondev::subdomains(&body), strings(&["a.example.com"]));
}

#[test]
fn securitytrails_joins_labels_to_the_host() {
    let body = SecTrailsResult {
        subdomains: strings(&["a", "b"]),
        host: "example.com".to_string(),
    };
    assert_eq!(body.subdomains(), strings(&["a.example.com", "b.example.com"]));
}

#[test]
fn spyse_extracts_item_names() {
    let body = SpyseResult {
        data: SpyseItem {
            items: vec![vita::sources::spyse::Subdomain { name: "a.example.com".to_string() }],
        },
    };
    assert_eq!(body.subdomains(), strings(&["a.example.com"]));
}

#[test]
fn sublister_passes_elements_through() {
    let body = SublisterResult::new(strings(&["a.example.com"]));
    assert_eq!(body.subdomains(), strings(&["a.example.com"]));
}

#[test]
fn threatcrowd_handles_missing_lists() {
    let body = ThreatCrowdResult { subdomains: Some(strings(&["a.example.com"])) };
    assert_eq!(body.subdomains(), strings(&["a.example.com"]));
    assert_eq!(ThreatCrowdResult { subdomains: None }.subdomains(), Vec::<String>::new());
}

#[test]
fn threatminer_passes_results_through() {
    let body = ThreatminerResult { results: strings(&["a.example.com"]) };
    assert_eq!(body.subdomains(), strings(&["a.example.com"]));
}

#[test]
fn urlscan_extracts_page_domains() {
    let body = UrlScanResult {
        results: vec![UrlScanPage { page: UrlScanDomain { domain: "a.example.com".to_string() } }],
    };
    assert_eq!(body.subdomains(), strings(&["a.example.com"]));
}

#[test]
fn virustotal_extracts_ids() {
    let body = VirustotalResult {
        data: Some(vec![vita::sources::virustotal::Subdomain { id: "a.example.com".to_string() }]),
    };
    assert_eq!(body.subdomains(), strings(&["a.example.com"]));
    assert_eq!(VirustotalResult { data: None }.subdomains(), Vec::<String>::new());
}

#[test]
fn wayback_takes_the_host_of_each_archived_url() {
    let body = WaybackResult::new(strings(&[
        "https://sub.example.com/path?x=1",
        "not a url",
        "http://other.example.com",
    ]));
    assert_eq!(body.subdomains(), strings(&["sub.example.com", "other.example.com"]));
}
