use vita::sources::alienvault::AlienVault;
use vita::sources::anubisdb::AnubisDB;
use vita::sources::binaryedge::BinaryEdge;
use vita::sources::bufferover;
use vita::sources::c99::C99;
use vita::sources::certspotter::CertSpotter;
use vita::sources::chaos::Chaos;
use vita::sources::crtsh::Crtsh;
use vita::sources::facebook::Facebook;
use vita::sources::hackertarget::HackerTarget;
use vita::sources::intelx::Intelx;
use vita::sources::passivetotal::PassiveTotal;
use vita::sources::rapidns;
use vita::sources::recondev;
use vita::sources::securitytrails::SecurityTrails;
use vita::sources::spyse::Spyse;
use vita::sources::sublister::Sublister;
use vita::sources::threatcrowd::ThreatCrowd;
use vita::sources::threatminer;
use vita::sources::urlscan::UrlScan;
use vita::sources::virustotal::VirusTotal;
use vita::sources::wayback::Wayback;

#[test]
fn dns_url() {
    let correct_uri = "http://dns.bufferover.run/dns?q=hackerone.com";
    assert_eq!(correct_uri, bufferover::build_url("hackerone.com", true));
}

#[test]
fn tls_url() {
    let correct_uri = "http://tls.bufferover.run/dns?q=hackerone.com";
    assert_eq!(correct_uri, bufferover::build_url("hackerone.com", false));
}

#[test]
fn threatminer_url_builder() {
    let correct_uri = "https://api.threatminer.org/v2/domain.php?q=hackerone.com&api=True&rt=5";
    assert_eq!(correct_uri, threatminer::build_url("hackerone.com"));
}

#[test]
fn recondev_url_builder() {
    let correct_uri = "https://api.recon.dev/search?domain=hackerone.com";
    assert_eq!(correct_uri, recondev::build_url("hackerone.com"));
}

#[test]
fn alienvault_url_builder() {
    let correct_uri = "https://otx.alienvault.com/api/v1/indicators/domain/\
        hackerone.com/passive_dns";
    assert_eq!(correct_uri, AlienVault::default().build_url("hackerone.com"));
}

#[test]
fn anubisdb_url_builder() {
    let correct_uri = "https://jldc.me/anubis/subdomains/hackerone.com";
    assert_eq!(correct_uri, AnubisDB::default().build_url("hackerone.com"));
}

#[test]
fn certspotter_url_builder() {
    let correct_uri = "https://api.certspotter.com/v1/issuances?domain=hackerone.com\
        &include_subdomains=true&expand=dns_names";
    assert_eq!(correct_uri, CertSpotter::default().build_url("hackerone.com"));
}

#[test]
fn crtsh_url_builder() {
    let correct_uri = "https://crt.sh/?q=%.hackerone.com&output=json";
    assert_eq!(correct_uri, Crtsh::default().build_url("hackerone.com"));
}

#[test]
fn securitytrails_url_builder() {
    let correct_uri = "https://api.securitytrails.com/v1/domain/hackerone.com/subdomains";
    assert_eq!(correct_uri, SecurityTrails::default().build_url("hackerone.com"));
}

#[test]
fn spyse_url_builder() {
    let correct_uri = "https://api.spyse.com/v3/data/domain/subdomain?limit=100&domain=hackerone.com";
    assert_eq!(correct_uri, Spyse::default().build_url("hackerone.com"));
}

#[test]
fn sublister_url_builder() {
    let correct_uri = "https://api.sublist3r.com/search.php?domain=hackerone.com";
    assert_eq!(correct_uri, Sublister::default().build_url("hackerone.com"));
}

#[test]
fn urlscan_url_builder() {
    let correct_uri = "https://urlscan.io/api/v1/search/?q=domain:hackerone.com";
    assert_eq!(correct_uri, UrlScan::default().build_url("hackerone.com"));
}

#[test]
fn wayback_url_builder() {
    let correct_uri = "https://web.archive.org/cdx/search/cdx?url=*.hackerone.com/*&output=json\
        &fl=original&collapse=urlkey&limit=100000";
    assert_eq!(correct_uri, Wayback::default().build_url("hackerone.com"));
}

#[test]
fn chaos_url_builder() {
    let correct_uri = "https://dns.projectdiscovery.io/dns/hackerone.com/subdomains";
    assert_eq!(correct_uri, Chaos::default().build_url("hackerone.com"));
}

#[test]
fn c99_url_builder() {
    let correct_uri = "https://api.c99.nl/subdomainfinder?key=KEY&domain=hackerone.com&json";
    assert_eq!(correct_uri, C99::default().build_url("hackerone.com", "KEY"));
}

#[test]
fn facebook_url_builder() {
    let correct_uri =
        "https://graph.facebook.com/certificates?fields=domains&access_token=TOKEN&query=*.hackerone.com";
    assert_eq!(correct_uri, Facebook::default().build_url("hackerone.com", "TOKEN"));
}

#[test]
fn hackertarget_url_builder() {
    let correct_uri = "https://api.hackertarget.com/hostsearch/?q=hackerone.com";
    assert_eq!(correct_uri, HackerTarget::default().build_url("hackerone.com"));
}

#[test]
fn intelx_url_builder() {
    let querying = Intelx::default().build_url("2.intelx.io", "KEY", true, None);
    assert_eq!(querying, "https://2.intelx.io/phonebook/search?k=KEY");
    let results = Intelx::default().build_url("2.intelx.io", "KEY", false, Some("SID"));
    assert_eq!(
        results,
        "https://2.intelx.io/phonebook/search/result?k=KEY&id=SID&limit=100000"
    );
}

#[test]
fn passivetotal_url_builder() {
    let correct_uri = "https://api.passivetotal.org/v2/enrichment/subdomains";
    assert_eq!(correct_uri, PassiveTotal::default().build_url());
}

#[test]
fn rapidns_url_builder() {
    let correct_uri = "https://rapiddns.io/subdomain/hackerone.com?full=1";
    assert_eq!(correct_uri, rapidns::build_url("hackerone.com"));
}

#[test]
fn threatcrowd_url_builder() {
    let correct_uri = "https://www.threatcrowd.org/searchApi/v2/domain/report/?domain=hackerone.com";
    assert_eq!(correct_uri, ThreatCrowd::default().build_url("hackerone.com"));
}

#[test]
fn virustotal_url_builder() {
    let correct_uri = "https://www.virustotal.com/ui/domains/hackerone.com/subdomains?limit=40";
    assert_eq!(correct_uri, VirusTotal::default().build_url("hackerone.com"));
}

#[test]
fn binaryedge_url_builder() {
    let first = BinaryEdge::default().build_url("hackerone.com", None);
    assert_eq!(first, "https://api.binaryedge.io/v2/query/domains/subdomain/hackerone.com");
    let paged = BinaryEdge::default().build_url("hackerone.com", Some(2));
    assert_eq!(
        paged,
        "https://api.binaryedge.io/v2/query/domains/subdomain/hackerone.com?page=2"
    );
}
