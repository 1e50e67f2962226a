use vstd::prelude::*;

use crate::dispatch::{cross_units, Dispatcher};
use crate::text::{str_eq, string_views};

verus! {

broadcast use
    vstd::seq_lib::lemma_seq_contains_after_push,
    vstd::prelude::Seq::lemma_take_succ_push;

/// The data sources a run can draw from, each a named capability backed
/// by one external provider.
#[derive(Clone, Copy, Debug, PartialEq, Eq, Hash, Structural)]
pub enum Source {
    AlienVault,
    AnubisDB,
    BinaryEdge,
    C99,
    CertSpotter,
    Chaos,
    Crtsh,
    Facebook,
    HackerTarget,
    Intelx,
    PassiveTotal,
    SecurityTrails,
    SonarSearch,
    Spyse,
    Sublister,
    ThreatCrowd,
    ThreatMiner,
    UrlScan,
    VirusTotal,
    Wayback,
}

impl Source {
    /// The identifier of each source.
    pub open spec fn name_view(self) -> Seq<char> {
        match self {
            Source::AlienVault => "AlienVault"@,
            Source::AnubisDB => "AnubisDB"@,
            Source::BinaryEdge => "BinaryEdge"@,
            Source::C99 => "C99"@,
            Source::CertSpotter => "CertSpotter"@,
            Source::Chaos => "Chaos"@,
            Source::Crtsh => "Crtsh"@,
            Source::Facebook => "Facebook"@,
            Source::HackerTarget => "HackerTarget"@,
            Source::Intelx => "Intelx"@,
            Source::PassiveTotal => "PassiveTotal"@,
            Source::SecurityTrails => "SecurityTrails"@,
            Source::SonarSearch => "SonarSearch"@,
            Source::Spyse => "Spyse"@,
            Source::Sublister => "Sublister"@,
            Source::ThreatCrowd => "ThreatCrowd"@,
            Source::ThreatMiner => "ThreatMiner"@,
            Source::UrlScan => "UrlScan"@,
            Source::VirusTotal => "VirusTotal"@,
            Source::Wayback => "Wayback"@,
        }
    }

    /// Hands out the identifier of this source.
    pub fn name(&self) -> (r: &'static str)
        ensures
            r@ == self.name_view(),
    {
        match self {
            Source::AlienVault => "AlienVault",
            Source::AnubisDB => "AnubisDB",
            Source::BinaryEdge => "BinaryEdge",
            Source::C99 => "C99",
            Source::CertSpotter => "CertSpotter",
            Source::Chaos => "Chaos",
            Source::Crtsh => "Crtsh",
            Source::Facebook => "Facebook",
            Source::HackerTarget => "HackerTarget",
            Source::Intelx => "Intelx",
            Source::PassiveTotal => "PassiveTotal",
            Source::SecurityTrails => "SecurityTrails",
            Source::SonarSearch => "SonarSearch",
            Source::Spyse => "Spyse",
            Source::Sublister => "Sublister",
            Source::ThreatCrowd => "ThreatCrowd",
            Source::ThreatMiner => "ThreatMiner",
            Source::UrlScan => "UrlScan",
            Source::VirusTotal => "VirusTotal",
            Source::Wayback => "Wayback",
        }
    }

    /// The source a name denotes, if any.
    pub open spec fn spec_from_name(s: Seq<char>) -> Option<Source> {
        if s == "AlienVault"@ {
            Some(Source::AlienVault)
        } else if s == "AnubisDB"@ {
            Some(Source::AnubisDB)
        } else if s == "BinaryEdge"@ {
            Some(Source::BinaryEdge)
        } else if s == "C99"@ {
            Some(Source::C99)
        } else if s == "CertSpotter"@ {
            Some(Source::CertSpotter)
        } else if s == "Chaos"@ {
            Some(Source::Chaos)
        } else if s == "Crtsh"@ {
            Some(Source::Crtsh)
        } else if s == "Facebook"@ {
            Some(Source::Facebook)
        } else if s == "HackerTarget"@ {
            Some(Source::HackerTarget)
        } else if s == "Intelx"@ {
            Some(Source::Intelx)
        } else if s == "PassiveTotal"@ {
            Some(Source::PassiveTotal)
        } else if s == "SecurityTrails"@ {
            Some(Source::SecurityTrails)
        } else if s == "SonarSearch"@ {
            Some(Source::SonarSearch)
        } else if s == "Spyse"@ {
            Some(Source::Spyse)
        } else if s == "Sublister"@ {
            Some(Source::Sublister)
        } else if s == "ThreatCrowd"@ {
            Some(Source::ThreatCrowd)
        } else if s == "ThreatMiner"@ {
            Some(Source::ThreatMiner)
        } else if s == "UrlScan"@ {
            Some(Source::UrlScan)
        } else if s == "VirusTotal"@ {
            Some(Source::VirusTotal)
        } else if s == "Wayback"@ {
            Some(Source::Wayback)
        } else {
            None
        }
    }

    /// Looks a source up by its identifier; unknown names denote none.
    pub fn from_name(s: &str) -> (r: Option<Source>)
        ensures
            r == Self::spec_from_name(s@),
    {
        if str_eq(s, "AlienVault") {
            Some(Source::AlienVault)
        } else if str_eq(s, "AnubisDB") {
            Some(Source::AnubisDB)
        } else if str_eq(s, "BinaryEdge") {
            Some(Source::BinaryEdge)
        } else if str_eq(s, "C99") {
            Some(Source::C99)
        } else if str_eq(s, "CertSpotter") {
            Some(Source::CertSpotter)
        } else if str_eq(s, "Chaos") {
            Some(Source::Chaos)
        } else if str_eq(s, "Crtsh") {
            Some(Source::Crtsh)
        } else if str_eq(s, "Facebook") {
            Some(Source::Facebook)
        } else if str_eq(s, "HackerTarget") {
            Some(Source::HackerTarget)
        } else if str_eq(s, "Intelx") {
            Some(Source::Intelx)
        } else if str_eq(s, "PassiveTotal") {
            Some(Source::PassiveTotal)
        } else if str_eq(s, "SecurityTrails") {
            Some(Source::SecurityTrails)
        } else if str_eq(s, "SonarSearch") {
            Some(Source::SonarSearch)
        } else if str_eq(s, "Spyse") {
            Some(Source::Spyse)
        } else if str_eq(s, "Sublister") {
            Some(Source::Sublister)
        } else if str_eq(s, "ThreatCrowd") {
            Some(Source::ThreatCrowd)
        } else if str_eq(s, "ThreatMiner") {
            Some(Source::ThreatMiner)
        } else if str_eq(s, "UrlScan") {
            Some(Source::UrlScan)
        } else if str_eq(s, "VirusTotal") {
            Some(Source::VirusTotal)
        } else if str_eq(s, "Wayback") {
            Some(Source::Wayback)
        } else {
            None
        }
    }
}

/// The sources that need no credential, in registration order.
pub open spec fn free_sources_seq() -> Seq<Source> {
    seq![
        Source::AnubisDB,
        Source::AlienVault,
        Source::CertSpotter,
        Source::ThreatCrowd,
        Source::VirusTotal,
        Source::ThreatMiner,
        Source::Sublister,
        Source::HackerTarget,
        Source::SonarSearch,
        Source::Wayback,
        Source::UrlScan,
        Source::Crtsh,
    ]
}

/// Every source, credentialed ones included, in registration order.
pub open spec fn all_sources_seq() -> Seq<Source> {
    seq![
        Source::AnubisDB,
        Source::AlienVault,
        Source::CertSpotter,
        Source::ThreatCrowd,
        Source::VirusTotal,
        Source::ThreatMiner,
        Source::Sublister,
        Source::SecurityTrails,
        Source::HackerTarget,
        Source::SonarSearch,
        Source::BinaryEdge,
        Source::PassiveTotal,
        Source::Facebook,
        Source::Spyse,
        Source::C99,
        Source::Intelx,
        Source::Wayback,
        Source::UrlScan,
        Source::Crtsh,
        Source::Chaos,
    ]
}

/// The sources that a list of exclusion names denotes; names that match
/// no known source denote none and are a no-op.
pub open spec fn excluded_set(names: Seq<Seq<char>>) -> Set<Source> {
    Set::new(
        |s: Source|
            exists|i: int|
                #![trigger Source::spec_from_name(names[i])]
                0 <= i < names.len() && Source::spec_from_name(names[i]) == Some(s),
    )
}

fn free_source_vec() -> (r: Vec<Source>)
    ensures
        r@ == free_sources_seq(),
{
    let mut v: Vec<Source> = Vec::new();
    v.push(Source::AnubisDB);
    v.push(Source::AlienVault);
    v.push(Source::CertSpotter);
    v.push(Source::ThreatCrowd);
    v.push(Source::VirusTotal);
    v.push(Source::ThreatMiner);
    v.push(Source::Sublister);
    v.push(Source::HackerTarget);
    v.push(Source::SonarSearch);
    v.push(Source::Wayback);
    v.push(Source::UrlScan);
    v.push(Source::Crtsh);
    proof {
        assert(v@ =~= free_sources_seq());
    }
    v
}

fn all_source_vec() -> (r: Vec<Source>)
    ensures
        r@ == all_sources_seq(),
{
    let mut v: Vec<Source> = Vec::new();
    v.push(Source::AnubisDB);
    v.push(Source::AlienVault);
    v.push(Source::CertSpotter);
    v.push(Source::ThreatCrowd);
    v.push(Source::VirusTotal);
    v.push(Source::ThreatMiner);
    v.push(Source::Sublister);
    v.push(Source::SecurityTrails);
    v.push(Source::HackerTarget);
    v.push(Source::SonarSearch);
    v.push(Source::BinaryEdge);
    v.push(Source::PassiveTotal);
    v.push(Source::Facebook);
    v.push(Source::Spyse);
    v.push(Source::C99);
    v.push(Source::Intelx);
    v.push(Source::Wayback);
    v.push(Source::UrlScan);
    v.push(Source::Crtsh);
    v.push(Source::Chaos);
    proof {
        assert(v@ =~= all_sources_seq());
    }
    v
}

/// Looks a source up in a registry list.
fn vec_contains_source(v: &Vec<Source>, s: Source) -> (r: bool)
    ensures
        r == v@.contains(s),
{
    let mut i: usize = 0;
    while i < v.len()
        invariant
            i <= v.len(),
            forall|k: int| 0 <= k < i ==> v@[k] != s,
        decreases v.len() - i,
    {
        if v[i] == s {
            return true;
        }
        i += 1;
    }
    false
}

/// Adds each source of `add` that `dst` does not hold yet.
fn extend_unique(dst: &mut Vec<Source>, add: &Vec<Source>)
    requires
        old(dst)@.no_duplicates(),
    ensures
        final(dst)@.no_duplicates(),
        forall|t: Source|
            #[trigger] final(dst)@.contains(t) <==> (old(dst)@.contains(t) || add@.contains(t)),
{
    let ghost base = dst@;
    let mut i: usize = 0;
    while i < add.len()
        invariant
            i <= add.len(),
            dst@.no_duplicates(),
            forall|t: Source|
                #[trigger] dst@.contains(t) <==> (base.contains(t) || add@.take(
                    i as int,
                ).contains(t)),
        decreases add.len() - i,
    {
        let ghost pre = dst@;
        if !vec_contains_source(dst, add[i]) {
            dst.push(add[i]);
            proof {
                assert(dst@ =~= pre.push(add@[i as int]));
            }
        }
        proof {
            assert(add@.take(i + 1) =~= add@.take(i as int).push(add@[i as int]));
            assert(dst@.contains(add@[i as int]));
        }
        i += 1;
    }
    proof {
        assert(add@.take(add@.len() as int) =~= add@);
    }
}

/// The sources of `v` other than `s`, in order.
fn without_source(v: &Vec<Source>, s: Source) -> (r: Vec<Source>)
    requires
        v@.no_duplicates(),
    ensures
        r@.no_duplicates(),
        forall|t: Source| #[trigger] r@.contains(t) <==> (v@.contains(t) && t != s),
{
    let mut out: Vec<Source> = Vec::new();
    let mut i: usize = 0;
    while i < v.len()
        invariant
            i <= v.len(),
            v@.no_duplicates(),
            out@.no_duplicates(),
            forall|t: Source|
                #[trigger] out@.contains(t) <==> (v@.take(i as int).contains(t) && t != s),
        decreases v.len() - i,
    {
        let ghost pre = out@;
        if !(v[i] == s) {
            out.push(v[i]);
            proof {
                assert(out@ =~= pre.push(v@[i as int]));
                if pre.contains(v@[i as int]) {
                    let k = choose|k: int| 0 <= k < i && v@.take(i as int)[k] == v@[i as int];
                    assert(v@[k] == v@[i as int]);
                    assert(false);
                }
            }
        }
        proof {
            assert(v@.take(i + 1) =~= v@.take(i as int).push(v@[i as int]));
        }
        i += 1;
    }
    proof {
        assert(v@.take(v@.len() as int) =~= v@);
    }
    out
}

/// Configuration options for the `Runner`.
#[derive(Clone, Copy, Debug, PartialEq, Eq, Structural)]
pub struct Config {
    /// The per-request timeout handed to every source, in seconds.
    pub timeout: u64,
    /// The largest number of concurrently outstanding units of work.
    pub concurrency: usize,
}

impl Config {
    /// The concurrency limit must be positive.
    pub open spec fn wf(&self) -> bool {
        self.concurrency >= 1
    }
}

impl Default for Config {
    fn default() -> (r: Self)
        ensures
            r.timeout == 15,
            r.concurrency == 200,
    {
        Config { timeout: 15, concurrency: 200 }
    }
}

/// The `Runner` is responsible for collecting data from all the sources:
/// it holds the registry of active sources and the run's configuration,
/// and plans the bounded fan-out over (host, source) pairs.
pub struct Runner {
    config: Config,
    sources: Vec<Source>,
}

impl Runner {
    /// The run's configuration.
    pub closed spec fn cfg(&self) -> Config {
        self.config
    }

    /// The active sources, in registration order.
    pub closed spec fn sources_view(&self) -> Seq<Source> {
        self.sources@
    }

    /// The active sources, as a set.
    pub open spec fn source_set(&self) -> Set<Source> {
        self.sources_view().to_set()
    }

    /// The configuration is sane and each source registered once.
    pub open spec fn wf(&self) -> bool {
        self.cfg().wf() && self.sources_view().no_duplicates()
    }

    /// Sets the limit of concurrent tasks.
    pub fn concurrency(self, limit: usize) -> (r: Self)
        requires
            limit >= 1,
        ensures
            r.cfg().concurrency == limit,
            r.cfg().timeout == self.cfg().timeout,
            r.sources_view() == self.sources_view(),
            self.wf() ==> r.wf(),
    {
        let mut this = self;
        this.config.concurrency = limit;
        this
    }

    /// Sets the request timeout.
    pub fn timeout(self, duration: u64) -> (r: Self)
        ensures
            r.cfg().timeout == duration,
            r.cfg().concurrency == self.cfg().concurrency,
            r.sources_view() == self.sources_view(),
            self.wf() ==> r.wf(),
    {
        let mut this = self;
        this.config.timeout = duration;
        this
    }

    /// Excludes a collection of sources from data collection. A name
    /// that matches no known source is a no-op.
    pub fn exclude(self, excluded: &Vec<String>) -> (r: Self)
        requires
            self.wf(),
        ensures
            r.wf(),
            r.cfg() == self.cfg(),
            r.source_set() == self.source_set().difference(
                excluded_set(string_views(excluded@)),
            ),
    {
        let ghost names = string_views(excluded@);
        let mut this = self;
        let mut i: usize = 0;
        while i < excluded.len()
            invariant
                names == string_views(excluded@),
                i <= excluded.len(),
                this.config == self.cfg(),
                this.sources@.no_duplicates(),
                forall|t: Source|
                    #[trigger] this.sources@.contains(t) <==> (self.sources_view().contains(t)
                        && !excluded_set(names.take(i as int)).contains(t)),
            decreases excluded.len() - i,
        {
            proof {
                assert(excluded[i as int]@ == names[i as int]);
            }
            match Source::from_name(excluded[i].as_str()) {
                Some(src) => {
                    this.sources = without_source(&this.sources, src);
                },
                None => {},
            }
            proof {
                assert forall|t: Source|
                    #[trigger] excluded_set(names.take(i + 1)).contains(t) <==> (excluded_set(
                    names.take(i as int),
                ).contains(t) || Source::spec_from_name(names[i as int]) == Some(t)) by {
                    if excluded_set(names.take(i + 1)).contains(t) {
                        let k = choose|k: int|
                            #![trigger Source::spec_from_name(names.take(i + 1)[k])]
                            0 <= k < i + 1 && Source::spec_from_name(names.take(i + 1)[k])
                                == Some(t);
                        if k < i {
                            assert(names.take(i as int)[k] == names.take(i + 1)[k]);
                            assert(excluded_set(names.take(i as int)).contains(t));
                        } else {
                            assert(names.take(i + 1)[k] == names[i as int]);
                        }
                    }
                    if excluded_set(names.take(i as int)).contains(t) {
                        let k = choose|k: int|
                            #![trigger Source::spec_from_name(names.take(i as int)[k])]
                            0 <= k < i && Source::spec_from_name(names.take(i as int)[k])
                                == Some(t);
                        assert(names.take(i + 1)[k] == names.take(i as int)[k]);
                    }
                    if Source::spec_from_name(names[i as int]) == Some(t) {
                        assert(names.take(i + 1)[i as int] == names[i as int]);
                    }
                }
            }
            i += 1;
        }
        proof {
            assert(names.take(excluded@.len() as int) =~= names);
            assert(this.source_set() =~= self.source_set().difference(excluded_set(names)));
        }
        this
    }

    /// Sets the sources to be all those which do not require an api key
    /// to use, keeping any already registered.
    pub fn free_sources(self) -> (r: Self)
        requires
            self.wf(),
        ensures
            r.wf(),
            r.cfg() == self.cfg(),
            r.source_set() == self.source_set().union(free_sources_seq().to_set()),
    {
        let mut this = self;
        let add = free_source_vec();
        extend_unique(&mut this.sources, &add);
        proof {
            assert(this.source_set() =~= self.source_set().union(free_sources_seq().to_set()));
        }
        this
    }

    /// Sets the sources to include api keys in addition to the free
    /// sources, keeping any already registered.
    pub fn all_sources(self) -> (r: Self)
        requires
            self.wf(),
        ensures
            r.wf(),
            r.cfg() == self.cfg(),
            r.source_set() == self.source_set().union(all_sources_seq().to_set()),
    {
        let mut this = self;
        let add = all_source_vec();
        extend_unique(&mut this.sources, &add);
        proof {
            assert(this.source_set() =~= self.source_set().union(all_sources_seq().to_set()));
        }
        this
    }

    /// Hands out the registered sources, in registration order.
    pub fn active_sources(&self) -> (r: &Vec<Source>)
        ensures
            r@ == self.sources_view(),
    {
        &self.sources
    }

    /// The run's configuration, for the loop that drives it.
    pub fn config(&self) -> (r: Config)
        ensures
            r == self.cfg(),
    {
        self.config
    }

    /// Plans the fan-out of one run: one pending unit per (host, source)
    /// pair, to be admitted under this runner's concurrency limit.
    pub fn plan(&self, n_hosts: usize) -> (d: Dispatcher)
        requires
            self.wf(),
        ensures
            d.wf(),
            !d.is_closed(),
            d.outstanding() == 0,
            d.limit() == self.cfg().concurrency,
            d.pending_view() == cross_units(n_hosts, self.sources_view().len() as usize),
    {
        Dispatcher::new(n_hosts, self.sources.len(), self.config.concurrency)
    }
}

impl Default for Runner {
    fn default() -> (r: Self)
        ensures
            r.wf(),
            r.cfg().timeout == 15,
            r.cfg().concurrency == 200,
            r.sources_view() == Seq::<Source>::empty(),
    {
        Runner { config: Config::default(), sources: Vec::new() }
    }
}

} // verus!
