use vstd::prelude::*;
use vstd::string::StrSliceExecFns;

use crate::text::{contains_string, is_suffix_of, lower_of, push_char, str_ends_with, str_eq,
    string_views, to_lowercase_str};

verus! {

broadcast use
    vstd::seq_lib::group_filter_ensures,
    vstd::seq_lib::lemma_seq_contains_after_push,
    vstd::prelude::Seq::lemma_filter_push,
    vstd::prelude::Seq::lemma_take_succ_push;

/// The filtering applied to the output.
#[derive(Clone, Copy, Debug, PartialEq, Eq, Structural)]
pub enum Filter {
    /// Keep any result that is a strict subdomain of an input host.
    SubOnly,
    /// Keep any result that has the same root domain as an input host.
    RootOnly,
}

impl Default for Filter {
    fn default() -> (r: Self)
        ensures
            r == Filter::RootOnly,
    {
        Filter::RootOnly
    }
}

/// Characters that never belong to a domain name are dropped outright.
pub open spec fn keep_char(c: char) -> bool {
    c != '"' && c != '\\' && c != '*'
}

/// `s` with the forbidden characters removed.
pub open spec fn strip_forbidden(s: Seq<char>) -> Seq<char> {
    s.filter(|c: char| keep_char(c))
}

/// `s` with one leading dot removed, when there is one.
pub open spec fn strip_leading_dot(s: Seq<char>) -> Seq<char> {
    if s.len() > 0 && s[0] == '.' {
        s.skip(1)
    } else {
        s
    }
}

/// A candidate after sanitization: forbidden characters removed, one
/// leading dot stripped, the remainder lowercased.
pub open spec fn sanitized(s: Seq<char>) -> Seq<char> {
    lower_of(strip_leading_dot(strip_forbidden(s)))
}

/// The registrable root domain of `s`, when `s` parses as a domain name:
/// the label before the public suffix together with that suffix.
pub uninterp spec fn root_of(s: Seq<char>) -> Option<Seq<char>>;

/// Relies on addr::parse_domain_name and addr::domain::Name::root: the
/// registrable root is a function of the input characters and the
/// public suffix list bundled with the library alone.
#[verifier::external_body]
fn registrable_root(s: &str) -> (r: Option<String>)
    ensures
        r is Some <==> root_of(s@) is Some,
        r matches Some(t) ==> root_of(s@) == Some(t@),
{
    match addr::parse_domain_name(s) {
        Ok(d) => d.root().map(|root| root.to_owned()),
        Err(_) => None,
    }
}

/// Whether a sanitized candidate `d` matters, judged against the root
/// set and the selected filter mode.
pub open spec fn relevant(roots: Set<Seq<char>>, mode: Filter, d: Seq<char>) -> bool {
    match mode {
        Filter::RootOnly => match root_of(d) {
            Some(r) => roots.contains(r),
            None => false,
        },
        Filter::SubOnly => exists|r: Seq<char>|
            #[trigger] roots.contains(r) && d != r && is_suffix_of(seq!['.'] + r, d),
    }
}

/// The set of roots that `hosts` yields: the root domain of each host
/// that parses as a domain name.
pub open spec fn roots_of_hosts(hosts: Seq<Seq<char>>) -> Set<Seq<char>> {
    Set::new(|t: Seq<char>| exists|i: int| 0 <= i < hosts.len() && root_of(hosts[i]) == Some(t))
}

/// The deduplicated set of sanitized, relevant names among `cands`.
pub open spec fn cleaned_set(cands: Seq<Seq<char>>, roots: Set<Seq<char>>, mode: Filter) -> Set<
    Seq<char>,
> {
    Set::new(
        |t: Seq<char>|
            exists|i: int|
                0 <= i < cands.len() && sanitized(cands[i]) == t && relevant(roots, mode, t),
    )
}

/// `PostProcessor` is responsible for filtering the raw data from each of
/// the data sources into only those results which are relevant.
pub struct PostProcessor {
    roots: Vec<String>,
    filter: Filter,
}

impl PostProcessor {
    /// The root strings this processor filters against.
    pub closed spec fn roots_view(&self) -> Seq<Seq<char>> {
        string_views(self.roots@)
    }

    /// The root strings, as a set.
    pub closed spec fn root_set(&self) -> Set<Seq<char>> {
        self.roots_view().to_set()
    }

    /// The selected filter mode.
    pub closed spec fn mode(&self) -> Filter {
        self.filter
    }

    /// Each root is held once.
    pub closed spec fn wf(&self) -> bool {
        self.roots_view().no_duplicates()
    }

    /// A processor with no roots that keeps results by root domain.
    pub fn new() -> (r: Self)
        ensures
            r.root_set() == Set::<Seq<char>>::empty(),
            r.mode() == Filter::RootOnly,
            r.wf(),
    {
        let r = PostProcessor { roots: Vec::new(), filter: Filter::RootOnly };
        proof {
            assert(r.root_set() =~= Set::<Seq<char>>::empty());
        }
        r
    }

    /// Sets the `PostProcessor` to return any result which matches the
    /// same root domain as one of `hosts`. Hosts that do not parse as
    /// domain names contribute no root.
    pub fn any_root(&mut self, hosts: &Vec<String>)
        ensures
            final(self).mode() == Filter::RootOnly,
            final(self).wf(),
            final(self).root_set() == roots_of_hosts(string_views(hosts@)),
    {
        let ghost host_views = string_views(hosts@);
        let mut roots: Vec<String> = Vec::new();
        let mut i: usize = 0;
        while i < hosts.len()
            invariant
                host_views == string_views(hosts@),
                i <= hosts.len(),
                string_views(roots@).no_duplicates(),
                forall|t: Seq<char>|
                    #[trigger] string_views(roots@).contains(t) ==> exists|k: int|
                        0 <= k < i && root_of(host_views[k]) == Some(t),
                forall|k: int|
                    0 <= k < i ==> match #[trigger] root_of(host_views[k]) {
                        Some(t) => string_views(roots@).contains(t),
                        None => true,
                    },
            decreases hosts.len() - i,
        {
            let ghost pre = string_views(roots@);
            match registrable_root(hosts[i].as_str()) {
                Some(root) => {
                    proof {
                        assert(hosts[i as int]@ == host_views[i as int]);
                        assert(root_of(host_views[i as int]) == Some(root@));
                    }
                    if !contains_string(&roots, root.as_str()) {
                        let ghost rv = root@;
                        roots.push(root);
                        proof {
                            assert(string_views(roots@) =~= pre.push(rv));
                            assert forall|t: Seq<char>|
                                #[trigger] string_views(roots@).contains(t) implies exists|k: int|
                                0 <= k < i + 1 && root_of(host_views[k]) == Some(t) by {
                                if t == rv {
                                    assert(root_of(host_views[i as int]) == Some(t));
                                } else {
                                    assert(pre.contains(t));
                                    let k = choose|k: int|
                                        0 <= k < i && root_of(host_views[k]) == Some(t);
                                    assert(0 <= k < i + 1 && root_of(host_views[k]) == Some(t));
                                }
                            }
                            assert(string_views(roots@).contains(rv));
                        }
                    }
                },
                None => {},
            }
            i += 1;
        }
        self.roots = roots;
        self.filter = Filter::RootOnly;
        proof {
            assert forall|t: Seq<char>| #[trigger]
                self.root_set().contains(t) implies roots_of_hosts(host_views).contains(t) by {
                assert(string_views(self.roots@).contains(t));
            }
            assert forall|t: Seq<char>| #[trigger]
                roots_of_hosts(host_views).contains(t) implies self.root_set().contains(t) by {
                let k = choose|k: int|
                    0 <= k < host_views.len() && root_of(host_views[k]) == Some(t);
                assert(string_views(self.roots@).contains(t));
            }
            assert(self.root_set() =~= roots_of_hosts(host_views));
        }
    }

    /// Sets the `PostProcessor` to return any result which is a strict
    /// subdomain of one of `hosts`, which join the roots already held.
    pub fn any_subdomain(&mut self, hosts: &Vec<String>)
        requires
            old(self).wf(),
        ensures
            final(self).mode() == Filter::SubOnly,
            final(self).wf(),
            final(self).root_set() == old(self).root_set().union(string_views(hosts@).to_set()),
    {
        let ghost host_views = string_views(hosts@);
        let ghost base = string_views(self.roots@);
        let mut i: usize = 0;
        while i < hosts.len()
            invariant
                host_views == string_views(hosts@),
                i <= hosts.len(),
                string_views(self.roots@).no_duplicates(),
                forall|t: Seq<char>|
                    #[trigger] string_views(self.roots@).contains(t) <==> (base.contains(t)
                        || host_views.take(i as int).contains(t)),
            decreases hosts.len() - i,
        {
            let ghost pre = string_views(self.roots@);
            if !contains_string(&self.roots, hosts[i].as_str()) {
                let item = hosts[i].clone();
                self.roots.push(item);
                proof {
                    assert(string_views(self.roots@) =~= pre.push(host_views[i as int]));
                }
            }
            proof {
                assert(host_views.take(i + 1) =~= host_views.take(i as int).push(
                    host_views[i as int],
                ));
                assert(string_views(self.roots@).contains(host_views[i as int]));
            }
            i += 1;
        }
        self.filter = Filter::SubOnly;
        proof {
            assert(host_views.take(hosts@.len() as int) =~= host_views);
            assert(self.root_set() =~= old(self).root_set().union(host_views.to_set()));
        }
    }

    /// Strips invalid characters from the domain, removes one leading
    /// dot, and lowercases the remainder.
    pub fn strip_invalid(domain: &str) -> (r: String)
        ensures
            r@ == sanitized(domain@),
    {
        let n = domain.unicode_len();
        let mut kept = String::new();
        let mut i: usize = 0;
        while i < n
            invariant
                n == domain@.len(),
                i <= n,
                kept@ == strip_forbidden(domain@.take(i as int)),
            decreases n - i,
        {
            let c = domain.get_char(i);
            if c != '"' && c != '\\' && c != '*' {
                push_char(&mut kept, c);
            }
            i += 1;
        }
        proof {
            assert(domain@.take(n as int) =~= domain@);
        }
        let kn = kept.unicode_len();
        if kn > 0 && kept.as_str().get_char(0) == '.' {
            let rest = kept.as_str().substring_char(1, kn);
            proof {
                assert(rest@ =~= kept@.skip(1));
            }
            to_lowercase_str(rest)
        } else {
            to_lowercase_str(kept.as_str())
        }
    }

    /// Determines if the result is one we're interested in: under
    /// `RootOnly` its root domain must be one of the roots; under
    /// `SubOnly` it must be a strict subdomain of one of them, ending
    /// with a dot followed by that root.
    pub fn is_relevant(&self, result: &str) -> (r: bool)
        ensures
            r == relevant(self.root_set(), self.mode(), result@),
    {
        match self.filter {
            Filter::RootOnly => {
                match registrable_root(result) {
                    Some(root) => {
                        let hit = contains_string(&self.roots, root.as_str());
                        proof {
                            if hit {
                                assert(self.root_set().contains(root@));
                            } else {
                                assert(!string_views(self.roots@).contains(root@));
                                assert(!self.root_set().contains(root@));
                            }
                        }
                        hit
                    },
                    None => false,
                }
            },
            Filter::SubOnly => {
                let mut i: usize = 0;
                while i < self.roots.len()
                    invariant
                        self.filter == Filter::SubOnly,
                        i <= self.roots.len(),
                        forall|k: int|
                            0 <= k < i ==> !(result@ != #[trigger] string_views(self.roots@)[k]
                                && is_suffix_of(
                                seq!['.'] + string_views(self.roots@)[k],
                                result@,
                            )),
                    decreases self.roots.len() - i,
                {
                    let root = &self.roots[i];
                    let dotted = String::from_str(".").concat(root.as_str());
                    proof {
                        reveal_strlit(".");
                        assert(dotted@ =~= seq!['.'] + string_views(self.roots@)[i as int]);
                    }
                    if str_ends_with(result, dotted.as_str()) && !str_eq(result, root.as_str()) {
                        proof {
                            let w = string_views(self.roots@)[i as int];
                            assert(string_views(self.roots@).contains(w));
                            assert(self.root_set().contains(w));
                        }
                        return true;
                    }
                    i += 1;
                }
                proof {
                    assert forall|r: Seq<char>| #[trigger]
                        self.root_set().contains(r) implies !(result@ != r && is_suffix_of(
                        seq!['.'] + r,
                        result@,
                    )) by {
                        assert(string_views(self.roots@).contains(r));
                        let k = choose|k: int|
                            0 <= k < string_views(self.roots@).len() && string_views(
                                self.roots@,
                            )[k] == r;
                        assert(!(result@ != string_views(self.roots@)[k] && is_suffix_of(
                            seq!['.'] + string_views(self.roots@)[k],
                            result@,
                        )));
                    }
                }
                false
            },
        }
    }

    /// Filters a whole collection: every candidate is sanitized, the
    /// relevant ones are kept, and each surviving name appears once.
    pub fn clean(&self, candidates: &Vec<String>) -> (r: Vec<String>)
        ensures
            string_views(r@).no_duplicates(),
            string_views(r@).to_set() == cleaned_set(
                string_views(candidates@),
                self.root_set(),
                self.mode(),
            ),
    {
        let ghost cand_views = string_views(candidates@);
        let mut out: Vec<String> = Vec::new();
        let mut i: usize = 0;
        while i < candidates.len()
            invariant
                cand_views == string_views(candidates@),
                i <= candidates.len(),
                string_views(out@).no_duplicates(),
                forall|t: Seq<char>|
                    #[trigger] string_views(out@).contains(t) <==> (exists|k: int|
                        0 <= k < i && sanitized(cand_views[k]) == t && relevant(
                            self.root_set(),
                            self.mode(),
                            t,
                        )),
            decreases candidates.len() - i,
        {
            let ghost pre = string_views(out@);
            let cleaned = Self::strip_invalid(candidates[i].as_str());
            proof {
                assert(candidates[i as int]@ == cand_views[i as int]);
                assert(cleaned@ == sanitized(cand_views[i as int]));
            }
            if self.is_relevant(cleaned.as_str()) {
                if !contains_string(&out, cleaned.as_str()) {
                    let ghost cv = cleaned@;
                    out.push(cleaned);
                    proof {
                        assert(string_views(out@) =~= pre.push(cv));
                        assert forall|t: Seq<char>|
                            #[trigger] string_views(out@).contains(t) implies (exists|k: int|
                            0 <= k < i + 1 && sanitized(cand_views[k]) == t && relevant(
                                self.root_set(),
                                self.mode(),
                                t,
                            )) by {
                            if t == cv {
                                assert(sanitized(cand_views[i as int]) == t);
                            } else {
                                assert(pre.contains(t));
                                let k = choose|k: int|
                                    0 <= k < i && sanitized(cand_views[k]) == t && relevant(
                                        self.root_set(),
                                        self.mode(),
                                        t,
                                    );
                                assert(0 <= k < i + 1 && sanitized(cand_views[k]) == t);
                            }
                        }
                        assert(string_views(out@).contains(cv));
                    }
                }
            }
            i += 1;
        }
        proof {
            assert forall|t: Seq<char>| #[trigger]
                cleaned_set(cand_views, self.root_set(), self.mode()).contains(
                    t,
                ) implies string_views(out@).to_set().contains(t) by {
                let k = choose|k: int|
                    0 <= k < cand_views.len() && sanitized(cand_views[k]) == t && relevant(
                        self.root_set(),
                        self.mode(),
                        t,
                    );
                assert(string_views(out@).contains(t));
            }
            assert(string_views(out@).to_set() =~= cleaned_set(
                cand_views,
                self.root_set(),
                self.mode(),
            ));
        }
        out
    }
}

/// The position of the first candidate at or after `from` whose
/// sanitized form is relevant, if any.
pub open spec fn first_relevant(
    cands: Seq<Seq<char>>,
    roots: Set<Seq<char>>,
    mode: Filter,
    from: int,
) -> Option<int>
    decreases cands.len() - from,
    when 0 <= from <= cands.len()
{
    if from >= cands.len() {
        None
    } else if relevant(roots, mode, sanitized(cands[from])) {
        Some(from)
    } else {
        first_relevant(cands, roots, mode, from + 1)
    }
}

/// An adaptor which uses a `PostProcessor` to sanitize and filter a
/// sequence of candidates one at a time, without buffering them all.
pub struct PostProcessorIter<'a> {
    cleaner: &'a PostProcessor,
    items: Vec<String>,
    idx: usize,
}

impl<'a> PostProcessorIter<'a> {
    /// The processor this adaptor filters with.
    pub closed spec fn processor(&self) -> PostProcessor {
        *self.cleaner
    }

    /// The candidates this adaptor walks.
    pub closed spec fn items_view(&self) -> Seq<Seq<char>> {
        string_views(self.items@)
    }

    /// How many candidates were consumed so far.
    pub closed spec fn position(&self) -> int {
        self.idx as int
    }

    /// The position never runs past the candidates.
    pub closed spec fn wf(&self) -> bool {
        0 <= self.idx <= self.items@.len()
    }

    /// Hands out the sanitized form of the next relevant candidate, or
    /// `None` once the remaining candidates hold no relevant name.
    #[verifier::loop_isolation(false)]
    pub fn next(&mut self) -> (r: Option<String>)
        requires
            old(self).wf(),
        ensures
            final(self).wf(),
            final(self).processor() == old(self).processor(),
            final(self).items_view() == old(self).items_view(),
            match first_relevant(
                old(self).items_view(),
                old(self).processor().root_set(),
                old(self).processor().mode(),
                old(self).position(),
            ) {
                Some(j) => {
                    &&& r matches Some(s) && s@ == sanitized(old(self).items_view()[j])
                    &&& final(self).position() == j + 1
                },
                None => r is None && final(self).position() == old(self).items_view().len(),
            },
    {
        let ghost proc = *self.cleaner;
        let ghost iv = string_views(self.items@);
        let ghost orig = self.idx as int;
        while self.idx < self.items.len()
            invariant
                *self.cleaner == proc,
                iv == string_views(self.items@),
                0 <= orig <= self.idx as int <= self.items@.len(),
                first_relevant(iv, proc.root_set(), proc.mode(), orig) == first_relevant(
                    iv,
                    proc.root_set(),
                    proc.mode(),
                    self.idx as int,
                ),
            decreases self.items@.len() - self.idx,
        {
            let ghost at = self.idx as int;
            let cleaned = PostProcessor::strip_invalid(self.items[self.idx].as_str());
            proof {
                assert(self.items[at]@ == iv[at]);
                assert(cleaned@ == sanitized(iv[at]));
            }
            let hit = self.cleaner.is_relevant(cleaned.as_str());
            self.idx += 1;
            if hit {
                proof {
                    assert(first_relevant(iv, proc.root_set(), proc.mode(), at) == Some(at));
                }
                return Some(cleaned);
            }
            proof {
                assert(first_relevant(iv, proc.root_set(), proc.mode(), at) == first_relevant(
                    iv,
                    proc.root_set(),
                    proc.mode(),
                    at + 1,
                ));
            }
        }
        proof {
            assert(first_relevant(iv, proc.root_set(), proc.mode(), self.idx as int) is None);
        }
        None
    }
}

/// What the lazy adaptor yields over `cands` from position `from` on:
/// the sanitized form of each relevant candidate, in order.
pub open spec fn yielded(
    cands: Seq<Seq<char>>,
    roots: Set<Seq<char>>,
    mode: Filter,
    from: int,
) -> Seq<Seq<char>>
    decreases cands.len() - from,
    when 0 <= from <= cands.len()
{
    if from >= cands.len() {
        Seq::empty()
    } else if relevant(roots, mode, sanitized(cands[from])) {
        seq![sanitized(cands[from])] + yielded(cands, roots, mode, from + 1)
    } else {
        yielded(cands, roots, mode, from + 1)
    }
}

/// Each call of the adaptor's `next` peels exactly the head of
/// `yielded`: a hit hands its sanitized candidate out and leaves the
/// rest, and once nothing relevant remains, nothing is yielded.
pub proof fn lemma_yielded_step(
    cands: Seq<Seq<char>>,
    roots: Set<Seq<char>>,
    mode: Filter,
    from: int,
)
    requires
        0 <= from <= cands.len(),
    ensures
        match first_relevant(cands, roots, mode, from) {
            Some(j) => from <= j < cands.len() && yielded(cands, roots, mode, from) == seq![
                sanitized(cands[j]),
            ] + yielded(cands, roots, mode, j + 1),
            None => yielded(cands, roots, mode, from) == Seq::<Seq<char>>::empty(),
        },
    decreases cands.len() - from,
{
    if from < cands.len() && !relevant(roots, mode, sanitized(cands[from])) {
        lemma_yielded_step(cands, roots, mode, from + 1);
    }
}

proof fn lemma_yielded_set(cands: Seq<Seq<char>>, roots: Set<Seq<char>>, mode: Filter, from: int)
    requires
        0 <= from <= cands.len(),
    ensures
        yielded(cands, roots, mode, from).to_set() == Set::new(
            |t: Seq<char>|
                exists|i: int|
                    from <= i < cands.len() && sanitized(cands[i]) == t && relevant(
                        roots,
                        mode,
                        t,
                    ),
        ),
    decreases cands.len() - from,
{
    let target = Set::new(
        |t: Seq<char>|
            exists|i: int|
                from <= i < cands.len() && sanitized(cands[i]) == t && relevant(roots, mode, t),
    );
    if from >= cands.len() {
        assert(yielded(cands, roots, mode, from).to_set() =~= target);
    } else {
        lemma_yielded_set(cands, roots, mode, from + 1);
        let rest = yielded(cands, roots, mode, from + 1);
        let head = sanitized(cands[from]);
        if relevant(roots, mode, head) {
            let whole = seq![head] + rest;
            assert forall|t: Seq<char>| #[trigger]
                whole.to_set().contains(t) implies target.contains(t) by {
                let k = choose|k: int| 0 <= k < whole.len() && whole[k] == t;
                if k == 0 {
                    assert(sanitized(cands[from]) == t);
                } else {
                    assert(rest[k - 1] == t);
                    assert(rest.to_set().contains(t));
                }
            }
            assert forall|t: Seq<char>| #[trigger]
                target.contains(t) implies whole.to_set().contains(t) by {
                let i = choose|i: int|
                    from <= i < cands.len() && sanitized(cands[i]) == t && relevant(
                        roots,
                        mode,
                        t,
                    );
                if i == from {
                    assert(whole[0] == t);
                } else {
                    assert(rest.to_set().contains(t));
                    let k = choose|k: int| 0 <= k < rest.len() && rest[k] == t;
                    assert(whole[k + 1] == t);
                }
            }
            assert(yielded(cands, roots, mode, from).to_set() =~= target);
        } else {
            assert forall|t: Seq<char>| #[trigger]
                target.contains(t) implies rest.to_set().contains(t) by {
                let i = choose|i: int|
                    from <= i < cands.len() && sanitized(cands[i]) == t && relevant(
                        roots,
                        mode,
                        t,
                    );
                assert(i != from);
            }
            assert(yielded(cands, roots, mode, from).to_set() =~= target);
        }
    }
}

/// The batch operation and the lazy adaptor are two surfaces of one
/// filter: what the adaptor yields over a collection of candidates,
/// collapsed to a set, is exactly the deduplicated set that `clean`
/// returns for the same candidates, roots and mode.
pub proof fn lemma_surfaces_agree(cands: Seq<Seq<char>>, roots: Set<Seq<char>>, mode: Filter)
    ensures
        yielded(cands, roots, mode, 0).to_set() == cleaned_set(cands, roots, mode),
{
    lemma_yielded_set(cands, roots, mode, 0);
    assert(yielded(cands, roots, mode, 0).to_set() =~= cleaned_set(cands, roots, mode));
}

impl PostProcessor {
    /// Wraps a collection of candidates in a lazy filtering adaptor
    /// driven by this processor.
    pub fn clean_iter<'a>(&'a self, items: Vec<String>) -> (it: PostProcessorIter<'a>)
        ensures
            it.processor() == *self,
            it.items_view() == string_views(items@),
            it.position() == 0,
            it.wf(),
    {
        PostProcessorIter { cleaner: self, items, idx: 0 }
    }
}

impl Default for PostProcessor {
    fn default() -> (r: Self)
        ensures
            r.root_set() == Set::<Seq<char>>::empty(),
            r.mode() == Filter::RootOnly,
            r.wf(),
    {
        Self::new()
    }
}

/// The output set of `clean` is a pure function of (candidates, roots,
/// mode): any two results drawn from the same inputs hold the same set
/// of names.
pub proof fn lemma_clean_pure(
    cands: Seq<Seq<char>>,
    roots: Set<Seq<char>>,
    mode: Filter,
    out1: Seq<Seq<char>>,
    out2: Seq<Seq<char>>,
)
    requires
        out1.to_set() == cleaned_set(cands, roots, mode),
        out2.to_set() == cleaned_set(cands, roots, mode),
    ensures
        out1.to_set() == out2.to_set(),
{
}

/// The output set of `clean` depends on the candidates only through the
/// set they form: order and repetition do not matter.
pub proof fn lemma_clean_set_insensitive(
    cands1: Seq<Seq<char>>,
    cands2: Seq<Seq<char>>,
    roots: Set<Seq<char>>,
    mode: Filter,
)
    requires
        cands1.to_set() == cands2.to_set(),
    ensures
        cleaned_set(cands1, roots, mode) == cleaned_set(cands2, roots, mode),
{
    assert forall|t: Seq<char>|
        cleaned_set(cands1, roots, mode).contains(t) implies cleaned_set(
        cands2,
        roots,
        mode,
    ).contains(t) by {
        let i = choose|i: int|
            0 <= i < cands1.len() && sanitized(cands1[i]) == t && relevant(roots, mode, t);
        assert(cands1.to_set().contains(cands1[i]));
        assert(cands2.contains(cands1[i]));
        let j = choose|j: int| 0 <= j < cands2.len() && cands2[j] == cands1[i];
        assert(sanitized(cands2[j]) == t);
    }
    assert forall|t: Seq<char>|
        cleaned_set(cands2, roots, mode).contains(t) implies cleaned_set(
        cands1,
        roots,
        mode,
    ).contains(t) by {
        let i = choose|i: int|
            0 <= i < cands2.len() && sanitized(cands2[i]) == t && relevant(roots, mode, t);
        assert(cands2.to_set().contains(cands2[i]));
        assert(cands1.contains(cands2[i]));
        let j = choose|j: int| 0 <= j < cands1.len() && cands1[j] == cands2[i];
        assert(sanitized(cands1[j]) == t);
    }
    assert(cleaned_set(cands1, roots, mode) =~= cleaned_set(cands2, roots, mode));
}

} // verus!
