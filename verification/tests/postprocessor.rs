use vita::PostProcessor;

fn strings(items: &[&str]) -> Vec<String> {
    items.iter().map(|s| s.to_string()).collect()
}

#[test]
fn root_only_matches_by_root_domain() {
    let mut pp = PostProcessor::new();
    pp.any_root(&strings(&["example.com"]));
    assert!(pp.is_relevant("a.example.com"));
    assert!(pp.is_relevant("example.com"));
    assert!(!pp.is_relevant("evil-example.com"));
    assert!(pp.is_relevant("a.b.example.com"));
}

#[test]
fn root_only_rejects_unparseable_candidates() {
    let mut pp = PostProcessor::new();
    pp.any_root(&strings(&["example.com"]));
    assert!(!pp.is_relevant(""));
    assert!(!pp.is_relevant("not a domain"));
}

#[test]
fn root_only_ignores_unparseable_hosts() {
    let mut pp = PostProcessor::new();
    pp.any_root(&strings(&["not a domain", "example.com"]));
    assert!(pp.is_relevant("a.example.com"));
    assert!(!pp.is_relevant("not a domain"));
}

#[test]
fn sub_only_needs_a_strict_subdomain() {
    let mut pp = PostProcessor::new();
    pp.any_subdomain(&strings(&["foo.example.com"]));
    assert!(pp.is_relevant("x.foo.example.com"));
    assert!(!pp.is_relevant("foo.example.com"));
    assert!(!pp.is_relevant("example.com"));
    assert!(!pp.is_relevant("xfoo.example.com"));
}

#[test]
fn sanitization_strips_wildcard_and_leading_dot() {
    assert_eq!(PostProcessor::strip_invalid("*.evil.com"), "evil.com");
}

#[test]
fn sanitization_lowercases_and_drops_quotes() {
    assert_eq!(PostProcessor::strip_invalid("\"A.Example.COM\""), "a.example.com");
    assert_eq!(PostProcessor::strip_invalid("a\\b.example.com"), "ab.example.com");
}

#[test]
fn clean_filters_sanitizes_and_deduplicates() {
    let mut pp = PostProcessor::new();
    pp.any_root(&strings(&["example.com"]));
    let candidates = strings(&[
        "A.Example.com",
        "*.a.example.com",
        "a.example.com",
        "other.org",
        "b.example.com",
    ]);
    let mut out = pp.clean(&candidates);
    out.sort();
    assert_eq!(out, strings(&["a.example.com", "b.example.com"]));
}

#[test]
fn clean_is_repeatable() {
    let mut pp = PostProcessor::new();
    pp.any_root(&strings(&["example.com"]));
    let candidates = strings(&["x.example.com", "y.example.com", "x.example.com"]);
    let mut first = pp.clean(&candidates);
    let mut second = pp.clean(&candidates);
    first.sort();
    second.sort();
    assert_eq!(first, second);
}

#[test]
fn clean_iter_filters_lazily() {
    let mut pp = PostProcessor::new();
    pp.any_root(&strings(&["example.com"]));
    let items = strings(&["skip.org", "*.A.example.com", "nope.net", "b.example.com"]);
    let mut it = pp.clean_iter(items);
    assert_eq!(it.next(), Some("a.example.com".to_string()));
    assert_eq!(it.next(), Some("b.example.com".to_string()));
    assert_eq!(it.next(), None);
}

#[test]
fn lazy_and_batch_surfaces_agree() {
    let mut pp = PostProcessor::new();
    pp.any_root(&strings(&["example.com"]));
    let items = strings(&["b.example.com", "skip.org", "A.example.com", "b.example.com"]);
    let mut lazy: Vec<String> = Vec::new();
    let mut it = pp.clean_iter(items.clone());
    while let Some(name) = it.next() {
        if !lazy.contains(&name) {
            lazy.push(name);
        }
    }
    lazy.sort();
    let mut batch = pp.clean(&items);
    batch.sort();
    assert_eq!(lazy, batch);
}

#[test]
fn sub_only_keeps_earlier_roots() {
    let mut pp = PostProcessor::new();
    pp.any_subdomain(&strings(&["foo.example.com"]));
    pp.any_subdomain(&strings(&["bar.example.com"]));
    assert!(pp.is_relevant("x.foo.example.com"));
    assert!(pp.is_relevant("x.bar.example.com"));
}
