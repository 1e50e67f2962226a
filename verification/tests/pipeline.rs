use vita::capability::{check_creds, evaluate_batch};
use vita::dispatch::{Action, Dispatcher};
use vita::error::VitaError;
use vita::sources::sonarsearch::{batch_stream, Batcher};
use vita::PostProcessor;

fn strings(items: &[&str]) -> Vec<String> {
    items.iter().map(|s| s.to_string()).collect()
}

/// What each mock source answers for the one host of the run.
fn mock_source(index: usize) -> Result<Vec<String>, VitaError> {
    match index {
        0 => evaluate_batch("MockA", "hackerone.com", false, strings(&["api.hackerone.com"])),
        1 => evaluate_batch(
            "MockB",
            "hackerone.com",
            false,
            strings(&["docs.hackerone.com", "hackerone.com"]),
        ),
        _ => {
            let names = strings(&["MOCKC_KEY"]);
            check_creds(&names, vec![None]).map(|_| Vec::new())
        }
    }
}

#[test]
fn end_to_end_aggregation_and_filtering() {
    let hosts = strings(&["hackerone.com"]);
    let mut dispatcher = Dispatcher::new(hosts.len(), 3, 200);
    let mut aggregated: Vec<String> = Vec::new();
    let mut failures: Vec<VitaError> = Vec::new();
    loop {
        match dispatcher.next_action() {
            Action::Dispatch(_) => {
                let unit = dispatcher.start_unit();
                match mock_source(unit.source) {
                    Ok(batch) => aggregated.extend(batch),
                    Err(e) => failures.push(e),
                }
                dispatcher.unit_completed();
            }
            Action::AwaitOne => dispatcher.unit_completed(),
            Action::Close => dispatcher.close(),
            Action::Done => break,
        }
    }
    assert_eq!(failures.len(), 1);
    assert!(matches!(&failures[0], VitaError::UnsetKeys(v) if v == &strings(&["MOCKC_KEY"])));

    let mut pp = PostProcessor::new();
    pp.any_root(&hosts);
    let mut out = pp.clean(&aggregated);
    out.sort();
    assert_eq!(
        out,
        strings(&["api.hackerone.com", "docs.hackerone.com", "hackerone.com"])
    );
}

#[test]
fn evaluate_batch_classifies_outcomes() {
    let ok = evaluate_batch("Foo", "a.com", false, strings(&["a.com"]));
    assert_eq!(ok.unwrap(), strings(&["a.com"]));
    let empty = evaluate_batch("Foo", "a.com", false, Vec::new());
    assert_eq!(
        empty.unwrap_err(),
        VitaError::SourceError("Foo".to_string(), "a.com".to_string())
    );
    let auth = evaluate_batch("Foo", "a.com", true, strings(&["a.com"]));
    assert_eq!(auth.unwrap_err(), VitaError::AuthError("Foo".to_string()));
}

#[test]
fn check_creds_accepts_complete_credentials() {
    let names = strings(&["KEY", "SECRET"]);
    let got = check_creds(&names, vec![Some("k".to_string()), Some("s".to_string())]);
    assert_eq!(got.unwrap(), strings(&["k", "s"]));
}

#[test]
fn check_creds_names_every_wanted_variable() {
    let names = strings(&["KEY", "SECRET"]);
    let got = check_creds(&names, vec![Some("k".to_string()), None]);
    assert_eq!(got.unwrap_err(), VitaError::UnsetKeys(names));
}

#[test]
fn error_messages() {
    assert_eq!(
        VitaError::SourceError("ThreatMiner".to_string(), "anVubmxpa2VzdGVh.com".to_string())
            .message(),
        "ThreatMiner couldn't find any results for: anVubmxpa2VzdGVh.com"
    );
    assert_eq!(
        VitaError::AuthError("Foo".to_string()).message(),
        "error authenticating to Foo or may have hit rate limits"
    );
    assert_eq!(
        VitaError::UnsetKeys(strings(&["A", "B"])).message(),
        "error reading environment variables [\"A\", \"B\"]"
    );
    assert_eq!(VitaError::EmptyResults.message(), "returned no results");
    assert_eq!(
        VitaError::Msg("boom".to_string()).message(),
        "got error boom"
    );
    assert_eq!(
        VitaError::ParseError.message(),
        "got error trying to parse cli args"
    );
    assert_eq!(
        VitaError::CrobatError.message(),
        "got error when trying to pull results from crobat"
    );
}

#[test]
fn batch_stream_chunks_and_settles_the_outcome() {
    let names: Vec<String> = (0..vita::QUEUE_SIZE + 2).map(|i| format!("{}", i)).collect();
    let (batches, outcome) = batch_stream(names.clone(), "hackerone.com");
    assert!(outcome.is_ok());
    assert_eq!(batches.len(), 2);
    assert_eq!(batches[0].len(), vita::QUEUE_SIZE);
    assert_eq!(batches[1].len(), 2);
    let rejoined: Vec<String> = batches.into_iter().flatten().collect();
    assert_eq!(rejoined, names);

    let (none, outcome) = batch_stream(Vec::new(), "hackerone.com");
    assert!(none.is_empty());
    assert_eq!(
        outcome.unwrap_err(),
        VitaError::SourceError("SonarSearch".to_string(), "hackerone.com".to_string())
    );
}

#[test]
fn batcher_with_queue_size_fills_up() {
    let mut b = Batcher::with_queue_size();
    for i in 0..vita::QUEUE_SIZE - 1 {
        assert_eq!(b.push(format!("{}", i)), None);
    }
    let full = b.push("last".to_string()).expect("the batch should be complete");
    assert_eq!(full.len(), vita::QUEUE_SIZE);
    assert_eq!(full[0], "0");
    assert_eq!(full[vita::QUEUE_SIZE - 1], "last");
}

#[test]
fn batcher_hands_out_full_batches() {
    let mut b = Batcher::new(2);
    assert_eq!(b.push("a".to_string()), None);
    assert_eq!(b.push("b".to_string()), Some(strings(&["a", "b"])));
    assert_eq!(b.flush(), None);
    assert_eq!(b.push("c".to_string()), None);
    assert_eq!(b.flush(), Some(strings(&["c"])));
}
