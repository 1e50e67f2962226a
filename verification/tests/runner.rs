use vita::dispatch::{Action, Dispatcher, Unit};
use vita::vita::Source;
use vita::Runner;

fn strings(items: &[&str]) -> Vec<String> {
    items.iter().map(|s| s.to_string()).collect()
}

#[test]
fn default_config() {
    let runner = Runner::default();
    let config = runner.config();
    assert_eq!(config.concurrency, 200);
    assert_eq!(config.timeout, 15);
    assert!(runner.active_sources().is_empty());
}

#[test]
fn builders_set_the_config() {
    let runner = Runner::default().concurrency(7).timeout(30);
    let config = runner.config();
    assert_eq!(config.concurrency, 7);
    assert_eq!(config.timeout, 30);
}

#[test]
fn free_sources_registers_the_free_set() {
    let runner = Runner::default().free_sources();
    assert_eq!(runner.active_sources().len(), 12);
    assert!(runner.active_sources().contains(&Source::AnubisDB));
    assert!(!runner.active_sources().contains(&Source::SecurityTrails));
}

#[test]
fn all_sources_registers_everything() {
    let runner = Runner::default().all_sources();
    assert_eq!(runner.active_sources().len(), 20);
    assert!(runner.active_sources().contains(&Source::SecurityTrails));
    assert!(runner.active_sources().contains(&Source::Chaos));
}

#[test]
fn exclude_removes_named_sources() {
    let runner = Runner::default().all_sources().exclude(&strings(&["AlienVault", "Wayback"]));
    assert_eq!(runner.active_sources().len(), 18);
    assert!(!runner.active_sources().contains(&Source::AlienVault));
    assert!(!runner.active_sources().contains(&Source::Wayback));
}

#[test]
fn exclude_ignores_unknown_names() {
    let runner = Runner::default().free_sources().exclude(&strings(&["NoSuchSource"]));
    assert_eq!(runner.active_sources().len(), 12);
}

#[test]
fn source_names_round_trip() {
    assert_eq!(Source::from_name("AlienVault"), Some(Source::AlienVault));
    assert_eq!(Source::from_name("Wayback"), Some(Source::Wayback));
    assert_eq!(Source::from_name("wayback"), None);
    assert_eq!(Source::CertSpotter.name(), "CertSpotter");
    assert_eq!(Source::from_name(Source::SonarSearch.name()), Some(Source::SonarSearch));
}

#[test]
fn dispatcher_respects_the_admission_limit() {
    let mut d = Dispatcher::new(2, 3, 2);
    let mut outstanding: usize = 0;
    let mut started: Vec<Unit> = Vec::new();
    let mut steps: usize = 0;
    loop {
        steps += 1;
        assert!(steps < 100, "the run should have closed by now");
        match d.next_action() {
            Action::Dispatch(_) => {
                started.push(d.start_unit());
                outstanding += 1;
                assert!(outstanding <= 2);
            }
            Action::AwaitOne => {
                assert!(outstanding > 0);
                outstanding -= 1;
                d.unit_completed();
            }
            Action::Close => {
                assert_eq!(outstanding, 0);
                d.close();
            }
            Action::Done => break,
        }
    }
    assert_eq!(started.len(), 6);
    for h in 0..2usize {
        for s in 0..3usize {
            assert!(started.contains(&Unit { host: h, source: s }));
        }
    }
}

#[test]
fn dispatcher_closes_once_everything_completed() {
    let mut d = Dispatcher::new(1, 1, 5);
    let _u = match d.next_action() {
        Action::Dispatch(_) => d.start_unit(),
        other => panic!("expected a dispatch, got {:?}", other),
    };
    assert!(matches!(d.next_action(), Action::AwaitOne));
    d.unit_completed();
    assert!(matches!(d.next_action(), Action::Close));
    d.close();
    assert!(matches!(d.next_action(), Action::Done));
}

#[test]
fn runner_plans_the_cross_product() {
    let runner = Runner::default().free_sources().concurrency(4);
    let d = runner.plan(3);
    let mut units: usize = 0;
    let mut d = d;
    loop {
        match d.next_action() {
            Action::Dispatch(_) => {
                d.start_unit();
                units += 1;
            }
            Action::AwaitOne => d.unit_completed(),
            Action::Close => d.close(),
            Action::Done => break,
        }
    }
    assert_eq!(units, 3 * 12);
}
