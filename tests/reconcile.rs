use ddns_cli::cloudflare::{Cloudflare, CloudflareResponseError, CloudflareResponseResult};
use ddns_cli::driver::{exit_code, pass_result, register_drivers, Driver};
use ddns_cli::ip::Ipv4Address;
use ddns_cli::reconcile::{plan_changes, Action, Outcome, Reconciler, RemoteRecord, Stage};
use ddns_cli::record::{keys_of, Record, RecordKey};

fn key(kind: &str, content: &str) -> RecordKey {
    RecordKey { kind: String::from(kind), content: String::from(content) }
}

fn remote(id: &str, kind: &str, content: &str) -> RemoteRecord {
    RemoteRecord {
        id: String::from(id),
        kind: String::from(kind),
        name: String::from("home.example.com"),
        content: String::from(content),
    }
}

fn ids(v: &[RemoteRecord]) -> Vec<String> {
    v.iter().map(|r| r.id.clone()).collect()
}

fn contents(v: &[RecordKey]) -> Vec<String> {
    v.iter().map(|k| k.content.clone()).collect()
}

#[test]
fn in_sync_remote_needs_nothing() {
    let desired = vec![key("A", "1.1.1.1"), key("AAAA", "fe80::1")];
    let listed = vec![remote("x", "AAAA", "fe80::1"), remote("y", "A", "1.1.1.1")];
    let plan = plan_changes(&desired, &listed);
    assert!(plan.to_delete.is_empty());
    assert!(plan.to_create.is_empty());
}

#[test]
fn missing_record_is_created() {
    let desired = vec![key("A", "1.1.1.1"), key("A", "2.2.2.2")];
    let listed = vec![remote("r1", "A", "1.1.1.1")];
    let plan = plan_changes(&desired, &listed);
    assert!(plan.to_delete.is_empty());
    assert_eq!(contents(&plan.to_create), vec!["2.2.2.2"]);
    assert_eq!(plan.to_create[0].kind, "A");
}

#[test]
fn stale_record_is_deleted() {
    let desired = vec![key("A", "1.1.1.1")];
    let listed = vec![remote("r1", "A", "1.1.1.1"), remote("r9", "A", "9.9.9.9")];
    let plan = plan_changes(&desired, &listed);
    assert_eq!(ids(&plan.to_delete), vec!["r9"]);
    assert!(plan.to_create.is_empty());
}

#[test]
fn type_is_part_of_the_identity() {
    let desired = vec![key("TXT", "1.1.1.1")];
    let listed = vec![remote("r1", "A", "1.1.1.1")];
    let plan = plan_changes(&desired, &listed);
    assert_eq!(ids(&plan.to_delete), vec!["r1"]);
    assert_eq!(contents(&plan.to_create), vec!["1.1.1.1"]);
}

#[test]
fn changed_value_is_delete_then_create() {
    let desired = keys_of(&vec![Record::A(Ipv4Address::new(2, 2, 2, 2))]);
    let mut pass = Reconciler::new(desired, 1, 100);
    pass.on_outcome(Outcome::Listed(vec![remote("old", "A", "1.1.1.1")]));
    match pass.next_action() {
        Action::Delete { domain: 0, record } => assert_eq!(record.id, "old"),
        other => panic!("expected a delete, got {:?}", other),
    }
    pass.on_outcome(Outcome::Applied);
    match pass.next_action() {
        Action::Create { domain: 0, key } => assert_eq!(key.content, "2.2.2.2"),
        other => panic!("expected a create, got {:?}", other),
    }
    pass.on_outcome(Outcome::Applied);
    assert!(matches!(pass.next_action(), Action::Finish { failures: 0 }));
}

#[test]
fn failed_create_does_not_stop_later_domains() {
    let desired = vec![key("A", "2.2.2.2")];
    let mut pass = Reconciler::new(desired, 2, 100);
    assert!(matches!(pass.next_action(), Action::FetchPage { domain: 0, page: 1 }));
    pass.on_outcome(Outcome::Listed(vec![]));
    assert!(matches!(pass.next_action(), Action::Create { domain: 0, .. }));
    pass.on_outcome(Outcome::Failed);
    assert!(matches!(pass.next_action(), Action::FetchPage { domain: 1, page: 1 }));
    pass.on_outcome(Outcome::Listed(vec![remote("r7", "A", "7.7.7.7")]));
    assert!(matches!(pass.next_action(), Action::Delete { domain: 1, .. }));
    pass.on_outcome(Outcome::Applied);
    assert!(matches!(pass.next_action(), Action::Create { domain: 1, .. }));
    pass.on_outcome(Outcome::Applied);
    assert!(pass.is_finished());
    assert!(matches!(pass.next_action(), Action::Finish { failures: 1 }));
    assert_eq!(pass_result(pass.failures()), Err(()));
}

#[test]
fn failed_delete_still_runs_the_creates() {
    let desired = vec![key("A", "2.2.2.2")];
    let mut pass = Reconciler::new(desired, 1, 100);
    pass.on_outcome(Outcome::Listed(vec![remote("a", "A", "8.8.8.8"), remote("b", "A", "9.9.9.9")]));
    pass.on_outcome(Outcome::Failed);
    match pass.next_action() {
        Action::Delete { record, .. } => assert_eq!(record.id, "b"),
        other => panic!("expected a delete, got {:?}", other),
    }
    pass.on_outcome(Outcome::Failed);
    assert!(matches!(pass.next_action(), Action::Create { .. }));
    pass.on_outcome(Outcome::Applied);
    assert!(matches!(pass.next_action(), Action::Finish { failures: 2 }));
}

#[test]
fn full_page_fetches_the_next_page() {
    let desired = vec![key("A", "1.1.1.1")];
    let mut pass = Reconciler::new(desired, 1, 3);
    pass.on_outcome(Outcome::Listed(vec![
        remote("a", "A", "3.3.3.3"),
        remote("b", "A", "4.4.4.4"),
        remote("c", "A", "5.5.5.5"),
    ]));
    assert!(matches!(pass.next_action(), Action::FetchPage { domain: 0, page: 2 }));
    pass.on_outcome(Outcome::Listed(vec![remote("d", "A", "1.1.1.1")]));
    assert_eq!(pass.stage, Stage::Deleting);
    assert_eq!(ids(&pass.to_delete), vec!["a", "b", "c"]);
    assert!(pass.to_create.is_empty());
}

#[test]
fn short_page_ends_the_listing() {
    let desired = vec![key("A", "1.1.1.1")];
    let mut pass = Reconciler::new(desired, 1, 3);
    pass.on_outcome(Outcome::Listed(vec![remote("d", "A", "1.1.1.1")]));
    assert!(pass.is_finished());
    assert!(matches!(pass.next_action(), Action::Finish { failures: 0 }));
}

#[test]
fn empty_page_after_full_page_ends_the_listing() {
    let desired = vec![];
    let mut pass = Reconciler::new(desired, 1, 1);
    pass.on_outcome(Outcome::Listed(vec![remote("a", "A", "3.3.3.3")]));
    assert!(matches!(pass.next_action(), Action::FetchPage { page: 2, .. }));
    pass.on_outcome(Outcome::Listed(vec![]));
    match pass.next_action() {
        Action::Delete { record, .. } => assert_eq!(record.id, "a"),
        other => panic!("expected a delete, got {:?}", other),
    }
}

#[test]
fn failed_listing_abandons_only_that_domain() {
    let desired = vec![key("A", "1.1.1.1")];
    let mut pass = Reconciler::new(desired, 2, 100);
    pass.on_outcome(Outcome::Listed(vec![]));
    pass.on_outcome(Outcome::Applied);
    assert!(matches!(pass.next_action(), Action::FetchPage { domain: 1, page: 1 }));
    pass.on_outcome(Outcome::ListFailed);
    assert!(matches!(pass.next_action(), Action::Finish { failures: 1 }));
}

#[test]
fn outcome_for_another_stage_changes_nothing() {
    let mut pass = Reconciler::new(vec![key("A", "1.1.1.1")], 1, 100);
    pass.on_outcome(Outcome::Applied);
    pass.on_outcome(Outcome::Failed);
    assert!(matches!(pass.next_action(), Action::FetchPage { domain: 0, page: 1 }));
    assert_eq!(pass.failures(), 0);
}

#[test]
fn no_domain_finishes_at_once() {
    let pass = Reconciler::new(vec![key("A", "1.1.1.1")], 0, 100);
    assert!(pass.is_finished());
    assert!(matches!(pass.next_action(), Action::Finish { failures: 0 }));
    assert_eq!(pass_result(0), Ok(0));
}

#[test]
fn exit_code_is_zero_only_when_all_succeed() {
    assert_eq!(exit_code(&vec![Ok(0), Ok(0)]), 0);
    assert_eq!(exit_code(&vec![Ok(0), Err(())]), 1);
    assert_eq!(exit_code(&vec![]), 0);
}

#[test]
fn drivers_are_registered_unconfigured() {
    let ds = register_drivers();
    assert_eq!(ds.len(), 2);
    assert!(matches!(ds[0], Driver::Cloudflare(_)));
    assert!(matches!(ds[1], Driver::Dnspod(_)));
    for d in &ds {
        assert!(d.reconciler(&vec![]).is_finished());
    }
}

#[test]
fn cloudflare_error_message() {
    let ok = CloudflareResponseResult { success: true, errors: vec![] };
    assert_eq!(ok.get_error_message(), "");
    assert!(matches!(ok.outcome(), Outcome::Applied));
    let bad = CloudflareResponseResult {
        success: false,
        errors: vec![
            CloudflareResponseError { code: 81057, message: String::from("Record already exists.") },
            CloudflareResponseError { code: 1, message: String::from("second") },
        ],
    };
    assert_eq!(bad.get_error_message(), "Record already exists.");
    assert!(matches!(bad.outcome(), Outcome::Failed));
}

#[test]
fn cloudflare_disabled_without_token() {
    let mut cf = Cloudflare::new();
    cf.configure(String::from("zone"), String::new(), vec![String::from("a.example")]);
    assert!(!cf.is_enabled());
    assert!(cf.domains.is_empty());
    assert!(cf.reconciler(&vec![]).is_finished());
}
