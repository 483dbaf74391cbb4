use acme_proxy::acme::{
    cert_file_name, key_file_name, needs_provisioning, order_poll_policy, plan_account,
    select_directory, AccountPlan, AcmeAction, AcmeDirectory, AcmeEvent, DomainMachine,
    DomainState, ProvisionBatch,
};

#[test]
fn account_plan_reuses_existing_credentials() {
    assert!(matches!(plan_account(true, true), AccountPlan::LoadExisting));
    assert!(matches!(plan_account(true, false), AccountPlan::CreateNew { persist: true }));
    assert!(matches!(plan_account(false, false), AccountPlan::CreateNew { persist: false }));
    assert!(matches!(plan_account(false, true), AccountPlan::CreateNew { persist: false }));
}

#[test]
fn directory_is_staging_unless_production() {
    assert!(matches!(select_directory(false), AcmeDirectory::Staging));
    assert!(matches!(select_directory(true), AcmeDirectory::Production));
}

#[test]
fn covered_certificate_means_no_provisioning() {
    assert!(!needs_provisioning(true, true));
    assert!(needs_provisioning(true, false));
    assert!(!needs_provisioning(false, false));
    assert!(!needs_provisioning(false, true));
}

#[test]
fn poll_policy_values() {
    let p = order_poll_policy();
    assert_eq!(p.initial_delay_secs, 3);
    assert_eq!(p.backoff_tenths, 15);
    assert_eq!(p.timeout_secs, 120);
}

#[test]
fn artifact_file_names_are_domain_derived() {
    assert_eq!(cert_file_name("jelly.duckdns.org"), "jelly_cert.pem");
    assert_eq!(key_file_name("jelly.duckdns.org"), "jelly_key.pem");
    assert_eq!(cert_file_name("other.example.com"), "other.example.com_cert.pem");
}

fn run_happy_path(mut m: DomainMachine, batch: &mut ProvisionBatch) -> DomainMachine {
    assert!(matches!(m.current_action(batch.should_write_default()),
        AcmeAction::CreateOrder { .. }));
    m = m.step(AcmeEvent::OrderCreated);
    assert!(matches!(m.current_action(true), AcmeAction::FetchAuthorization));
    m = m.step(AcmeEvent::AuthzIsPending);
    assert!(matches!(m.current_action(true), AcmeAction::ComputeChallenge));
    m = m.step(AcmeEvent::ChallengeFound { txt: "txt-value".to_string() });
    match m.current_action(true) {
        AcmeAction::SetTxtRecord { domain, txt } => {
            assert_eq!(domain, m.domain);
            assert_eq!(txt, "txt-value");
        },
        _ => panic!("expected the TXT publication step"),
    }
    m = m.step(AcmeEvent::TxtSet);
    match m.current_action(true) {
        AcmeAction::WaitPropagation { seconds } => assert_eq!(seconds, 30),
        _ => panic!("expected the propagation wait"),
    }
    m = m.step(AcmeEvent::Waited);
    assert!(matches!(m.current_action(true), AcmeAction::MarkChallengeReady));
    m = m.step(AcmeEvent::ReadySet);
    assert!(matches!(m.current_action(true), AcmeAction::PollOrderReady { .. }));
    m = m.step(AcmeEvent::OrderReady);
    assert!(matches!(m.current_action(true), AcmeAction::FinalizeOrder));
    m = m.step(AcmeEvent::Finalized { key_pem: b"KEY".to_vec() });
    assert!(matches!(m.current_action(true), AcmeAction::PollCertificate { .. }));
    m = m.step(AcmeEvent::CertIssued { cert_pem: b"CERT".to_vec() });
    m
}

#[test]
fn batch_first_success_then_txt_failure() {
    let mut batch = ProvisionBatch::new(
        vec!["a.duckdns.org".to_string(), "b.duckdns.org".to_string()],
        30,
    );

    // Domain A: the full happy path; its save is the batch's first, so it
    // also writes the default certificate pair.
    let m = batch.next_domain().unwrap();
    assert_eq!(m.domain, "a.duckdns.org");
    let mut m = run_happy_path(m, &mut batch);
    match m.current_action(batch.should_write_default()) {
        AcmeAction::SaveArtifacts { cert_name, key_name, write_default, cert_pem, key_pem } => {
            assert_eq!(cert_name, "a_cert.pem");
            assert_eq!(key_name, "a_key.pem");
            assert!(write_default);
            assert_eq!(cert_pem, b"CERT".to_vec());
            assert_eq!(key_pem, b"KEY".to_vec());
        },
        _ => panic!("expected the save step"),
    }
    m = m.step(AcmeEvent::ArtifactsSaved);
    // Cleanup is unconditional, also after a success.
    match m.current_action(false) {
        AcmeAction::ClearTxtRecord { domain } => assert_eq!(domain, "a.duckdns.org"),
        _ => panic!("expected the cleanup step"),
    }
    m = m.step(AcmeEvent::TxtCleared);
    assert!(m.is_finished());
    match m.current_action(false) {
        AcmeAction::Report { saved } => {
            assert!(saved);
            batch.record(saved);
        },
        _ => panic!("expected the report step"),
    }

    // Domain B: the TXT-set call fails; the attempt is skipped, cleanup
    // still runs, and no save step is ever reached.
    let m = batch.next_domain().unwrap();
    assert_eq!(m.domain, "b.duckdns.org");
    let mut m = m.step(AcmeEvent::OrderCreated);
    m = m.step(AcmeEvent::AuthzIsPending);
    m = m.step(AcmeEvent::ChallengeFound { txt: "t2".to_string() });
    m = m.step(AcmeEvent::TxtSetFailed);
    assert!(matches!(m.state, DomainState::Cleanup { saved: false }));
    assert!(!batch.should_write_default());
    match m.current_action(false) {
        AcmeAction::ClearTxtRecord { domain } => assert_eq!(domain, "b.duckdns.org"),
        _ => panic!("expected the cleanup step"),
    }
    m = m.step(AcmeEvent::TxtCleared);
    match m.current_action(false) {
        AcmeAction::Report { saved } => {
            assert!(!saved);
            batch.record(saved);
        },
        _ => panic!("expected the report step"),
    }

    // One saved domain makes the whole run a success.
    assert!(batch.next_domain().is_none());
    assert!(batch.result().is_ok());
}

#[test]
fn batch_with_no_success_fails() {
    let mut batch = ProvisionBatch::new(vec!["a.duckdns.org".to_string()], 30);
    let mut m = batch.next_domain().unwrap();
    m = m.step(AcmeEvent::OrderFailed);
    assert!(matches!(m.state, DomainState::Cleanup { saved: false }));
    m = m.step(AcmeEvent::TxtCleared);
    assert!(matches!(m.state, DomainState::Finished { saved: false }));
    batch.record(false);
    assert!(batch.result().is_err());
}

#[test]
fn already_valid_authorization_skips_publication() {
    let mut m = DomainMachine::start("a.duckdns.org".to_string(), 30);
    m = m.step(AcmeEvent::OrderCreated);
    m = m.step(AcmeEvent::AuthzNotPending);
    assert!(matches!(m.state, DomainState::PollReady));
}

#[test]
fn order_not_ready_cleans_up_and_skips() {
    let mut m = DomainMachine::start("a.duckdns.org".to_string(), 30);
    m = m.step(AcmeEvent::OrderCreated);
    m = m.step(AcmeEvent::AuthzNotPending);
    m = m.step(AcmeEvent::OrderNotReady);
    assert!(matches!(m.state, DomainState::Cleanup { saved: false }));
}

#[test]
fn save_failure_aborts_the_run() {
    let mut m = DomainMachine::start("a.duckdns.org".to_string(), 30);
    m = m.step(AcmeEvent::OrderCreated);
    m = m.step(AcmeEvent::AuthzNotPending);
    m = m.step(AcmeEvent::OrderReady);
    m = m.step(AcmeEvent::Finalized { key_pem: b"K".to_vec() });
    m = m.step(AcmeEvent::CertIssued { cert_pem: b"C".to_vec() });
    m = m.step(AcmeEvent::SaveFailed);
    assert!(matches!(m.state, DomainState::Aborted));
    assert!(matches!(m.current_action(false), AcmeAction::AbortRun));
}

#[test]
fn empty_batch_reports_failure() {
    let mut batch = ProvisionBatch::new(vec![], 30);
    assert!(batch.next_domain().is_none());
    assert!(batch.result().is_err());
}

#[test]
fn default_configuration_values() {
    assert_eq!(acme_proxy::config::default_dns_wait(), 30);
    assert!(acme_proxy::config::default_true());
}
