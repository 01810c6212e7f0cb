use wsb_launcher::feature::{check_feature, feature_status, FeatureRecord, FeatureState};
use wsb_launcher::sandbox::{select_session, Action, Config, PreconditionFailure, SandboxSession, Stage};

fn record(name: Option<&str>, state: Option<u32>) -> FeatureRecord {
    FeatureRecord { name: name.map(|n| n.to_string()), install_state: state }
}

#[test]
fn no_matching_record_is_a_precondition_failure() {
    let records = vec![record(Some("Microsoft-Hyper-V"), Some(1)), record(None, Some(1))];
    let state = feature_status(&records);
    assert_eq!(state, FeatureState::Absent);
    let r = select_session(state, Config::default(), false);
    assert!(matches!(r, Err(PreconditionFailure::FeatureAbsent)));
    assert_eq!(feature_status(&vec![]), FeatureState::Absent);
}

#[test]
fn disabled_feature_is_refused() {
    let records = vec![record(Some("Containers-DisposableClientVM"), Some(2))];
    assert_eq!(feature_status(&records), FeatureState::Disabled);
    let r = select_session(FeatureState::Disabled, Config::default(), false);
    assert!(matches!(r, Err(PreconditionFailure::FeatureDisabled)));
}

#[test]
fn enabled_feature_is_found_among_others() {
    let records = vec![
        record(Some("Printing-PrintToPDFServices-Features"), Some(1)),
        record(Some("Containers-DisposableClientVM"), Some(1)),
        record(Some("Containers-DisposableClientVM"), Some(2)),
    ];
    assert_eq!(feature_status(&records), FeatureState::Enabled);
}

#[test]
fn check_feature_reads_one_record() {
    assert_eq!(check_feature(&record(Some("Containers-DisposableClientVM"), Some(1))), Some(FeatureState::Enabled));
    assert_eq!(check_feature(&record(Some("Containers-DisposableClientVM"), Some(0))), Some(FeatureState::Disabled));
    assert_eq!(check_feature(&record(Some("Containers-DisposableClientVM"), None)), Some(FeatureState::Disabled));
    assert_eq!(check_feature(&record(Some("containers-disposableclientvm"), Some(1))), None);
    assert_eq!(check_feature(&record(None, Some(1))), None);
}

#[test]
fn networking_selects_the_online_variant() {
    let config = Config::new(vec![], true, "x".to_string(), false);
    match select_session(FeatureState::Enabled, config, true) {
        Ok(SandboxSession::Online(online)) => {
            assert!(online.config.networking);
            assert!(online.launch_new_instance);
            assert_eq!(online.config.logon_script(), "x");
        },
        _ => panic!("expected the online variant"),
    }
}

#[test]
fn no_networking_selects_the_offline_variant() {
    match select_session(FeatureState::Enabled, Config::default(), true) {
        Ok(SandboxSession::Offline(session)) => assert!(!session.sandbox.config.networking),
        _ => panic!("expected the offline variant"),
    }
}

#[test]
fn lifecycle_runs_forward_on_success() {
    let mut stage = Stage::Created;
    let mut actions = vec![stage.first_action()];
    while actions.last() != Some(&Action::Stop) {
        let (next, action) = stage.advance(true);
        stage = next;
        actions.push(action);
    }
    assert_eq!(stage, Stage::Launched);
    assert_eq!(actions, vec![Action::Render, Action::Persist, Action::Launch, Action::Release, Action::Stop]);
}

#[test]
fn lifecycle_failures_end_the_attempt() {
    assert_eq!(Stage::Created.advance(false), (Stage::Failed, Action::Stop));
    assert_eq!(Stage::Rendered.advance(false), (Stage::Failed, Action::Release));
    assert_eq!(Stage::Persisted.advance(false), (Stage::Failed, Action::Release));
    assert_eq!(Stage::Failed.advance(true), (Stage::Failed, Action::Stop));
    assert_eq!(Stage::Launched.advance(false), (Stage::Launched, Action::Stop));
    assert_eq!(Stage::Persisted.advance(true), (Stage::Launched, Action::Release));
    assert_eq!(Stage::Launched.first_action(), Action::Release);
}
