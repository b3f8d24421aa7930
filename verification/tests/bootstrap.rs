use cpa_route_control::bootstrap::{
    bootstrap_start, bootstrap_step, failed_bootstrap, BootstrapAction, BootstrapEvent,
    BootstrapResult, BootstrapState, CredentialLookup,
};

use cpa_route_control::startup::{BootstrapSource, StartupConfigError, StartupCredentials};

fn creds(source: BootstrapSource) -> StartupCredentials {
    StartupCredentials { source, base_url: "http://h".into(), management_key: "key".into() }
}

#[test]
fn starts_with_install_env() {
    let (state, action) = bootstrap_start("http://fallback".into());
    assert!(matches!(action, BootstrapAction::ReadInstallEnv));
    assert!(matches!(state, BootstrapState::ReadingInstallEnv { .. }));
}

#[test]
fn install_env_credentials_win() {
    let (state, _) = bootstrap_start("http://fallback".into());
    let (state, action) = bootstrap_step(state, BootstrapEvent::InstallEnvRead(Ok(Some(creds(BootstrapSource::InstallEnv)))));
    match action {
        BootstrapAction::FetchConfig { connection } => {
            assert_eq!(connection.base_url, "http://h");
            assert_eq!(connection.management_key, "key");
            assert!(!connection.delete_saved_credential_on_disconnect);
        }
        _ => panic!("expected a config fetch"),
    }
    let config = serde_json::from_str::<serde_json::Value>("{}").unwrap();
    let (_, action) = bootstrap_step(state, BootstrapEvent::ConfigFetched(Ok(config)));
    match action {
        BootstrapAction::Connect { connection, result: BootstrapResult::Connected { source, base_url, .. } } => {
            assert_eq!(source, BootstrapSource::InstallEnv);
            assert_eq!(base_url, "http://h");
            assert_eq!(connection.base_url, "http://h");
        }
        _ => panic!("expected to connect"),
    }
}

#[test]
fn malformed_source_stops_the_search() {
    let (state, _) = bootstrap_start("http://fallback".into());
    let error = StartupConfigError { source: BootstrapSource::InstallEnv, base_url: None, message: "bad".into() };
    let (state, action) = bootstrap_step(state, BootstrapEvent::InstallEnvRead(Err(error)));
    assert!(matches!(state, BootstrapState::Finished));
    match action {
        BootstrapAction::Finish(BootstrapResult::Failed { source, base_url, message }) => {
            assert_eq!(source, BootstrapSource::InstallEnv);
            assert!(base_url.is_none());
            assert_eq!(message, "bad");
        }
        _ => panic!("expected a failure"),
    }
}

#[test]
fn falls_through_to_credential_store() {
    let (state, _) = bootstrap_start(" http://fallback/ ".into());
    let (state, action) = bootstrap_step(state, BootstrapEvent::InstallEnvRead(Ok(None)));
    assert!(matches!(action, BootstrapAction::ReadProcessEnv));
    let (state, action) = bootstrap_step(state, BootstrapEvent::ProcessEnvRead(Ok(None)));
    match &action {
        BootstrapAction::ReadCredential { base_url } => assert_eq!(base_url, "http://fallback"),
        _ => panic!("expected a credential lookup"),
    }
    let (state, action) = bootstrap_step(state, BootstrapEvent::CredentialRead(CredentialLookup::Found("top-secret".into())));
    match &action {
        BootstrapAction::FetchConfig { connection } => {
            assert!(connection.delete_saved_credential_on_disconnect);
            assert_eq!(connection.management_key, "top-secret");
        }
        _ => panic!("expected a config fetch"),
    }
    let (_, action) = bootstrap_step(state, BootstrapEvent::ConfigFetched(Err("rejected top-secret (HTTP 401)".into())));
    match action {
        BootstrapAction::Finish(BootstrapResult::Failed { source, base_url, message }) => {
            assert_eq!(source, BootstrapSource::CredentialManager);
            assert_eq!(base_url.as_deref(), Some("http://fallback"));
            assert_eq!(message, "rejected [REDACTED] (HTTP 401)");
        }
        _ => panic!("expected a failure"),
    }
}

fn at_credential_store() -> BootstrapState {
    BootstrapState::ReadingCredential { base_url: "http://h".into() }
}

#[test]
fn credential_lookup_outcomes() {
    let (_, action) = bootstrap_step(at_credential_store(), BootstrapEvent::CredentialRead(CredentialLookup::NoEntry));
    assert!(matches!(action, BootstrapAction::Finish(BootstrapResult::NotConfigured)));
    let (_, action) = bootstrap_step(at_credential_store(), BootstrapEvent::CredentialRead(CredentialLookup::EntryFailed("e".into())));
    match action {
        BootstrapAction::Finish(BootstrapResult::Failed { message, base_url, .. }) => {
            assert_eq!(message, "Windows Credential Manager error: e");
            assert_eq!(base_url.as_deref(), Some("http://h"));
        }
        _ => panic!("expected a failure"),
    }
    let (_, action) = bootstrap_step(at_credential_store(), BootstrapEvent::CredentialRead(CredentialLookup::ReadFailed("r".into())));
    match action {
        BootstrapAction::Finish(BootstrapResult::Failed { message, .. }) => assert_eq!(message, "读取 CPA 密钥失败: r"),
        _ => panic!("expected a failure"),
    }
}

#[test]
fn invalid_fallback_url_fails() {
    let state = BootstrapState::ReadingProcessEnv { fallback_base_url: "ftp://x".into() };
    let (_, action) = bootstrap_step(state, BootstrapEvent::ProcessEnvRead(Ok(None)));
    match action {
        BootstrapAction::Finish(BootstrapResult::Failed { source, base_url, message }) => {
            assert_eq!(source, BootstrapSource::CredentialManager);
            assert!(base_url.is_none());
            assert_eq!(message, "CPA_MANAGEMENT_URL 必须是合法的 HTTP 或 HTTPS 地址");
        }
        _ => panic!("expected a failure"),
    }
}

#[test]
fn process_env_credentials_win_over_store() {
    let state = BootstrapState::ReadingProcessEnv { fallback_base_url: "http://x".into() };
    let (state, action) = bootstrap_step(state, BootstrapEvent::ProcessEnvRead(Ok(Some(creds(BootstrapSource::ProcessEnv)))));
    assert!(matches!(action, BootstrapAction::FetchConfig { .. }));
    assert!(matches!(state, BootstrapState::FetchingConfig { source: BootstrapSource::ProcessEnv, .. }));
}

#[test]
fn failed_bootstrap_copies_error() {
    let r = failed_bootstrap(StartupConfigError { source: BootstrapSource::ProcessEnv, base_url: Some("u".into()), message: "m".into() });
    match r {
        BootstrapResult::Failed { source, base_url, message } => {
            assert_eq!(source, BootstrapSource::ProcessEnv);
            assert_eq!(base_url.as_deref(), Some("u"));
            assert_eq!(message, "m");
        }
        _ => panic!("expected a failure"),
    }
}

