use cpa_route_control::startup::{credentials_from_values, BootstrapSource};

#[test]
fn accepts_complete_credentials_and_normalizes_url() {
    let result = credentials_from_values(
        BootstrapSource::InstallEnv,
        Some(" https://cpa.example.com/v0/management/ ".into()),
        Some(" secret ".into()),
    )
    .unwrap()
    .unwrap();

    assert_eq!(result.base_url, "https://cpa.example.com/v0/management");
    assert_eq!(result.management_key, "secret");
}

#[test]
fn ignores_source_without_relevant_values() {
    let result = credentials_from_values(BootstrapSource::ProcessEnv, None, None).unwrap();
    assert!(result.is_none());
}

#[test]
fn rejects_partial_credentials_without_cross_source_fallback() {
    let error = credentials_from_values(
        BootstrapSource::InstallEnv,
        Some("http://127.0.0.1:8317/v0/management".into()),
        None,
    )
    .unwrap_err();

    assert_eq!(error.source, BootstrapSource::InstallEnv);
    assert_eq!(
        error.base_url.as_deref(),
        Some("http://127.0.0.1:8317/v0/management")
    );
}

#[test]
fn rejects_non_http_management_url() {
    let error = credentials_from_values(
        BootstrapSource::ProcessEnv,
        Some("file:///tmp/config".into()),
        Some("secret".into()),
    )
    .unwrap_err();

    assert!(error.message.contains("HTTP 或 HTTPS"));
    assert!(error.base_url.is_none());
}

use cpa_route_control::startup::{
    credentials_from_env_entries, last_assigned_value, read_install_env, read_process_env,
    read_process_env_value, EnvFileRead, EnvVarRead,
};

const BOTH_REQUIRED: &str = "CPA_MANAGEMENT_URL 和 CPA_MANAGEMENT_KEY 必须同时配置且不能为空";

#[test]
fn blank_url_is_reported_without_url() {
    let error = credentials_from_values(BootstrapSource::InstallEnv, Some("  ".into()), Some("k".into()))
        .unwrap_err();
    assert_eq!(error.message, BOTH_REQUIRED);
    assert!(error.base_url.is_none());
    let error = credentials_from_values(BootstrapSource::InstallEnv, None, Some("k".into())).unwrap_err();
    assert_eq!(error.message, BOTH_REQUIRED);
}

#[test]
fn blank_key_is_reported_with_normalized_url() {
    let error = credentials_from_values(
        BootstrapSource::ProcessEnv,
        Some("http://h:1/api/".into()),
        Some(" \t ".into()),
    )
    .unwrap_err();
    assert_eq!(error.source, BootstrapSource::ProcessEnv);
    assert_eq!(error.base_url.as_deref(), Some("http://h:1/api"));
    assert_eq!(error.message, BOTH_REQUIRED);
}

#[test]
fn query_in_url_is_reported() {
    let error = credentials_from_values(
        BootstrapSource::InstallEnv,
        Some("http://h/?x=1".into()),
        Some("k".into()),
    )
    .unwrap_err();
    assert_eq!(error.message, "CPA_MANAGEMENT_URL 不能包含查询参数或片段");
    assert!(error.base_url.is_none());
}

#[test]
fn process_env_value_outcomes() {
    assert_eq!(
        read_process_env_value("X", EnvVarRead::Present("v".into())).unwrap(),
        Some("v".to_string())
    );
    assert_eq!(read_process_env_value("X", EnvVarRead::NotPresent).unwrap(), None);
    let error = read_process_env_value("X", EnvVarRead::NotUnicode).unwrap_err();
    assert_eq!(error.message, "系统环境变量 X 不是有效文本");
    assert_eq!(error.source, BootstrapSource::ProcessEnv);
}

#[test]
fn process_env_reports_url_variable_first() {
    let error = read_process_env(EnvVarRead::NotUnicode, EnvVarRead::NotUnicode).unwrap_err();
    assert_eq!(error.message, "系统环境变量 CPA_MANAGEMENT_URL 不是有效文本");
    let error = read_process_env(EnvVarRead::NotPresent, EnvVarRead::NotUnicode).unwrap_err();
    assert_eq!(error.message, "系统环境变量 CPA_MANAGEMENT_KEY 不是有效文本");
}

#[test]
fn process_env_credentials() {
    assert!(read_process_env(EnvVarRead::NotPresent, EnvVarRead::NotPresent).unwrap().is_none());
    let c = read_process_env(
        EnvVarRead::Present("https://h/".into()),
        EnvVarRead::Present(" key ".into()),
    )
    .unwrap()
    .unwrap();
    assert_eq!(c.source, BootstrapSource::ProcessEnv);
    assert_eq!(c.base_url, "https://h");
    assert_eq!(c.management_key, "key");
}

#[test]
fn later_assignment_wins() {
    let entries = vec![
        ("A".to_string(), "1".to_string()),
        ("B".to_string(), "2".to_string()),
        ("A".to_string(), "3".to_string()),
    ];
    assert_eq!(last_assigned_value(&entries, "A"), Some("3".to_string()));
    assert_eq!(last_assigned_value(&entries, "B"), Some("2".to_string()));
    assert_eq!(last_assigned_value(&entries, "C"), None);
}

#[test]
fn env_entries_outcomes() {
    let error = credentials_from_env_entries(None).unwrap_err();
    assert_eq!(error.message, "安装目录 .env 格式无效");
    assert_eq!(error.source, BootstrapSource::InstallEnv);
    assert!(credentials_from_env_entries(Some(vec![("OTHER".into(), "x".into())])).unwrap().is_none());
}

#[test]
fn install_env_file_outcomes() {
    assert!(read_install_env(EnvFileRead::NotFound).unwrap().is_none());
    assert_eq!(
        read_install_env(EnvFileRead::NoInstallDir).unwrap_err().message,
        "无法确定程序安装目录，不能读取 .env"
    );
    assert_eq!(
        read_install_env(EnvFileRead::Unreadable).unwrap_err().message,
        "读取安装目录 .env 失败"
    );
}

#[test]
fn install_env_file_content() {
    let content = "# comment\nCPA_MANAGEMENT_URL=http://127.0.0.1:8317/v0/management/\nCPA_MANAGEMENT_KEY=first\nCPA_MANAGEMENT_KEY=' second '\n";
    let c = read_install_env(EnvFileRead::Content(content.into())).unwrap().unwrap();
    assert_eq!(c.source, BootstrapSource::InstallEnv);
    assert_eq!(c.base_url, "http://127.0.0.1:8317/v0/management");
    assert_eq!(c.management_key, "second");
}

#[test]
fn install_env_file_malformed() {
    let error = read_install_env(EnvFileRead::Content("CPA_MANAGEMENT_URL http://h\n".into())).unwrap_err();
    assert_eq!(error.message, "安装目录 .env 格式无效");
    assert!(read_install_env(EnvFileRead::Content("".into())).unwrap().is_none());
}
