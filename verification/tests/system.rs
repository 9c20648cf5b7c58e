use codex_desktop::child_process::{
    is_connector_private_environment, isolate_from_connector_environment,
};
use codex_desktop::cli::{parse_args, run, server_options, to_camel_case, CliCommand};
use codex_desktop::codex_path::CodexPath;
use codex_desktop::desktop::CommandOutput;
use codex_desktop::legacy_auth_cleanup::{
    cleanup_command, cleanup_failure, legacy_shared_auth_acl_cleanup_required,
    record_legacy_shared_auth_acl_cleanup, REVOKE_LEGACY_SHARED_AUTH_ACL_SCRIPT,
};
use codex_desktop::credential::contract::CredentialMetadata;
use codex_desktop::credential::files::FileRead;
use codex_desktop::credential::store::{CredentialStore, Stored};
use codex_desktop::product_config::ProductConfig;
use codex_desktop::system_compatibility::{
    current_macos_version, ensure_supported, message_is_unsupported_os_version,
    unsupported_os_version, validate_version, ERROR_CODE_UNSUPPORTED_OS_VERSION,
};
use codex_desktop::text_map::TextMap;
use codex_desktop::user_environment::{read_codex_home, restore_codex_home};

#[test]
fn compares_numeric_system_versions_without_string_ordering() {
    ensure_supported("macOS", "14.10", "14.2", "ChatGPT/Codex").unwrap();
    ensure_supported("Windows", "10.0.26100", "10.0.19041.0", "ChatGPT/Codex").unwrap();
    ensure_supported("macOS", "14", "14.0", "ChatGPT/Codex").unwrap();
}

#[test]
fn unsupported_version_is_typed_and_non_retryable_by_callers() {
    let error = ensure_supported("macOS", "12.2.1", "14.0", "ChatGPT/Codex").unwrap_err();
    let unsupported = unsupported_os_version(&error).unwrap();

    assert_eq!(unsupported.platform(), "macOS");
    assert_eq!(unsupported.current_version(), "12.2.1");
    assert_eq!(unsupported.minimum_version(), "14.0");
    assert_eq!(unsupported.application(), "ChatGPT/Codex");
    assert!(error.message().contains(ERROR_CODE_UNSUPPORTED_OS_VERSION));
    assert_eq!(
        error.message(),
        "UNSUPPORTED_OS_VERSION: 当前 macOS 12.2.1 低于 ChatGPT/Codex 要求的最低系统版本 14.0，请先升级操作系统"
    );
    assert!(message_is_unsupported_os_version(&error.message()));
}

#[test]
fn malformed_versions_fail_closed() {
    assert!(ensure_supported("macOS", "14.0 beta", "14.0", "ChatGPT/Codex").is_err());
    assert!(ensure_supported("macOS", "14.0", "", "ChatGPT/Codex").is_err());
}

#[test]
fn versions_are_numbers_with_dots() {
    assert!(validate_version(" 14.0 ").is_ok());
    assert_eq!(validate_version(" ").unwrap_err().message(), "系统版本不能为空");
    assert_eq!(validate_version("14..1").unwrap_err().message(), "系统版本格式无效：14..1");
    assert_eq!(validate_version("+14").unwrap_err().message(), "系统版本格式无效：+14");
    assert!(validate_version("18446744073709551615").is_ok());
    assert!(validate_version("18446744073709551616").is_err());
    assert!(ensure_supported("x", "1.2", "1.2.0.1", "y").is_err());
    assert!(ensure_supported("x", "2", "1.99.99", "y").is_ok());
    let error = ensure_supported("x", "bad", "1", "y").unwrap_err();
    assert!(unsupported_os_version(&error).is_none());
}

#[test]
fn the_version_of_macos_is_read_from_its_command() {
    assert_eq!(current_macos_version(true, "14.5\n", "").unwrap(), "14.5");
    assert_eq!(
        current_macos_version(false, "14.5", " denied \n").unwrap_err().message(),
        "读取当前 macOS 版本失败：denied"
    );
    assert!(current_macos_version(true, "beta", "").is_err());
}

#[test]
fn identifies_connector_private_environment_without_hiding_normal_user_environment() {
    assert!(is_connector_private_environment("CODEX_HOME"));
    assert!(is_connector_private_environment("BAIJIMU_LOCAL_APP_EVENT_TOKEN_FILE"));
    assert!(is_connector_private_environment("CODEX_CONNECTOR_PORT"));
    assert!(!is_connector_private_environment("PATH"));
    assert!(!is_connector_private_environment("HTTPS_PROXY"));
    assert!(!is_connector_private_environment("OPENAI_API_KEY"));
    assert!(is_connector_private_environment("codex_home"));
    assert!(!is_connector_private_environment("CODEX_HOME_2"));
}

#[test]
fn child_processes_lose_only_private_variables() {
    let names = vec![
        "PATH".to_string(),
        "baijimu_x".to_string(),
        "HOME".to_string(),
        "CODEX_HOME".to_string(),
    ];
    assert_eq!(isolate_from_connector_environment(&names), vec!["baijimu_x", "CODEX_HOME"]);
}

fn path(text: &str) -> CodexPath {
    let mut components = vec!["/".to_string()];
    for piece in text.split('/') {
        if !piece.is_empty() {
            components.push(piece.to_string());
        }
    }
    CodexPath { text: text.to_string(), components }
}

#[test]
fn explicit_restore_updates_and_reads_back_the_original_value() {
    let managed = path("/tmp/baijimu-managed-codex-home");
    let original = Some(path("/tmp/user-original-codex-home"));
    let restored =
        restore_codex_home(&original, Some(managed), Some(path("/tmp/user-original-codex-home")))
            .unwrap();
    assert_eq!(restored.previous.unwrap().text, "/tmp/baijimu-managed-codex-home");
    assert_eq!(restored.current.unwrap().text, "/tmp/user-original-codex-home");
    assert!(!restored.environment_broadcast);
}

#[test]
fn a_setting_that_reads_differently_is_an_error() {
    let error = restore_codex_home(&None, None, Some(path("/tmp/other"))).unwrap_err();
    assert_eq!(
        error.message(),
        "恢复用户级 CODEX_HOME 后回读不一致：期望 <unset>，实际 /tmp/other"
    );
    assert!(restore_codex_home(&None, Some(path("/a")), None).is_ok());
}

#[test]
fn blank_settings_in_the_registry_are_none() {
    let blank = CodexPath { text: "  ".to_string(), components: vec!["  ".to_string()] };
    assert!(read_codex_home(Some(blank), true).is_none());
    let blank = CodexPath { text: "  ".to_string(), components: vec!["  ".to_string()] };
    assert!(read_codex_home(Some(blank), false).is_some());
    assert!(read_codex_home(None, true).is_none());
    let restored = restore_codex_home(&Some(path("/a/b")), None, Some(path("/a//b/")));
    assert!(restored.is_ok());
}

fn args(list: &[&str]) -> Vec<String> {
    list.iter().map(|item| item.to_string()).collect()
}

#[test]
fn command_lines_are_understood() {
    assert!(matches!(run(&args(&[]), &None, &None).unwrap(), CliCommand::Help));
    assert!(matches!(run(&args(&[""]), &None, &None).unwrap(), CliCommand::Help));
    assert!(matches!(run(&args(&["status"]), &None, &None).unwrap(), CliCommand::Status));
    assert!(matches!(
        run(&args(&["credential-state"]), &None, &None).unwrap(),
        CliCommand::CredentialState
    ));
    assert!(matches!(
        run(&args(&["start", "--version"]), &None, &None).unwrap(),
        CliCommand::Version
    ));
    match run(&args(&["start", "--port=9", "ignored", "--host", "::1", "--daemon"]), &None, &None)
        .unwrap()
    {
        CliCommand::Start(options) => {
            assert_eq!(options.host, "::1");
            assert_eq!(options.port, 9);
            assert!(options.daemon);
        }
        _ => panic!("the server is to be started"),
    }
    assert_eq!(
        run(&args(&["dance"]), &None, &None).unwrap_err().message(),
        "unknown command: dance"
    );
    assert_eq!(
        run(&args(&["stop", "--host"]), &None, &None).unwrap_err().message(),
        "missing value for --host"
    );
}

#[test]
fn options_come_from_the_command_line_then_the_environment_then_the_default() {
    let parsed = parse_args(&args(&["start"])).unwrap();
    let options = server_options(&parsed, &None, &None);
    assert_eq!(options.host, "127.0.0.1");
    assert_eq!(options.port, 18110);
    assert!(!options.daemon);
    let env_host = Some("0.0.0.0".to_string());
    let env_port = Some("+80".to_string());
    let options = server_options(&parsed, &env_host, &env_port);
    assert_eq!(options.host, "0.0.0.0");
    assert_eq!(options.port, 80);
    let parsed = parse_args(&args(&["start", "--port", "70000", "--host=h=1"])).unwrap();
    let options = server_options(&parsed, &env_host, &env_port);
    assert_eq!(options.host, "h=1");
    assert_eq!(options.port, 80);
    let parsed = parse_args(&args(&["start", "--port=1", "--port=2"])).unwrap();
    assert_eq!(server_options(&parsed, &None, &None).port, 2);
}

#[test]
fn option_names_are_turned_into_one_word() {
    assert_eq!(to_camel_case("port"), "port");
    assert_eq!(to_camel_case("data-dir-name"), "dataDirName");
}

fn output(success: bool, stderr: &str) -> CommandOutput {
    CommandOutput {
        success,
        status: "exit status: 1".to_string(),
        stdout: String::new(),
        stderr: stderr.to_string(),
    }
}

#[test]
fn cleanup_script_only_removes_the_exact_legacy_rules() {
    let script = REVOKE_LEGACY_SHARED_AUTH_ACL_SCRIPT;
    assert!(script.contains("RemoveAccessRuleSpecific"));
    assert!(script.contains("ReadAndExecute"));
    assert!(script.contains("ContainerInherit"));
    assert!(script.contains("ObjectInherit"));
    assert!(!script.contains("AddAccessRule"));
    assert!(!script.contains("SetAccessRule"));
    let command = cleanup_command("C:\\auth.json", &vec!["C:\\a".to_string(), "b\"".to_string()]);
    assert_eq!(command.arguments.last().map(|text| text.as_str()), Some(script));
    assert_eq!(command.arguments.len(), 7);
    assert_eq!(command.variables[0].name, "CODEX_DESKTOP_LEGACY_AUTH_FILE");
    assert_eq!(command.variables[0].value, "C:\\auth.json");
    assert_eq!(command.variables[1].name, "CODEX_DESKTOP_MANAGED_HOMES_JSON");
    assert_eq!(command.variables[1].value, "[\"C:\\\\a\",\"b\\\"\"]");
    assert_eq!(cleanup_failure(&output(true, "x")), None);
    assert_eq!(
        cleanup_failure(&output(false, " denied ")).as_deref(),
        Some("回收旧版 Codex 沙箱全局授权失败：denied")
    );
}

#[test]
fn rules_are_taken_back_once() {
    let product = ProductConfig {
        schema_version: 2,
        default_model: "m".to_string(),
        router_provider: "p".to_string(),
        router_base_url: "https://r".to_string(),
        windows_desktop_protocol: "codex".to_string(),
        windows_desktop_trusted_publishers: vec!["x".to_string()],
    };
    let mut store = CredentialStore {
        shared_home: path("/u/.codex"),
        external_home: None,
        managed_root: path("/u/m"),
        legacy_managed_root: path("/u/l"),
        metadata: Stored::Value(CredentialMetadata { version: 5, ..CredentialMetadata::new() }),
        legacy_metadata: Stored::Missing,
        shared_auth: FileRead::Missing,
        shared_config: FileRead::Missing,
        ownership: Stored::Missing,
        reservation: false,
        profile_auth: TextMap::new(),
        profile_config: TextMap::new(),
        legacy_profile_auth: TextMap::new(),
        previous_homes: TextMap::new(),
        journal: Vec::new(),
    };
    assert!(legacy_shared_auth_acl_cleanup_required(&mut store, &product).unwrap());
    record_legacy_shared_auth_acl_cleanup(&mut store, &product, 77).unwrap();
    assert!(!legacy_shared_auth_acl_cleanup_required(&mut store, &product).unwrap());
    match &store.metadata {
        Stored::Value(metadata) => {
            assert_eq!(metadata.legacy_shared_auth_acl_revoked_at_epoch_seconds, Some(77));
        }
        _ => panic!("the record is there"),
    }
}
