use base64::engine::general_purpose::STANDARD;
use base64::Engine;
use codex_desktop::codex_path::CodexPath;
use codex_desktop::credential::contract::{
    AuthMode, AuthProfileKind, CredentialProfile, PreparedWorkspaceProfile,
};
use codex_desktop::duplicate::Duplicate;
use codex_desktop::product_config::ProductConfig;
use codex_desktop::setup::contract::{
    InstallerResultEnvelope, InstallerStatus, InstallerStepState, MacosInstallerResult,
};
use codex_desktop::setup::macos::{
    download_failure, is_app_path, read_app_metadata, read_indexed_metadata, without_result,
    MacosAction, MacosEvent, MacosInstaller,
};
use codex_desktop::setup::manifest::{
    validate_asset_file_name, ArtifactHostRequirementsV4, CodexDesktopComponentV4,
    UpstreamAssetV4, UpstreamComponentsV4, UpstreamManifestV4, UpstreamReleaseV4,
};
use codex_desktop::setup::powershell::{
    install_arguments, powershell_encoded_command, windows_install_script_bytes,
    WINDOWS_INSTALL_WRAPPER,
};
use codex_desktop::setup::process::ProcessEnd;
use codex_desktop::setup::router::{
    probe_answered, probe_unanswered, responses_endpoint, verify_models_with, ProbeFailure,
    ProbeOutcome, RouteProgress, RouteVerification,
};
use codex_desktop::setup::source::{embedded_source, manifest_url, UpstreamArtifactSourceV2};
use codex_desktop::setup::windows::{
    windows_install_environment, windows_install_removed_variables, InstallerRun, WindowsAction,
    WindowsEvent, WindowsInstaller,
};
use codex_desktop::setup::{
    classify_setup_failure, compact_error, recover_persisted_status, SetupCompletion, SetupFailure,
    SetupManager, SetupStart, SetupStatus, CONNECTOR_VERSION, ERROR_CODE_FAILED,
    ERROR_CODE_INTERRUPTED, ERROR_CODE_RETRY_AFTER_UPGRADE, SETUP_STATUS_SCHEMA_VERSION,
};
use codex_desktop::system_compatibility::{ensure_supported, ERROR_CODE_UNSUPPORTED_OS_VERSION};

fn persisted_status(status: &str, connector_version: Option<&str>) -> SetupStatus {
    SetupStatus {
        schema_version: 1,
        connector_version: connector_version.map(str::to_string),
        status: status.to_string(),
        workspace_id: Some(1197),
        message: "历史初始化状态".to_string(),
        error: Some("历史安装错误".to_string()),
        started_at_epoch_seconds: Some(100),
        completed_at_epoch_seconds: Some(200),
        ..SetupStatus::default()
    }
}

#[test]
fn interrupted_install_becomes_retryable_without_replaying_the_old_error() {
    let (recovered, changed) =
        recover_persisted_status(persisted_status("running", Some(CONNECTOR_VERSION)), 1000);

    assert!(changed);
    assert_eq!(recovered.status, "interrupted");
    assert_eq!(recovered.error, None);
    assert_eq!(recovered.last_error.as_deref(), Some("历史安装错误"));
    assert_eq!(recovered.error_code.as_deref(), Some(ERROR_CODE_INTERRUPTED));
    assert!(recovered.retryable);
    assert_eq!(recovered.automatic_retry_count, 1);
    assert_eq!(recovered.schema_version, SETUP_STATUS_SCHEMA_VERSION);
    assert!(recovered.completed_at_epoch_seconds.unwrap_or_default() >= 200);
}

#[test]
fn failed_status_from_an_older_connector_requires_fresh_verification() {
    let (recovered, changed) =
        recover_persisted_status(persisted_status("failed", Some("1.2.27")), 1000);

    assert!(changed);
    assert_eq!(recovered.status, "needs_retry");
    assert_eq!(recovered.error, None);
    assert_eq!(recovered.last_error.as_deref(), Some("历史安装错误"));
    assert_eq!(recovered.error_code.as_deref(), Some(ERROR_CODE_RETRY_AFTER_UPGRADE));
    assert!(recovered.retryable);
    assert!(recovered.message.contains("1.2.27"));
}

#[test]
fn current_connector_failure_is_not_rewritten_on_restart() {
    let original = persisted_status("failed", Some(CONNECTOR_VERSION));
    let (recovered, changed) = recover_persisted_status(original.duplicate(), 1000);

    assert!(!changed);
    assert_eq!(recovered.status, original.status);
    assert_eq!(recovered.error, original.error);
    assert_eq!(recovered.completed_at_epoch_seconds, Some(200));
}

#[test]
fn recovering_twice_is_recovering_once() {
    let (once, _) = recover_persisted_status(persisted_status("running", None), 1000);
    let (twice, changed) = recover_persisted_status(once.duplicate(), 2000);
    assert!(!changed);
    assert_eq!(twice.status, "interrupted");
    assert_eq!(twice.completed_at_epoch_seconds, Some(1000));
    assert_eq!(twice.automatic_retry_count, 1);
    let (unknown, _) = recover_persisted_status(persisted_status("failed", Some(" ")), 1);
    assert_eq!(
        unknown.message,
        "检测到 旧版本 留下的初始化失败记录，当前版本将重新验证"
    );
    let mut often = persisted_status("running", None);
    often.automatic_retry_count = u32::MAX;
    assert_eq!(recover_persisted_status(often, 1).0.automatic_retry_count, u32::MAX);
}

#[test]
fn desktop_auto_launch_failure_keeps_setup_successful_and_requires_manual_open() {
    let outcome = SetupCompletion::from_desktop_launch(Err(
        "operating system rejected automatic launch".to_string(),
    ));

    assert!(matches!(&outcome, SetupCompletion::Warning(_)));
    assert!(outcome.message().contains("已完成安装配置"));
    assert!(outcome.message().contains("桌面窗口的校验未通过"));
    assert!(outcome.message().contains("手动找到并打开 ChatGPT"));
    assert!(outcome
        .warning()
        .is_some_and(|warning| warning.contains("operating system rejected automatic launch")));
}

#[test]
fn unsupported_os_setup_failure_has_a_stable_non_retryable_code() {
    let error = ensure_supported("macOS", "12.2.1", "14.0", "ChatGPT/Codex").unwrap_err();
    let classification = classify_setup_failure(&SetupFailure::from_compatibility(&error));

    assert_eq!(classification.error_code, ERROR_CODE_UNSUPPORTED_OS_VERSION);
    assert!(!classification.retryable);
    assert!(classification.message.contains("系统版本不支持"));
}

#[test]
fn windows_installer_marker_maps_to_the_same_unsupported_os_code() {
    let error = SetupFailure::from_message(
        "官方安装脚本执行失败: UNSUPPORTED_OS_VERSION: current Windows is too old",
    );
    let classification = classify_setup_failure(&error);

    assert_eq!(classification.error_code, ERROR_CODE_UNSUPPORTED_OS_VERSION);
    assert!(!classification.retryable);
}

#[test]
fn other_failures_may_be_tried_again() {
    let classification = classify_setup_failure(&SetupFailure::from_message("disk full"));
    assert_eq!(classification.error_code, ERROR_CODE_FAILED);
    assert_eq!(classification.message, "Codex 应用初始化失败");
    assert!(classification.retryable);
}

#[test]
fn successful_desktop_auto_launch_reports_the_opened_workspace() {
    let outcome = SetupCompletion::from_desktop_launch(Ok(()));

    assert!(matches!(outcome, SetupCompletion::Verified));
    assert!(outcome.message().contains("已确认当前工作区桌面窗口打开"));
    assert_eq!(outcome.warning(), None);
    assert!(SetupCompletion::completed_without_desktop_launch()
        .message()
        .contains("未自动切换或打开工作区应用"));
}

#[test]
fn powershell_wrapper_is_encoded_as_utf16le_and_forces_utf8_output() {
    let encoded = powershell_encoded_command(WINDOWS_INSTALL_WRAPPER);
    let bytes = STANDARD.decode(encoded).unwrap();
    let units = bytes
        .chunks_exact(2)
        .map(|chunk| u16::from_le_bytes([chunk[0], chunk[1]]))
        .collect::<Vec<_>>();
    let decoded = String::from_utf16(&units).unwrap();

    assert_eq!(decoded, WINDOWS_INSTALL_WRAPPER);
    assert!(decoded.contains("[Console]::OutputEncoding"));
    assert!(decoded.contains("$OutputEncoding = [Console]::OutputEncoding"));
    assert!(decoded.contains("& $env:CODEX_CONNECTOR_INSTALL_SCRIPT_PATH"));
}

#[test]
fn scripts_are_encoded_with_padding_and_surrogates() {
    assert_eq!(powershell_encoded_command(""), "");
    assert_eq!(powershell_encoded_command("a"), "YQA=");
    assert_eq!(powershell_encoded_command("ab"), "YQBiAA==");
    assert_eq!(powershell_encoded_command("abc"), "YQBiAGMA");
    let emoji = STANDARD.decode(powershell_encoded_command("路\u{1F600}")).unwrap();
    assert_eq!(emoji, vec![0xef, 0x8d, 0x3d, 0xd8, 0x00, 0xde]);
    let arguments = install_arguments();
    assert_eq!(arguments[6], "-EncodedCommand");
    assert_eq!(arguments[7], powershell_encoded_command(WINDOWS_INSTALL_WRAPPER));
}

#[test]
fn windows_installer_is_written_as_utf8_with_bom_for_powershell_5() {
    let source = "$ErrorActionPreference = 'Stop'\n# 检查 ChatGPT 桌面应用\n".as_bytes().to_vec();
    let script = windows_install_script_bytes(&source);
    assert!(script.starts_with(&[0xef, 0xbb, 0xbf]));
    let source = std::str::from_utf8(&script[3..]).unwrap();
    assert!(source.starts_with("$ErrorActionPreference"));
    assert!(source.contains("检查 ChatGPT 桌面应用"));
}

fn macos_status() -> InstallerStatus {
    InstallerStatus::macos(
        "2026-08-14T00:00:00Z".to_string(),
        "/tmp/status.json".to_string(),
        "/tmp/result.json".to_string(),
    )
}

#[test]
fn typed_progress_updates_only_the_requested_step() {
    let mut status = macos_status();
    status
        .update_step(
            3,
            InstallerStepState::Running,
            "正在下载",
            Some(123),
            Some(1_000),
            "2026-08-14T00:00:01Z".to_string(),
        )
        .unwrap();

    assert_eq!(status.current_step, 3);
    assert_eq!(status.steps[2].detail, "正在下载");
    assert_eq!(status.steps[2].downloaded_bytes, Some(123));
    assert_eq!(status.steps[2].total_bytes, Some(1_000));
    assert_eq!(status.steps[6].detail, "");
    assert_eq!(status.steps[6].state, InstallerStepState::Pending);
}

#[test]
fn typed_progress_rejects_unknown_steps() {
    let mut status = macos_status();
    let error = status
        .update_step(
            8,
            InstallerStepState::Running,
            "invalid",
            None,
            None,
            "2026-08-14T00:00:01Z".to_string(),
        )
        .unwrap_err();
    assert_eq!(error.index, 8);
    assert_eq!(error.step_count, 7);
    assert_eq!(error.message(), "安装步骤 8 超出有效范围 1..=7");
    assert!(status
        .update_step(0, InstallerStepState::Running, "x", None, None, "t".to_string())
        .is_err());
}

#[test]
fn open_steps_are_ended_together() {
    let mut status = macos_status();
    status
        .update_step(2, InstallerStepState::Failed, "x", None, None, "t".to_string())
        .unwrap();
    status.complete_pending(InstallerStepState::Skipped, "安装已停止", "u".to_string());
    assert_eq!(status.steps[0].state, InstallerStepState::Skipped);
    assert_eq!(status.steps[1].state, InstallerStepState::Failed);
    assert_eq!(status.steps[6].detail, "安装已停止");
    assert_eq!(status.updated_at, "u");
    let result = MacosInstallerResult::pending(
        "t".to_string(),
        "/home".to_string(),
        642,
        "gpt-5.5".to_string(),
    );
    assert!(!result.ok && result.errors.is_empty() && result.workspace_id == 642);
}

fn asset() -> UpstreamAssetV4 {
    UpstreamAssetV4 {
        name: "codex-app.dmg".to_string(),
        component: "codex_desktop_app".to_string(),
        platform: "macos".to_string(),
        arch: "aarch64".to_string(),
        source_kind: "release".to_string(),
        upstream_url: "https://example.com/codex-app.dmg".to_string(),
        effective_upstream_url: "https://example.com/codex-app.dmg".to_string(),
        upstream_sha256: "ab".to_string(),
        signature_verification: Some("verified".to_string()),
        install_layout: None,
        host_requirements: Some(ArtifactHostRequirementsV4 {
            minimum_os_version: "14.0".to_string(),
        }),
        deprecated: false,
        mirror_url: "https://mirror.example.com/codex-app.dmg".to_string(),
        object_key: "codex-app.dmg".to_string(),
        sha256: "ab".to_string(),
        size: 10,
        size_bytes: 10,
        content_type: "application/x-apple-diskimage".to_string(),
    }
}

fn manifest() -> UpstreamManifestV4 {
    UpstreamManifestV4 {
        schema_version: 4,
        manifest_kind: "baijimu.codex.customer-install-artifacts".to_string(),
        source: "mirror".to_string(),
        snapshot_id: "snapshot-1".to_string(),
        fetched_at: "2026-08-14T00:00:00Z".to_string(),
        components: UpstreamComponentsV4 {
            codex_desktop_app: CodexDesktopComponentV4 {
                source: "openai".to_string(),
                version_identity: "1.0".to_string(),
            },
        },
        upstream_release: UpstreamReleaseV4 {
            tag_name: "v1".to_string(),
            name: "one".to_string(),
            published_at: "2026-08-13T00:00:00Z".to_string(),
            html_url: "https://example.com".to_string(),
        },
        required_assets: vec!["codex-app.dmg".to_string()],
        assets: vec![asset()],
    }
}

#[test]
fn desktop_manifest_is_deserialized_into_a_closed_contract() {
    let manifest = manifest();
    manifest.validate().unwrap();
    assert_eq!(manifest.assets.len(), 1);
    assert_eq!(manifest.assets[0].component, "codex_desktop_app");
}

#[test]
fn desktop_manifest_rejects_cli_assets() {
    let mut manifest = manifest();
    manifest.assets.push(UpstreamAssetV4 {
        name: "codex-cli.tar.gz".to_string(),
        component: "codex_cli".to_string(),
        ..asset()
    });
    let result = manifest.validate();

    assert!(result.is_err());
}

#[test]
fn desktop_assets_require_a_numeric_minimum_os_version() {
    let mut manifest = manifest();
    manifest.assets.truncate(1);
    manifest.required_assets = vec![manifest.assets[0].name.clone()];
    manifest.assets[0].host_requirements = None;
    assert!(manifest.validate().is_err());

    manifest.assets[0].host_requirements = Some(ArtifactHostRequirementsV4 {
        minimum_os_version: "14 beta".to_string(),
    });
    assert!(manifest.validate().is_err());
}

#[test]
fn desktop_manifest_rejects_unknown_asset_components() {
    let mut manifest = manifest();
    manifest.assets[0].component = "unknown".to_string();

    assert!(manifest.validate().is_err());
}

#[test]
fn asset_file_names_cannot_escape_the_installer_workspace() {
    assert!(validate_asset_file_name("codex-app.dmg").is_ok());
    assert!(validate_asset_file_name("../codex-app.dmg").is_err());
    assert!(validate_asset_file_name("nested/codex-app.dmg").is_err());
    assert!(validate_asset_file_name("/codex-app.dmg").is_err());
    assert!(validate_asset_file_name("./codex-app.dmg").is_err());
    assert!(validate_asset_file_name("").is_err());
    assert!(validate_asset_file_name(".").is_err());
    assert!(validate_asset_file_name("..").is_err());
    assert!(validate_asset_file_name("codex-app.dmg/").is_ok());
    assert!(validate_asset_file_name("codex-app.dmg/.").is_ok());
}

#[test]
fn every_fault_of_a_manifest_is_named() {
    let message = |change: fn(&mut UpstreamManifestV4)| {
        let mut changed = manifest();
        change(&mut changed);
        changed.validate().unwrap_err().message()
    };
    assert_eq!(message(|m| m.schema_version = 3), "不支持的百积木安装包清单版本：3");
    assert_eq!(
        message(|m| m.manifest_kind = "other".to_string()),
        "百积木安装包清单类型无效：other"
    );
    let identity = "百积木安装包清单缺少必需的版本身份信息";
    assert_eq!(message(|m| m.snapshot_id = " ".to_string()), identity);
    assert_eq!(message(|m| m.assets.clear()), identity);
    assert_eq!(
        message(|m| m.assets[0].name = "../x".to_string()),
        "安装包清单包含无效文件名：../x"
    );
    assert_eq!(
        message(|m| m.assets[0].size = 0),
        "百积木安装包清单包含无效制品记录：codex-app.dmg"
    );
    assert_eq!(
        message(|m| m.assets[0].install_layout = Some(" ".to_string())),
        "百积木安装包清单包含无效制品记录：codex-app.dmg"
    );
    assert_eq!(
        message(|m| {
            let again = m.assets[0].duplicate();
            m.assets.push(again);
        }),
        "百积木安装包清单包含重复制品：codex-app.dmg"
    );
    assert_eq!(
        message(|m| m.required_assets.push("other.dmg".to_string())),
        "百积木安装包清单缺少必需制品：other.dmg"
    );
}

#[test]
fn one_package_fits_the_machine() {
    let mut list = manifest();
    assert_eq!(list.select_asset("codex_desktop_app", "aarch64").unwrap().name, "codex-app.dmg");
    assert_eq!(
        list.select_asset("codex_desktop_app", "x86_64").err().unwrap().message(),
        "百积木缓存不包含 macOS x86_64 的 codex_desktop_app 制品"
    );
    list.assets.push(UpstreamAssetV4 { name: "second.dmg".to_string(), ..asset() });
    assert_eq!(
        list.select_asset("codex_desktop_app", "aarch64").err().unwrap().message(),
        "百积木缓存包含多个 macOS aarch64 的 codex_desktop_app 活动制品"
    );
    list.assets[0].deprecated = true;
    assert_eq!(list.select_asset("codex_desktop_app", "aarch64").unwrap().name, "second.dmg");
    assert!(asset().ensure_current_macos_supported("14.1").is_ok());
    assert!(asset().ensure_current_macos_supported("13.9").is_err());
}

fn transient(message: &str) -> ProbeOutcome {
    ProbeOutcome::Failed(ProbeFailure {
        message: message.to_string(),
        http_status: None,
        retryable: true,
        try_next_model: false,
    })
}

fn verify(
    models: &[&str],
    max_attempts: u32,
    mut probe: impl FnMut(&str) -> ProbeOutcome,
    mut sleep: impl FnMut(u32),
) -> RouteVerification {
    let models: Vec<String> = models.iter().map(|model| model.to_string()).collect();
    let mut outcomes = Vec::new();
    loop {
        match verify_models_with(&models, max_attempts, &outcomes) {
            RouteProgress::Probe { model, pause, .. } => {
                if let Some(seconds) = pause {
                    sleep(seconds);
                }
                outcomes.push(probe(&models[model]));
            }
            RouteProgress::Finished(verification) => return verification,
        }
    }
}

#[test]
fn transient_route_failures_are_retried_until_the_probe_passes() {
    let mut calls = 0;
    let mut delays = Vec::new();
    let result = verify(
        &["catalog-model"],
        3,
        |_| {
            calls += 1;
            if calls < 3 {
                transient("temporary timeout")
            } else {
                ProbeOutcome::Passed(200)
            }
        },
        |attempt| delays.push(attempt),
    );

    assert!(result.passed());
    assert_eq!(result.attempts(), 3);
    assert_eq!(result.http_status, Some(200));
    assert_eq!(delays, vec![1, 2]);
}

#[test]
fn authorization_failures_are_not_retried() {
    let mut calls = 0;
    let result = verify(
        &["catalog-model"],
        3,
        |_| {
            calls += 1;
            ProbeOutcome::Failed(ProbeFailure {
                message: "HTTP 401".to_string(),
                http_status: Some(401),
                retryable: false,
                try_next_model: false,
            })
        },
        |_| panic!("a permanent failure must not sleep"),
    );

    assert!(!result.passed());
    assert_eq!(calls, 1);
    assert_eq!(result.attempts(), 1);
    assert_eq!(result.http_status, Some(401));
}

#[test]
fn the_last_transient_error_is_reported_after_all_attempts() {
    let mut calls = 0;
    let result = verify(
        &["catalog-model"],
        3,
        |_| {
            calls += 1;
            transient(&format!("timeout {calls}"))
        },
        |_| {},
    );

    assert!(!result.passed());
    assert_eq!(result.attempts(), 3);
    assert_eq!(result.failure_message(), Some("timeout 3"));
}

#[test]
fn unsupported_catalog_model_falls_through_to_the_next_model() {
    let mut models = Vec::new();
    let result = verify(
        &["retired-model", "supported-model"],
        3,
        |model| {
            models.push(model.to_string());
            if model == "retired-model" {
                ProbeOutcome::Failed(ProbeFailure {
                    message: "HTTP 400".to_string(),
                    http_status: Some(400),
                    retryable: false,
                    try_next_model: true,
                })
            } else {
                ProbeOutcome::Passed(200)
            }
        },
        |_| panic!("model fallback must not sleep"),
    );

    assert!(result.passed());
    assert_eq!(result.attempts(), 2);
    assert_eq!(models, ["retired-model", "supported-model"]);
}

#[test]
fn when_no_model_is_to_be_had_the_last_one_is_reported() {
    let result = verify(&["a", "b"], 3, |_| probe_answered(404), |_| {});
    assert!(!result.passed());
    assert_eq!(result.attempts(), 2);
    assert_eq!(result.http_status, Some(404));
    let busy = verify(&["a", "b"], 2, |_| probe_answered(503), |_| {});
    assert_eq!(busy.attempts(), 2);
    assert_eq!(busy.failure_message(), Some("路由 /responses 健康检查失败：HTTP 503"));
}

#[test]
fn answers_of_the_router_are_told_apart() {
    assert!(matches!(probe_answered(200), ProbeOutcome::Passed(200)));
    for (status, retryable, next) in
        [(201, false, false), (408, true, false), (425, true, false), (429, true, false), (500, true, false), (599, true, false), (600, false, false), (400, false, true), (404, false, true), (422, false, true), (401, false, false)]
    {
        match probe_answered(status) {
            ProbeOutcome::Failed(failure) => {
                assert_eq!(failure.retryable, retryable, "{status}");
                assert_eq!(failure.try_next_model, next, "{status}");
                assert_eq!(failure.http_status, Some(status));
            }
            ProbeOutcome::Passed(_) => panic!("only one status passes"),
        }
    }
    match probe_unanswered("reset", false, true, false) {
        ProbeOutcome::Failed(failure) => {
            assert!(failure.retryable);
            assert_eq!(failure.message, "路由 /responses 健康检查请求失败：reset");
        }
        ProbeOutcome::Passed(_) => panic!("there was no answer"),
    }
    assert_eq!(responses_endpoint("https://r/v1//"), "https://r/v1/responses");
    assert_eq!(responses_endpoint("https://r/v1"), "https://r/v1/responses");
    let unasked = RouteVerification::without_client("no tls");
    assert_eq!(unasked.attempts(), 0);
    assert_eq!(unasked.failure_message(), Some("创建百积木路由验证客户端失败：no tls"));
}

#[test]
fn embedded_source_is_a_closed_versioned_contract() {
    assert_eq!(
        manifest_url(&embedded_source()).unwrap(),
        "https://download.baijimu.com/codex-artifacts/v4/latest.json"
    );
    let source = |version: u32, url: &str| UpstreamArtifactSourceV2 {
        schema_version: version,
        manifest_url: url.to_string(),
    };
    assert_eq!(manifest_url(&source(2, " https://x/a.json ")).unwrap(), "https://x/a.json");
    assert_eq!(
        manifest_url(&source(3, "https://x/a.json")).unwrap_err().message(),
        "不支持的安装制品源配置版本：3"
    );
    for url in ["http://x/a.json", "https://x/a.xml"] {
        assert_eq!(
            manifest_url(&source(2, url)).unwrap_err().message(),
            "安装制品清单地址必须是 HTTPS JSON 地址"
        );
    }
}

#[test]
fn one_workspace_is_set_up_at_a_time() {
    let mut manager = SetupManager::load(None, 1);
    assert!(manager.unsaved);
    assert_eq!(manager.state(Some(macos_status())).status, "pending");
    assert!(manager.state(Some(macos_status())).installer_status.is_none());
    assert_eq!(
        manager.start(0, false, false, 7, 10).err().unwrap().message(),
        "workspaceId 必须是正整数"
    );
    let begun = match manager.start(642, false, false, 7, 10).unwrap() {
        SetupStart::Begun(status) => status,
        SetupStart::Unchanged(_) => panic!("nothing was running"),
    };
    assert_eq!(begun.status, "running");
    assert_eq!(
        begun.attempt_id.as_deref(),
        Some(format!("{CONNECTOR_VERSION}-7-10").as_str())
    );
    assert!(matches!(manager.start(642, true, false, 8, 11).unwrap(), SetupStart::Unchanged(_)));
    assert_eq!(
        manager.start(643, true, false, 8, 11).err().unwrap().message(),
        "另一个工作区的初始化正在进行"
    );
    manager.fail(&begun, &SetupFailure::from_message("a \n b"), 20);
    let failed = manager.state(Some(macos_status()));
    assert_eq!(failed.status, "failed");
    assert_eq!(failed.error.as_deref(), Some("a b"));
    assert_eq!(failed.last_error.as_deref(), Some("a b"));
    assert_eq!(failed.attempt_id, begun.attempt_id);
    assert!(failed.retryable && failed.installer_status.is_some());
    manager.succeed(&begun, &SetupCompletion::Verified, 21);
    assert!(manager.asks_readiness(642, false));
    assert!(!manager.asks_readiness(642, true));
    assert!(matches!(manager.start(642, false, true, 8, 30).unwrap(), SetupStart::Unchanged(_)));
    assert!(matches!(manager.start(642, false, false, 8, 30).unwrap(), SetupStart::Begun(_)));
}

#[test]
fn a_forced_start_forgets_interruptions() {
    let mut interrupted = persisted_status("running", Some(CONNECTOR_VERSION));
    interrupted.automatic_retry_count = 4;
    let mut manager = SetupManager::load(Some(interrupted), 5);
    assert!(manager.unsaved);
    match manager.start(1197, false, false, 1, 6).unwrap() {
        SetupStart::Begun(status) => assert_eq!(status.automatic_retry_count, 5),
        SetupStart::Unchanged(_) => panic!("an interrupted setup begins again"),
    }
    let mut manager = SetupManager::load(Some(persisted_status("failed", None)), 5);
    manager.status.automatic_retry_count = 4;
    match manager.start(1197, true, false, 1, 6).unwrap() {
        SetupStart::Begun(status) => assert_eq!(status.automatic_retry_count, 0),
        SetupStart::Unchanged(_) => panic!("a failed setup begins again"),
    }
    assert_eq!(SetupStatus::unavailable().error.as_deref(), Some("初始化状态锁异常"));
}

#[test]
fn long_errors_are_cut() {
    assert_eq!(compact_error(&"字".repeat(1200)).chars().count(), 1000);
    assert_eq!(compact_error("  a \t\n b  "), "a b");
}

fn path(text: &str) -> CodexPath {
    let mut components = vec!["/".to_string()];
    for piece in text.split('/') {
        if !piece.is_empty() {
            components.push(piece.to_string());
        }
    }
    CodexPath { text: text.to_string(), components }
}

fn prepared() -> PreparedWorkspaceProfile {
    PreparedWorkspaceProfile {
        profile: CredentialProfile {
            profile_id: "prod:workspace-642".to_string(),
            kind: AuthProfileKind::Baijimu,
            name: "研发".to_string(),
            environment: "prod".to_string(),
            user_id: None,
            client_id: None,
            workspace_id: 642,
            workspace_name: "研发".to_string(),
            model: "gpt-5.5".to_string(),
            activated_at_epoch_seconds: 0,
            codex_home: "/home/user/.codex".to_string(),
            credential_status: "verified".to_string(),
        },
        credential: "secret".to_string(),
    }
}

fn ended(success: bool, exit: Option<i64>, stderr: &str) -> ProcessEnd {
    ProcessEnd { success, exit, stderr: stderr.to_string() }
}

fn good_run() -> InstallerRun {
    InstallerRun {
        end: ended(true, Some(0), ""),
        result: Some(InstallerResultEnvelope { ok: true, errors: Vec::new() }),
        result_path: "C:\\result.json".to_string(),
    }
}

fn to_installer() -> WindowsInstaller {
    let (installer, action) = WindowsInstaller::start(642);
    assert!(matches!(action, WindowsAction::DecideActivation));
    let (installer, action) = installer.advance(WindowsEvent::ActivationDecided(true));
    assert!(matches!(action, WindowsAction::PrepareProfile(642)));
    let (installer, action) =
        installer.advance(WindowsEvent::ProfilePrepared(prepared(), path("/home/user/.codex")));
    assert!(matches!(action, WindowsAction::RunInstaller(run) if run.credential == "secret"));
    installer
}

#[test]
fn an_installation_on_windows_ends_with_the_open_application() {
    let (installer, action) = to_installer().advance(WindowsEvent::InstallerEnded(good_run()));
    assert!(matches!(action, WindowsAction::FinalizeSetup(profile, true) if profile.workspace_id == 642));
    let (installer, action) = installer.advance(WindowsEvent::SetupFinalized);
    assert!(matches!(action, WindowsAction::ReadState));
    let (installer, action) = installer.advance(WindowsEvent::StateRead(
        AuthMode::Baijimu,
        Some(642),
        path("/home/user/.codex/"),
    ));
    assert!(matches!(action, WindowsAction::RemoveFiles));
    let (installer, action) = installer.advance(WindowsEvent::FilesRemoved);
    assert!(matches!(action, WindowsAction::CheckReadiness(642)));
    let (installer, action) = installer.advance(WindowsEvent::ReadinessChecked(true));
    assert!(matches!(action, WindowsAction::LaunchDesktop(home) if home.text == "/home/user/.codex"));
    let (installer, action) = installer.advance(WindowsEvent::DesktopLaunched(None));
    assert!(matches!(action, WindowsAction::Finish(SetupCompletion::Verified)));
    let (_, action) = installer.advance(WindowsEvent::SetupFinalized);
    assert!(matches!(action, WindowsAction::Ignore));
}

#[test]
fn a_failed_script_on_windows_leaves_no_files() {
    let mut run = good_run();
    run.result = Some(InstallerResultEnvelope {
        ok: false,
        errors: vec!["first".to_string(), "second \n".to_string()],
    });
    let (installer, action) = to_installer().advance(WindowsEvent::InstallerEnded(run));
    assert!(matches!(action, WindowsAction::RemoveFiles));
    let (_, action) = installer.advance(WindowsEvent::FilesRemoved);
    assert!(matches!(action, WindowsAction::Fail(failure) if failure.message == "官方安装脚本执行失败: first；second"));
}

#[test]
fn a_script_without_a_result_tells_how_it_ended() {
    let mut run = good_run();
    run.result = None;
    run.end = ended(false, Some(-1), "");
    assert_eq!(
        run.check().unwrap().message,
        "安装脚本没有生成结果文件: C:\\result.json（exit=-1，stderr=<empty>）"
    );
    let mut run = good_run();
    run.result = None;
    run.end = ended(false, None, " boom\n");
    assert_eq!(
        run.check().unwrap().message,
        "安装脚本没有生成结果文件: C:\\result.json（exit=signal，stderr=boom）"
    );
    let mut run = good_run();
    run.end = ended(false, Some(3), "bad");
    assert_eq!(run.check().unwrap().message, "官方安装脚本执行失败: bad");
    assert!(good_run().check().is_none());
    assert_eq!(
        ended(false, Some(i64::MIN), "").show(),
        "（exit=-9223372036854775808，stderr=<empty>）"
    );
}

#[test]
fn an_unready_workspace_fails_the_installation_on_windows() {
    let (installer, _) = to_installer().advance(WindowsEvent::InstallerEnded(good_run()));
    let (installer, _) = installer.advance(WindowsEvent::SetupFinalized);
    let (installer, _) =
        installer.advance(WindowsEvent::StateRead(AuthMode::Chatgpt, None, path("/x")));
    let (installer, _) = installer.advance(WindowsEvent::FilesRemoved);
    let (_, action) = installer.advance(WindowsEvent::ReadinessChecked(false));
    assert!(matches!(action, WindowsAction::Fail(failure)
        if failure.message == "安装脚本执行成功，但独立工作区凭证归属回查失败"));
}

#[test]
fn a_workspace_that_is_not_in_effect_is_not_opened() {
    let (installer, _) = to_installer().advance(WindowsEvent::InstallerEnded(good_run()));
    let (installer, _) = installer.advance(WindowsEvent::SetupFinalized);
    let (installer, _) =
        installer.advance(WindowsEvent::StateRead(AuthMode::Baijimu, Some(1), path("/home/user/.codex")));
    let (installer, _) = installer.advance(WindowsEvent::FilesRemoved);
    let (_, action) = installer.advance(WindowsEvent::ReadinessChecked(true));
    assert!(matches!(action, WindowsAction::Finish(SetupCompletion::NotRequested)));
    let (installer, _) = WindowsInstaller::start(642);
    let (_, action) =
        installer.advance(WindowsEvent::Failed(SetupFailure::from_message("unreadable")));
    assert!(matches!(action, WindowsAction::Fail(failure) if failure.message == "unreadable"));
}

#[test]
fn the_script_is_told_where_the_credential_is_and_not_what() {
    let product = ProductConfig {
        schema_version: 2,
        default_model: "gpt-5.5".to_string(),
        router_provider: "baijimu-router".to_string(),
        router_base_url: "https://router".to_string(),
        windows_desktop_protocol: "codex".to_string(),
        windows_desktop_trusted_publishers: vec!["CN=A".to_string(), "CN=B".to_string()],
    };
    let variables = windows_install_environment(
        642,
        "https://x/a.json",
        "C:\\credential-1",
        "C:\\state",
        "zh-CN",
        &product,
        "C:\\home",
    );
    let shown: Vec<(String, String)> =
        variables.into_iter().map(|item| (item.name, item.value)).collect();
    assert_eq!(shown.len(), 9);
    assert_eq!(shown[0], ("CODEX_WORKSPACE_ID".to_string(), "642".to_string()));
    assert_eq!(
        shown[2],
        ("CODEX_LLM_CREDENTIAL_FILE".to_string(), "C:\\credential-1".to_string())
    );
    assert_eq!(
        shown[7],
        ("CODEX_DESKTOP_TRUSTED_PUBLISHERS".to_string(), "CN=A\nCN=B".to_string())
    );
    assert_eq!(shown[8], ("CODEX_HOME".to_string(), "C:\\home".to_string()));
    assert_eq!(
        windows_install_removed_variables(),
        vec!["CODEX_PROJECT_ID", "BAIJIMU_PROJECT_ID", "PROJECT_ID"]
    );
}

fn macos_start() -> MacosInstaller {
    let (installer, action) = MacosInstaller::start(
        642,
        "aarch64".to_string(),
        embedded_source(),
        "gpt-5.5".to_string(),
        "/state/status.json".to_string(),
        "/state/result.json".to_string(),
        "t0",
    );
    assert!(matches!(action, MacosAction::LocateApp));
    assert_eq!(installer.saves.len(), 2);
    assert_eq!(installer.saves[0].current_step, 0);
    assert_eq!(installer.saves[1].current_step, 1);
    installer
}

fn finish_profile(installer: MacosInstaller) -> MacosInstaller {
    let (installer, action) = installer.advance(MacosEvent::ActivationDecided(true), "t");
    assert!(matches!(action, MacosAction::InitializeProfile(642)));
    let (installer, action) = installer
        .advance(MacosEvent::ProfileReady(prepared(), path("/home/user/.codex")), "t");
    assert!(matches!(action, MacosAction::FinalizeSetup(_, true)));
    assert_eq!(installer.saves.len(), 3);
    assert_eq!(installer.result.codex_home, "/home/user/.codex");
    let (installer, action) = installer.advance(MacosEvent::SetupFinalized, "t");
    assert!(matches!(action, MacosAction::CheckReadiness(642)));
    let (installer, action) = installer.advance(MacosEvent::ReadinessChecked(true), "t");
    assert!(matches!(action, MacosAction::ReadState));
    installer
}

fn settled(status: &InstallerStatus) -> bool {
    status.steps.iter().all(|step| {
        step.state == InstallerStepState::Completed || step.state == InstallerStepState::Skipped
    })
}

#[test]
fn an_installed_application_on_macos_is_only_set_up() {
    let (installer, action) = macos_start()
        .advance(MacosEvent::AppLocated(Some("/Applications/ChatGPT.app".to_string())), "t1");
    assert!(matches!(action, MacosAction::CheckCompatibility(_)));
    let (installer, action) = installer.advance(MacosEvent::Compatible, "t2");
    assert!(matches!(action, MacosAction::InspectApp(_)));
    let (installer, action) = installer.advance(
        MacosEvent::AppInspected(true, "1.0".to_string(), "com.openai.chat".to_string()),
        "t3",
    );
    assert!(matches!(action, MacosAction::DecideActivation));
    assert_eq!(installer.saves.len(), 5);
    assert_eq!(installer.result.app_install_method, "already-installed");
    assert_eq!(installer.result.bundle_id, "com.openai.chat");
    let (installer, action) = finish_profile(installer).advance(
        MacosEvent::StateRead(AuthMode::Baijimu, Some(642), path("/home/user/.codex")),
        "t4",
    );
    assert!(matches!(action, MacosAction::LaunchDesktop(_)));
    let (installer, action) =
        installer.advance(MacosEvent::DesktopLaunched(Some("refused".to_string())), "t5");
    match action {
        MacosAction::Finish(done) => {
            assert_eq!(done.router_credential, "secret");
            assert!(done.completion.warning().is_some());
        }
        _ => panic!("a setup whose application did not open ends well"),
    }
    assert!(settled(&installer.status));
    assert!(installer.result.ok);
    assert_eq!(installer.result.warnings.len(), 1);
    let result = installer.into_result(1234);
    assert_eq!(result.elapsed_ms, 1234);
    assert!(result.ok && result.errors.is_empty());
}

fn to_download() -> MacosInstaller {
    let (installer, action) = macos_start().advance(MacosEvent::AppLocated(None), "t1");
    assert!(matches!(action, MacosAction::Download(request) if request.file_name == "latest.json"));
    let (installer, action) = installer.advance(MacosEvent::DownloadOpened(Some(7)), "t2");
    assert!(matches!(action, MacosAction::Receive(true)));
    assert_eq!(installer.status.steps[1].total_bytes, Some(7));
    let (installer, action) = installer.advance(MacosEvent::Received(7, 999), "t3");
    assert!(matches!(action, MacosAction::Receive(false)));
    assert!(installer.saves.is_empty());
    let (installer, action) = installer.advance(MacosEvent::DownloadClosed, "t4");
    assert!(matches!(action, MacosAction::ReadManifest));
    assert_eq!(installer.status.steps[1].downloaded_bytes, Some(7));
    installer
}

#[test]
fn a_missing_application_on_macos_is_downloaded_and_installed() {
    let (installer, action) = to_download().advance(MacosEvent::ManifestRead(manifest()), "t5");
    assert!(matches!(action, MacosAction::ReadVersion));
    let (installer, action) = installer.advance(MacosEvent::VersionRead("14.2".to_string()), "t6");
    match action {
        MacosAction::Download(request) => {
            assert_eq!(request.url, "https://mirror.example.com/codex-app.dmg");
            assert_eq!(request.file_name, "codex-app.dmg");
            assert_eq!(
                download_failure(&request),
                "正在下载官方 ChatGPT 桌面应用安装包失败，下载地址：https://mirror.example.com/codex-app.dmg"
            );
        }
        _ => panic!("the package is to be downloaded"),
    }
    assert_eq!(installer.status.steps[1].detail, "已找到制品 codex-app.dmg");
    let (installer, _) = installer.advance(MacosEvent::DownloadOpened(None), "t7");
    assert_eq!(installer.status.steps[2].total_bytes, Some(10));
    let (installer, action) = installer.advance(MacosEvent::Received(4, 1000), "t8");
    assert!(matches!(action, MacosAction::Receive(true)));
    assert_eq!(installer.status.steps[2].downloaded_bytes, Some(4));
    let (installer, _) = installer.advance(MacosEvent::Received(u64::MAX, 0), "t9");
    let (installer, action) = installer.advance(MacosEvent::DownloadClosed, "t10");
    assert!(matches!(action, MacosAction::InstallApp(name, digest) if name == "codex-app.dmg" && digest == "ab"));
    assert_eq!(installer.status.steps[2].downloaded_bytes, Some(u64::MAX));
    assert_eq!(installer.saves.len(), 2);
    let (installer, action) = installer.advance(
        MacosEvent::AppInstalled(
            ended(true, Some(0), ""),
            Some("/Applications/ChatGPT.app\n".to_string()),
        ),
        "t11",
    );
    assert!(matches!(action, MacosAction::CheckCompatibility(path) if path == "/Applications/ChatGPT.app"));
    let (installer, _) = installer.advance(MacosEvent::Compatible, "t12");
    let (installer, action) = installer
        .advance(MacosEvent::AppInspected(true, "1".to_string(), "b".to_string()), "t13");
    assert!(matches!(action, MacosAction::DecideActivation));
    assert_eq!(installer.result.app_install_method, "baijimu-cache-dmg");
    let (installer, action) = finish_profile(installer)
        .advance(MacosEvent::StateRead(AuthMode::Chatgpt, None, path("/x")), "t14");
    assert!(matches!(action, MacosAction::Finish(_)));
    assert!(settled(&installer.status));
}

#[test]
fn a_system_that_is_too_old_fails_the_installation_on_macos() {
    let (installer, _) = to_download().advance(MacosEvent::ManifestRead(manifest()), "t5");
    let (installer, action) = installer.advance(MacosEvent::VersionRead("13.0".to_string()), "t6");
    match action {
        MacosAction::Fail(failure) => {
            assert!(failure.unsupported_os);
            assert!(!classify_setup_failure(&failure).retryable);
            let unwritten = without_result(failure, "read-only");
            assert_eq!(unwritten.message, "安装失败且结果文件写入失败：read-only");
            assert!(!classify_setup_failure(&unwritten).retryable);
        }
        _ => panic!("the system is too old"),
    }
    assert_eq!(installer.status.steps[1].state, InstallerStepState::Failed);
    assert_eq!(installer.status.steps[6].state, InstallerStepState::Skipped);
    assert_eq!(installer.result.errors.len(), 1);
    assert!(!installer.result.ok);
    let (_, action) = installer.advance(MacosEvent::SetupFinalized, "t7");
    assert!(matches!(action, MacosAction::Ignore));
}

#[test]
fn progress_that_cannot_be_kept_fails_where_it_was() {
    let (installer, action) = macos_start().advance(
        MacosEvent::SaveFailed(1, SetupFailure::from_message("disk \n full")),
        "t1",
    );
    assert!(matches!(action, MacosAction::Fail(failure) if failure.message == "disk full"));
    assert_eq!(installer.status.steps[0].state, InstallerStepState::Failed);
    assert_eq!(installer.status.steps[0].detail, "disk full");
    let (installer, _) = macos_start().advance(
        MacosEvent::SaveFailed(0, SetupFailure::from_message("disk full")),
        "t1",
    );
    assert_eq!(installer.status.steps[0].state, InstallerStepState::Skipped);
}

#[test]
fn the_installing_program_is_not_trusted_blindly() {
    let at_install = || {
        let (installer, _) = to_download().advance(MacosEvent::ManifestRead(manifest()), "t");
        let (installer, _) = installer.advance(MacosEvent::VersionRead("14.0".to_string()), "t");
        let (installer, _) = installer.advance(MacosEvent::DownloadOpened(None), "t");
        installer.advance(MacosEvent::DownloadClosed, "t").0
    };
    let message = |end: ProcessEnd, output: Option<&str>| {
        let event = MacosEvent::AppInstalled(end, output.map(str::to_string));
        match at_install().advance(event, "t").1 {
            MacosAction::Fail(failure) => failure.message,
            _ => panic!("the installation failed"),
        }
    };
    assert_eq!(
        message(ended(false, Some(2), "no space"), Some("")),
        "macOS 原生安装动作失败：install-app（exit=2，stderr=no space）"
    );
    assert_eq!(
        message(ended(true, Some(0), ""), None),
        "macOS 原生安装动作返回了非 UTF-8 输出"
    );
    assert_eq!(
        message(ended(true, Some(0), ""), Some("Applications/ChatGPT.app")),
        "macOS 原生安装适配器返回了无效应用路径"
    );
    assert!(is_app_path("/Applications/ChatGPT.app/"));
    assert!(!is_app_path("/Applications/.app"));
    assert!(!is_app_path("/Applications/ChatGPT.dmg"));
    assert!(!is_app_path("/"));
}

#[test]
fn the_index_is_asked_before_the_list_of_the_application() {
    let said = |text: &str| Some(text.to_string());
    assert_eq!(read_indexed_metadata(&said(" 1.2.3\n")).as_deref(), Some("1.2.3"));
    assert_eq!(read_indexed_metadata(&said("(null)")), None);
    assert_eq!(read_indexed_metadata(&said(" \n")), None);
    assert_eq!(read_indexed_metadata(&None), None);
    assert_eq!(read_app_metadata(&said("1.2.3\n"), &said("9")), "1.2.3");
    assert_eq!(read_app_metadata(&said("(null)\n"), &said(" 9 \n")), "9");
    assert_eq!(read_app_metadata(&None, &said("9")), "9");
    assert_eq!(read_app_metadata(&None, &None), "");
}
