use codex_desktop::desktop::macos;
use codex_desktop::desktop::macos::{
    installed_application_path, is_running, open_application_arguments, plist_value,
    stop_for_workspace_switch, verify_system_compatibility, StopAction, StopEvent, StopPhase,
};
use codex_desktop::desktop::windows;
use codex_desktop::desktop::windows::{
    desktop_arguments, desktop_environment, LAUNCH_SCRIPT, POWERSHELL_PREAMBLE,
    STOP_SCRIPT,
};
use codex_desktop::desktop::{CommandOutput, DesktopSwitch};

#[test]
fn launch_only_activates_the_preselected_windows_workspace() {
    let source = format!("{POWERSHELL_PREAMBLE}\n{STOP_SCRIPT}\n{LAUNCH_SCRIPT}");
    assert!(source.contains("Start-Process -FilePath \"${codexDesktopProtocol}:\""));
    assert!(source.contains("Get-Process -Name"));
    assert!(source.contains("Get-AuthenticodeSignature"));
    assert!(source.contains("SignatureStatus]::Valid"));
    assert!(!source.contains("Get-AppxPackage"));
    assert!(!source.contains("AppxManifest.xml"));
    assert!(!source.contains("Get-Process -ErrorAction"));
    for forbidden in [
        "CurrentUser.CreateSubKey",
        "SendMessageTimeout",
        "WM_SETTINGCHANGE",
        "ActivateApplication",
    ] {
        assert!(!source.contains(forbidden), "unexpected {forbidden}");
    }
    assert!(!source.contains("CODEX_HOME"));
}

#[test]
fn workspace_launch_passes_only_the_selected_codex_home() {
    let args = open_application_arguments("/Applications/Codex.app", "/private/codex/workspace-a");
    assert_eq!(
        args,
        vec!["--env", "CODEX_HOME=/private/codex/workspace-a", "/Applications/Codex.app"]
    );
}

fn output(success: bool, stdout: &str, stderr: &str) -> CommandOutput {
    CommandOutput {
        success,
        status: "exit status: 3".to_string(),
        stdout: stdout.to_string(),
        stderr: stderr.to_string(),
    }
}

const RUNNING: &str = "\"ChatGPT\"\n   \"pid\"=1234\n";

#[test]
fn running_applications_are_told_by_their_process() {
    assert!(is_running(RUNNING));
    assert!(!is_running("\"pid\"=[ NULL ]\n"));
    assert!(!is_running(""));
    assert!(!is_running("x \"pid\"=1"));
}

#[test]
fn a_missing_or_idle_application_was_not_running() {
    let (_, action) = stop_for_workspace_switch(StopPhase::Locating, StopEvent::AppLocated(None));
    assert!(matches!(action, StopAction::Stopped(DesktopSwitch { was_running: false })));
    let (phase, action) = stop_for_workspace_switch(
        StopPhase::Locating,
        StopEvent::AppLocated(Some("/Applications/Codex.app".to_string())),
    );
    assert!(matches!(action, StopAction::ReadBundle(path) if path == "/Applications/Codex.app"));
    let (phase, action) =
        stop_for_workspace_switch(phase, StopEvent::BundleRead(output(true, " com.x \n", "")));
    assert!(matches!(action, StopAction::AskRunning(bundle) if bundle == "com.x"));
    let (phase, action) = stop_for_workspace_switch(phase, StopEvent::RunningAsked(String::new()));
    assert!(matches!(action, StopAction::Stopped(DesktopSwitch { was_running: false })));
    let (_, action) = stop_for_workspace_switch(phase, StopEvent::Waited(0));
    assert!(matches!(action, StopAction::Ignore));
}

fn waiting() -> StopPhase {
    let (phase, _) = stop_for_workspace_switch(
        StopPhase::Locating,
        StopEvent::AppLocated(Some("/Applications/Codex.app".to_string())),
    );
    let (phase, _) =
        stop_for_workspace_switch(phase, StopEvent::BundleRead(output(true, "com.x", "")));
    let (phase, action) =
        stop_for_workspace_switch(phase, StopEvent::RunningAsked(RUNNING.to_string()));
    assert!(matches!(action, StopAction::Quit(script) if script == "tell application id \"com.x\" to quit"));
    let (phase, action) =
        stop_for_workspace_switch(phase, StopEvent::QuitEnded(output(true, "", "")));
    assert!(matches!(action, StopAction::AskRunning(_)));
    phase
}

#[test]
fn a_running_application_is_waited_for() {
    let (phase, action) =
        stop_for_workspace_switch(waiting(), StopEvent::RunningAsked(RUNNING.to_string()));
    assert!(matches!(action, StopAction::Wait(500)));
    let (phase, action) = stop_for_workspace_switch(phase, StopEvent::Waited(14_999));
    assert!(matches!(action, StopAction::AskRunning(_)));
    let (_, action) = stop_for_workspace_switch(phase, StopEvent::RunningAsked(String::new()));
    assert!(matches!(action, StopAction::Stopped(DesktopSwitch { was_running: true })));
    let (_, action) = stop_for_workspace_switch(waiting(), StopEvent::Waited(15_000));
    match action {
        StopAction::Fail(error) => {
            assert_eq!(error.message(), "ChatGPT/Codex 桌面应用未在 15 秒内退出");
        }
        _ => panic!("the application is still running"),
    }
}

#[test]
fn descriptions_are_read_from_commands() {
    assert_eq!(plist_value("K", &output(true, " v \n", "")).unwrap(), "v");
    assert_eq!(
        plist_value("K", &output(true, " \n", "")).unwrap_err().message(),
        "桌面应用 K 为空"
    );
    assert_eq!(
        plist_value("K", &output(false, "v", " ")).unwrap_err().message(),
        "读取桌面应用 K 失败：exit=exit status: 3"
    );
    assert_eq!(
        macos::run_checked(&output(false, "", " denied "), "打开失败").unwrap_err().message(),
        "打开失败：denied"
    );
    assert_eq!(installed_application_path(false, true).as_deref(), Some("/Applications/Codex.app"));
    assert_eq!(installed_application_path(true, true).as_deref(), Some("/Applications/ChatGPT.app"));
    assert_eq!(installed_application_path(false, false), None);
}

#[test]
fn the_application_opens_on_a_recent_system_only() {
    let app = Some("/Applications/ChatGPT.app".to_string());
    let minimum = output(true, "14.0\n", "");
    assert!(verify_system_compatibility(&app, &minimum, "14.1").is_ok());
    assert!(verify_system_compatibility(&app, &minimum, "13").is_err());
    assert_eq!(
        verify_system_compatibility(&None, &minimum, "14.1").unwrap_err().message(),
        "没有找到已安装的 ChatGPT/Codex 桌面应用"
    );
    assert_eq!(
        macos::launch_workspace(&app, &minimum, "14.1", "/ws").unwrap(),
        vec!["--env", "CODEX_HOME=/ws", "/Applications/ChatGPT.app"]
    );
    assert!(macos::launch_workspace(&app, &output(false, "", "x"), "14.1", "/ws").is_err());
}

#[test]
fn an_application_is_opened_again_where_it_was_running() {
    assert_eq!(DesktopSwitch::default().restart_workspace_if_needed("/ws"), None);
    let was = DesktopSwitch { was_running: true };
    assert_eq!(was.restart_workspace_if_needed("/ws").as_deref(), Some("/ws"));
}

#[test]
fn windows_opens_and_stops_the_application() {
    assert!(windows::launch_workspace(&output(true, "", ""), true).is_ok());
    assert_eq!(
        windows::launch_workspace(&output(true, "", ""), false).unwrap_err().message(),
        "Windows 未接受 ChatGPT/Codex 桌面应用启动请求"
    );
    assert_eq!(
        windows::launch_workspace(&output(false, "", " bad "), true).unwrap_err().message(),
        "管理 ChatGPT/Codex 桌面进程失败：bad"
    );
    assert!(windows::stop_for_workspace_switch(&output(true, "", ""), true).unwrap().was_running);
    assert!(windows::stop_for_workspace_switch(&output(false, "", ""), true).is_err());
}

#[test]
fn scripts_run_after_their_preamble() {
    let arguments = desktop_arguments(STOP_SCRIPT);
    assert_eq!(arguments.len(), 7);
    assert_eq!(arguments[5], "-Command");
    assert_eq!(arguments[6], format!("{POWERSHELL_PREAMBLE}\n{STOP_SCRIPT}"));
    let variables = desktop_environment(
        "codex",
        &vec!["ChatGPT".to_string(), "Codex".to_string()],
        &vec!["CN=OpenAI".to_string()],
    );
    assert_eq!(variables.len(), 3);
    assert_eq!(variables[1].name, "CODEX_DESKTOP_PROCESS_NAMES");
    assert_eq!(variables[1].value, "ChatGPT\nCodex");
}
