use codex_desktop::codex_workspace::{
    activate, active, create, import_legacy_workspaces, imported_workspace_id, load,
    normalize, refresh_auth_profile, roll_back_create, roll_back_switch, state, switch_auth_profile, to_hex,
    unique_workspace_id, unused_workspace_id, validate_name, workspace, workspace_home, CatalogStore,
    CodexWorkspace, LegacyCodexWorkspaceCandidate, WorkspaceCatalog, CATALOG_SCHEMA_VERSION,
    DEFAULT_WORKSPACE_ID,
};
use codex_desktop::codex_workspace_activation::{
    start, switch, Platform, SwitchAction, SwitchEvent, SwitchPhase,
};
use codex_desktop::credential::store::Stored;
use codex_desktop::desktop::DesktopSwitch;
use codex_desktop::duplicate::Duplicate;

fn default_workspace(home: &str) -> CodexWorkspace {
    CodexWorkspace {
        workspace_id: DEFAULT_WORKSPACE_ID.to_string(),
        name: "默认工作区".to_string(),
        codex_home: home.to_string(),
        auth_profile_id: Some("personal:chatgpt".to_string()),
        created_at_epoch_seconds: 1,
        updated_at_epoch_seconds: 1,
        active: true,
        is_default: true,
        imported: false,
    }
}

fn workspace_catalog(default_home: &str) -> WorkspaceCatalog {
    WorkspaceCatalog {
        schema_version: CATALOG_SCHEMA_VERSION,
        active_workspace_id: DEFAULT_WORKSPACE_ID.to_string(),
        workspaces: vec![default_workspace(default_home)],
    }
}

fn files(stored: Stored<WorkspaceCatalog>) -> CatalogStore {
    CatalogStore {
        stored,
        default_home: "/home/user/.codex".to_string(),
        candidates: Vec::new(),
        unsaved: false,
    }
}

#[test]
fn workspace_names_are_user_data_not_path_segments() {
    assert_eq!(validate_name(" 研发 / Codex ").unwrap(), "研发 / Codex");
    assert!(validate_name("").is_err());
    assert!(validate_name(&"a".repeat(81)).is_err());
    assert!(validate_name(&"研".repeat(80)).is_ok());
    assert_eq!(validate_name("a\u{7}b").err().unwrap().message(), "工作区名称不能包含控制字符");
}

#[test]
fn catalog_bootstrap_preserves_the_existing_home_as_default_workspace() {
    let mut files = files(Stored::Missing);

    let catalog = state(&mut files, &Some("personal:installation-backup".to_string()), 5).unwrap();

    assert_eq!(catalog.active_workspace_id, DEFAULT_WORKSPACE_ID);
    assert_eq!(catalog.workspaces.len(), 1);
    assert!(catalog.workspaces[0].is_default);
    assert!(catalog.workspaces[0].active);
    assert_eq!(
        catalog.workspaces[0].auth_profile_id.as_deref(),
        Some("personal:installation-backup")
    );
    assert_eq!(catalog.workspaces[0].codex_home, "/home/user/.codex");
    assert!(files.unsaved);
    assert!(matches!(files.stored, Stored::Value(_)));
}

#[test]
fn legacy_homes_are_imported_as_idempotent_peer_workspaces() {
    let mut catalog = workspace_catalog("/root/default");
    let candidate = LegacyCodexWorkspaceCandidate {
        profile_id: "prod:user-25:client-device-a:workspace-1390".to_string(),
        workspace_name: "产品研发".to_string(),
        codex_home: "/root/legacy".to_string(),
        initialized_at_epoch_seconds: 42,
    };

    assert!(import_legacy_workspaces(&mut catalog, &vec![candidate.duplicate()]).unwrap());
    assert_eq!(catalog.workspaces.len(), 2);
    let imported = &catalog.workspaces[1];
    assert!(imported.imported);
    assert!(!imported.is_default);
    assert_eq!(imported.name, "产品研发");
    assert_eq!(imported.codex_home, "/root/legacy");
    assert_eq!(imported.auth_profile_id.as_deref(), Some(candidate.profile_id.as_str()));
    assert_eq!(imported.created_at_epoch_seconds, 42);
    assert!(!import_legacy_workspaces(&mut catalog, &vec![candidate]).unwrap());
    assert_eq!(catalog.workspaces.len(), 2);
}

#[test]
fn imported_workspaces_are_known_by_a_digest() {
    let id = imported_workspace_id("p", "/h");
    assert_eq!(id.len(), 24);
    assert_eq!(id, imported_workspace_id("p", "/h"));
    assert_ne!(id, imported_workspace_id("p", "/other"));
    assert_ne!(id, imported_workspace_id("q", "/h"));
    assert_eq!(id, "1cc31255e41730ece2ace474");
}

#[test]
fn new_workspaces_can_be_taken_back() {
    let mut files = files(Stored::Value(workspace_catalog("/home/user/.codex")));
    let made = create(&mut files, "abc", " 研发 ", "/ws/abc", "profile-1", 9).unwrap();
    assert_eq!(made.name, "研发");
    assert_eq!(made.codex_home, "/ws/abc");
    assert_eq!(made.auth_profile_id.as_deref(), Some("profile-1"));
    assert_eq!(made.created_at_epoch_seconds, 9);
    assert!(!made.active && !made.is_default && !made.imported);
    assert_eq!(
        create(&mut files, "def", "研发", "/ws/def", "profile-1", 9).err().unwrap().message(),
        "已存在同名 Codex 工作区"
    );
    assert_eq!(workspace(&mut files, "abc", 9).unwrap().name, "研发");
    roll_back_create(&mut files, "abc");
    assert!(workspace(&mut files, "abc", 9).is_err());
    assert_eq!(load(&mut files, &None, 9).unwrap().workspaces.len(), 1);
}

#[test]
fn names_are_compared_without_regard_to_case() {
    let mut files = files(Stored::Value(workspace_catalog("/home/user/.codex")));
    create(&mut files, "abc", "Straße ÀB", "/ws/abc", "profile-1", 9).unwrap();
    assert!(create(&mut files, "def", "STRAßE àb", "/ws/def", "profile-1", 9).is_err());
}

#[test]
fn another_login_is_chosen_and_taken_back() {
    let mut files = files(Stored::Value(workspace_catalog("/home/user/.codex")));
    let chosen = switch_auth_profile(&mut files, DEFAULT_WORKSPACE_ID, "profile-2", 20).unwrap();
    assert_eq!(chosen.workspace.auth_profile_id.as_deref(), Some("profile-2"));
    assert_eq!(chosen.workspace.updated_at_epoch_seconds, 20);
    assert_eq!(chosen.previous_profile_id.as_deref(), Some("personal:chatgpt"));
    assert_eq!(
        refresh_auth_profile(&mut files, "profile-2", 21).unwrap(),
        vec!["/home/user/.codex"]
    );
    assert!(refresh_auth_profile(&mut files, "profile-3", 21).unwrap().is_empty());
    roll_back_switch(&mut files, DEFAULT_WORKSPACE_ID, &chosen);
    let back = active(&mut files, 22).unwrap();
    assert_eq!(back.auth_profile_id.as_deref(), Some("personal:chatgpt"));
    assert_eq!(back.updated_at_epoch_seconds, 1);
    assert_eq!(
        switch_auth_profile(&mut files, "none", "profile-2", 20).err().unwrap().message(),
        "Codex 工作区不存在"
    );
}

#[test]
fn a_workspace_is_put_in_effect() {
    let mut files = files(Stored::Value(workspace_catalog("/home/user/.codex")));
    create(&mut files, "abc", "研发", "/ws/abc", "profile-1", 9).unwrap();
    assert_eq!(activate(&mut files, "abc", 30).unwrap().updated_at_epoch_seconds, 30);
    assert_eq!(active(&mut files, 31).unwrap().workspace_id, "abc");
    assert!(activate(&mut files, "none", 32).is_err());
    assert_eq!(active(&mut files, 33).unwrap().workspace_id, "abc");
    let shown = state(&mut files, &None, 34).unwrap();
    assert_eq!(shown.active_workspace_id, "abc");
    assert_eq!(shown.workspaces.iter().filter(|item| item.active).count(), 1);
    assert_eq!(shown.workspaces[0].workspace_id, DEFAULT_WORKSPACE_ID);
}

#[test]
fn a_workspace_without_a_login_is_not_put_in_effect() {
    let mut catalog = workspace_catalog("/home/user/.codex");
    catalog.workspaces[0].auth_profile_id = None;
    let mut files = files(Stored::Value(catalog));
    assert_eq!(
        activate(&mut files, DEFAULT_WORKSPACE_ID, 3).err().unwrap().message(),
        "Codex 工作区尚未选择认证通道"
    );
}

#[test]
fn a_catalog_that_cannot_be_read_is_an_error() {
    assert_eq!(
        load(&mut files(Stored::Unreadable), &None, 1).err().unwrap().message(),
        "读取 Codex 工作区目录失败"
    );
    assert_eq!(
        load(&mut files(Stored::Invalid), &None, 1).err().unwrap().message(),
        "解析 Codex 工作区目录失败"
    );
    let mut newer = workspace_catalog("/home/user/.codex");
    newer.schema_version = CATALOG_SCHEMA_VERSION + 1;
    assert_eq!(
        load(&mut files(Stored::Value(newer)), &None, 1).err().unwrap().message(),
        "Codex 工作区目录版本不受支持"
    );
}

#[test]
fn loading_again_changes_nothing() {
    let mut files = files(Stored::Missing);
    load(&mut files, &Some("p".to_string()), 5).unwrap();
    files.unsaved = false;
    let first = load(&mut files, &None, 6).unwrap();
    let second = load(&mut files, &None, 7).unwrap();
    assert!(!files.unsaved);
    assert_eq!(first.workspaces.len(), second.workspaces.len());
    assert_eq!(first.workspaces[0].updated_at_epoch_seconds, 5);
    assert_eq!(second.workspaces[0].updated_at_epoch_seconds, 5);
}

#[test]
fn new_names_are_unused() {
    let catalog = workspace_catalog("/home/user/.codex");
    assert_eq!(to_hex(&vec![0, 10, 255]), "000aff");
    assert_eq!(
        unused_workspace_id(&catalog, &vec![1, 2, 3]).as_deref(),
        Some("010203")
    );
    let mut taken = workspace_catalog("/home/user/.codex");
    taken.workspaces[0].workspace_id = "010203".to_string();
    assert_eq!(unused_workspace_id(&taken, &vec![1, 2, 3]), None);
    let one = unique_workspace_id(&catalog).unwrap();
    let other = unique_workspace_id(&catalog).unwrap();
    assert_eq!(one.len(), 24);
    assert!(one.bytes().all(|byte| byte.is_ascii_hexdigit()));
    assert_ne!(one, other);
}

fn failed(text: &str) -> SwitchEvent {
    SwitchEvent::Failed(text.to_string())
}

fn found() -> SwitchEvent {
    SwitchEvent::WorkspacesRead("/old".to_string())
}

#[test]
fn a_switch_without_the_desktop_only_activates() {
    let (state, action) = start(Platform::Macos, false, "ws");
    assert!(matches!(action, SwitchAction::ReadWorkspaces(id) if id == "ws"));
    let (state, action) = switch(state, found());
    assert!(matches!(action, SwitchAction::Activate(id) if id == "ws"));
    let (state, action) = switch(state, SwitchEvent::Activated);
    assert!(matches!(action, SwitchAction::Finish));
    let (state, action) = switch(state, SwitchEvent::Activated);
    assert!(matches!(action, SwitchAction::Ignore));
    assert!(matches!(state.phase, SwitchPhase::Ended));
}

#[test]
fn a_switch_on_windows_activates_after_stopping() {
    let (state, _) = start(Platform::Windows, true, "ws");
    let (state, action) = switch(state, found());
    assert!(matches!(action, SwitchAction::StopDesktop));
    let (state, action) =
        switch(state, SwitchEvent::DesktopStopped(DesktopSwitch { was_running: true }));
    assert!(matches!(action, SwitchAction::Activate(id) if id == "ws"));
    let (state, action) = switch(state, failed("disk full"));
    assert!(matches!(action, SwitchAction::RestartDesktop(home) if home == "/old"));
    let (_, action) = switch(state, failed("no app"));
    match action {
        SwitchAction::Fail(message) => assert_eq!(
            message,
            "切换 Codex 工作区目录失败：disk full；恢复原工作区桌面进程失败：no app"
        ),
        _ => panic!("the switch failed"),
    }
}

#[test]
fn an_unknown_workspace_is_refused_before_anything_is_stopped() {
    let (state, _) = start(Platform::Windows, true, "gone");
    let (state, action) = switch(state, failed("Codex 工作区不存在"));
    assert!(matches!(action, SwitchAction::Fail(message) if message == "Codex 工作区不存在"));
    let (_, action) = switch(state, found());
    assert!(matches!(action, SwitchAction::Ignore));
}

#[test]
fn a_switch_on_macos_restarts_the_application_after_a_failure() {
    let (state, _) = start(Platform::Macos, true, "ws");
    let (state, action) = switch(state, found());
    assert!(matches!(action, SwitchAction::StopDesktop));
    let (state, action) =
        switch(state, SwitchEvent::DesktopStopped(DesktopSwitch { was_running: true }));
    assert!(matches!(action, SwitchAction::Activate(_)));
    let (state, action) = switch(state, failed("gone"));
    assert!(matches!(action, SwitchAction::RestartDesktop(home) if home == "/old"));
    let (_, action) = switch(state, SwitchEvent::DesktopRestarted);
    assert!(matches!(action, SwitchAction::Fail(message) if message == "切换 Codex 工作区目录失败：gone"));
}

#[test]
fn other_systems_have_no_desktop_to_manage() {
    let (state, _) = start(Platform::Other, true, "ws");
    let (_, action) = switch(state, found());
    assert!(matches!(action, SwitchAction::Activate(_)));
}

fn candidate(profile: &str, home: &str) -> LegacyCodexWorkspaceCandidate {
    LegacyCodexWorkspaceCandidate {
        profile_id: profile.to_string(),
        workspace_name: "旧".to_string(),
        codex_home: home.to_string(),
        initialized_at_epoch_seconds: 4,
    }
}

#[test]
fn a_new_workspace_lies_below_its_identity() {
    assert_eq!(workspace_home("/data/ws", "abc", '/'), "/data/ws/abc/codex-home");
    assert_eq!(workspace_home("/data/ws/", "abc", '/'), "/data/ws/abc/codex-home");
    assert_eq!(workspace_home("C:\\ws", "abc", '\\'), "C:\\ws\\abc\\codex-home");
}

#[test]
fn imported_identities_are_hexadecimal() {
    for id in [imported_workspace_id("", ""), imported_workspace_id("研发", "/家")] {
        assert_eq!(id.len(), 24);
        assert!(id.chars().all(|c| matches!(c, '0'..='9' | 'a'..='f')));
    }
}

#[test]
fn a_catalog_of_another_version_is_not_touched() {
    let mut catalog = workspace_catalog("/other");
    catalog.schema_version = CATALOG_SCHEMA_VERSION + 1;
    let candidates = vec![candidate("p", "/old")];
    assert!(normalize(&mut catalog, "/home/user/.codex", &None, &candidates, 9).is_err());
    assert_eq!(catalog.schema_version, CATALOG_SCHEMA_VERSION + 1);
    assert_eq!(catalog.workspaces.len(), 1);
    assert_eq!(catalog.workspaces[0].codex_home, "/other");
}

#[test]
fn a_conflict_loses_no_workspace() {
    let mut catalog = workspace_catalog("/home/user/.codex");
    let mut taken = default_workspace("/elsewhere");
    taken.workspace_id = imported_workspace_id("q", "/second");
    taken.is_default = false;
    catalog.workspaces.push(taken.duplicate());
    let candidates =
        vec![candidate("p", "/first"), candidate("q", "/second"), candidate("r", "/third")];
    let error = import_legacy_workspaces(&mut catalog, &candidates).err().unwrap();
    assert!(error.message().contains("/second"));
    let homes: Vec<&str> =
        catalog.workspaces.iter().map(|workspace| workspace.codex_home.as_str()).collect();
    assert_eq!(homes, ["/home/user/.codex", "/elsewhere", "/first"]);
    assert_eq!(catalog.workspaces[1].workspace_id, taken.workspace_id);
    assert!(normalize(&mut catalog, "/home/user/.codex", &None, &candidates, 9).is_err());
    assert_eq!(catalog.workspaces.len(), 3);
    assert_eq!(catalog.active_workspace_id, DEFAULT_WORKSPACE_ID);
}

#[test]
fn normalizing_again_finds_nothing_to_do() {
    let mut catalog = workspace_catalog("/old/home");
    let mut twin = default_workspace("/a");
    twin.workspace_id = "twin".to_string();
    twin.is_default = false;
    catalog.workspaces.push(twin.duplicate());
    catalog.workspaces.push(twin);
    let candidates = vec![candidate("p", "/first")];
    assert!(normalize(&mut catalog, "/home/user/.codex", &None, &candidates, 9).unwrap());
    let ids: Vec<String> =
        catalog.workspaces.iter().map(|workspace| workspace.workspace_id.clone()).collect();
    assert!(!normalize(&mut catalog, "/home/user/.codex", &None, &candidates, 10).unwrap());
    let again: Vec<String> =
        catalog.workspaces.iter().map(|workspace| workspace.workspace_id.clone()).collect();
    assert_eq!(ids, again);
    assert_eq!(ids.len(), 4);
}

#[test]
fn the_activated_workspace_is_the_active_one() {
    let mut files = files(Stored::Value(workspace_catalog("/home/user/.codex")));
    create(&mut files, "abc", "一", "/ws/abc", "profile-1", 9).unwrap();
    create(&mut files, "def", "二", "/ws/def", "profile-2", 9).unwrap();
    let made = activate(&mut files, "abc", 20).unwrap();
    assert_eq!(made.updated_at_epoch_seconds, 20);
    let found = active(&mut files, 21).unwrap();
    assert_eq!(found.workspace_id, "abc");
    assert_eq!(found.updated_at_epoch_seconds, 20);
    assert_eq!(found.name, "一");
    assert_eq!(workspace(&mut files, "def", 21).unwrap().updated_at_epoch_seconds, 9);
    assert!(activate(&mut files, "none", 22).is_err());
    assert_eq!(active(&mut files, 23).unwrap().workspace_id, "abc");
}
