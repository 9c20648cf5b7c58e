use codex_desktop::baijimu_cli::{AuthStatus, Workspace};
use codex_desktop::codex_path::CodexPath;
use codex_desktop::credential::activation::apply_profile_to_home;
use codex_desktop::credential::auth::{auth_summary, read_codex_api_key, workspace_auth};
use codex_desktop::credential::config::{
    apply_auth_config, capture_auth_config, ensure_workspace_config, managed_config_ready,
};
use codex_desktop::credential::contract::{
    default_model, AuthMode, AuthProfileKind, CodexHomeOwnership, CredentialMetadata,
    CredentialProfile, OriginalCodexHomeState, PreparedWorkspaceReauthorization,
};
use codex_desktop::credential::files::FileRead;
use codex_desktop::credential::home::{
    captured_home_text, default_original_codex_home, legacy_workspace_candidate,
    list_recorded_profiles,
};
use codex_desktop::credential::identity::{
    profile_id, profile_short_key, sanitize_path_segment, ORIGINAL_PROFILE_ID,
};
use codex_desktop::credential::loading::{migrate_profiles_to_shared_home, METADATA_VERSION};
use codex_desktop::credential::metadata::{load_metadata, save_metadata};
use codex_desktop::credential::operations::{
    activate_prepared_profile, codex_ready_for_workspace, commit_workspace_reauthorization,
    finalize_workspace_setup, initialize_workspace_files, initialize_workspace_profile,
    legacy_global_codex_home_state, prepare_profile_activation, prepare_workspace_reauthorization,
    record_legacy_global_codex_home_restored, restore_legacy_global_codex_home,
    router_credential_for_workspace, should_auto_activate_workspace,
    should_auto_activate_workspace_after_setup, LegacyRestore,
};
use codex_desktop::credential::ownership::{
    commit_shared_home_ownership, read_valid_ownership, OWNERSHIP_SCHEMA_VERSION,
};
use codex_desktop::credential::state::{personal_uses_external_store, state, Discovery};
use codex_desktop::credential::store::{CredentialStore, FileWrite, PreviousHome, Stored};
use codex_desktop::duplicate::Duplicate;
use codex_desktop::product_config::ProductConfig;
use codex_desktop::text_map::TextMap;

fn product() -> ProductConfig {
    ProductConfig {
        schema_version: 2,
        default_model: "gpt-5.5".to_string(),
        router_provider: "baijimu-router".to_string(),
        router_base_url: "https://router.baijimu.com/api/claudecode/v1".to_string(),
        windows_desktop_protocol: "codex".to_string(),
        windows_desktop_trusted_publishers: vec!["CN=OpenAI".to_string()],
    }
}

fn path(text: &str) -> CodexPath {
    let mut components = vec!["/".to_string()];
    for piece in text.split('/') {
        if !piece.is_empty() {
            components.push(piece.to_string());
        }
    }
    CodexPath { text: text.to_string(), components }
}

fn content(text: &str) -> FileRead {
    FileRead::Content(text.as_bytes().to_vec())
}

fn bytes(file: &FileRead) -> Option<Vec<u8>> {
    match file {
        FileRead::Content(bytes) => Some(bytes.clone()),
        _ => None,
    }
}

fn file_text(file: &FileRead) -> String {
    String::from_utf8(bytes(file).unwrap()).unwrap()
}

fn store() -> CredentialStore {
    CredentialStore {
        shared_home: path("/root/user/.codex"),
        external_home: None,
        managed_root: path("/root/user/.baijimu/codex-homes"),
        legacy_managed_root: path("/root/data/profile-homes"),
        metadata: Stored::Missing,
        legacy_metadata: Stored::Missing,
        shared_auth: FileRead::Missing,
        shared_config: FileRead::Missing,
        ownership: Stored::Missing,
        reservation: false,
        profile_auth: TextMap::new(),
        profile_config: TextMap::new(),
        legacy_profile_auth: TextMap::new(),
        previous_homes: TextMap::new(),
        journal: Vec::new(),
    }
}

fn metadata() -> CredentialMetadata {
    CredentialMetadata::new()
}

fn profile(workspace_id: u64, home: &str) -> CredentialProfile {
    CredentialProfile {
        profile_id: profile_id("prod", None, &None, workspace_id),
        kind: AuthProfileKind::Baijimu,
        name: format!("workspace-{workspace_id}"),
        environment: "prod".to_string(),
        user_id: None,
        client_id: None,
        workspace_id,
        workspace_name: format!("workspace-{workspace_id}"),
        model: product().default_model,
        activated_at_epoch_seconds: 0,
        codex_home: home.to_string(),
        credential_status: "verified".to_string(),
    }
}

const SHARED: &str = "/root/user/.codex";

fn put_login(store: &mut CredentialStore, profile: &CredentialProfile, key: &str) {
    store.profile_auth.put(
        profile_short_key(&profile.profile_id),
        FileRead::Content(workspace_auth(key)),
    );
}

fn profile_login<'a>(store: &'a CredentialStore, profile: &CredentialProfile) -> &'a FileRead {
    store.profile_auth_file(&profile_short_key(&profile.profile_id))
}

fn key_in(file: &FileRead) -> Option<String> {
    match read_codex_api_key(file) {
        Ok(key) => key,
        Err(_) => panic!("the login file cannot be read"),
    }
}

fn sync_profile_to_shared_home(store: &mut CredentialStore, profile: &CredentialProfile) {
    let key = key_in(profile_login(store, profile)).unwrap();
    let config = ensure_workspace_config(&store.shared_config, &product()).ok().unwrap();
    store.write(FileWrite::SharedConfig(config));
    store.write(FileWrite::SharedAuth(workspace_auth(&key)));
    commit_shared_home_ownership(store, 7);
}

fn personal_of(metadata: &CredentialMetadata) -> CredentialProfile {
    metadata
        .profiles
        .iter()
        .find(|profile| profile.kind == AuthProfileKind::Personal)
        .unwrap()
        .duplicate()
}

#[test]
fn profile_identity_is_scoped_by_environment_user_and_workspace() {
    let device_a = Some("device-a".to_string());
    let device_b = Some("device-b".to_string());
    assert_eq!(
        profile_id("prod", Some(25), &device_a, 1390),
        "prod:user-25:client-device-a:workspace-1390"
    );
    assert_ne!(
        profile_id("prod", Some(25), &device_a, 1390),
        profile_id("test", Some(25), &device_a, 1390)
    );
    assert_ne!(
        profile_id("prod", Some(25), &device_a, 1390),
        profile_id("prod", Some(26), &device_a, 1390)
    );
    assert_ne!(
        profile_id("prod", Some(25), &device_a, 1390),
        profile_id("prod", Some(25), &device_b, 1390)
    );
}

#[test]
fn setup_activation_preserves_original_login_and_existing_selection() {
    let original = metadata();
    assert!(!should_auto_activate_workspace(&original, true));
    assert!(should_auto_activate_workspace(&original, false));

    let profile = CredentialProfile {
        profile_id: "prod:user-25:client-device-a:workspace-1390".to_string(),
        kind: AuthProfileKind::Baijimu,
        name: "既有工作区".to_string(),
        environment: "prod".to_string(),
        user_id: Some(25),
        client_id: Some("device-a".to_string()),
        workspace_id: 1390,
        workspace_name: "既有工作区".to_string(),
        model: product().default_model,
        activated_at_epoch_seconds: 1,
        codex_home: "/isolated/workspace-1390".to_string(),
        credential_status: "verified".to_string(),
    };
    let selected = CredentialMetadata {
        version: METADATA_VERSION,
        profiles: vec![profile.duplicate()],
        active_mode: AuthMode::Baijimu,
        active_profile_id: Some(profile.profile_id),
        active_workspace_id: Some(profile.workspace_id),
        ..metadata()
    };
    assert!(!should_auto_activate_workspace(&selected, false));
}

#[test]
fn metadata_v11_migrates_profile_models_without_touching_live_config() {
    let mut store = store();
    let stale_config = "model = \"gpt-5.6-sol\"\ncustom_setting = \"keep\"\n";
    store.shared_config = content(stale_config);
    let mut workspace = profile(642, SHARED);
    workspace.model = "gpt-5.6-sol".to_string();
    save_metadata(
        &mut store,
        &CredentialMetadata { version: 11, profiles: vec![workspace], ..metadata() },
    );

    let migrated = load_metadata(&mut store, &product()).unwrap();

    assert_eq!(migrated.version, METADATA_VERSION);
    assert!(migrated.profiles.iter().all(|profile| profile.model == "gpt-5.5"));
    assert_eq!(file_text(&store.shared_config), stale_config);
}

#[test]
fn workspace_config_readiness_requires_the_complete_gpt55_router_contract() {
    let file = content("model = \"gpt-5.6-sol\"\nmodel_provider = \"baijimu-router\"\n\n[model_providers.baijimu-router]\nbase_url = \"https://router.baijimu.com/api/claudecode/v1\"\n");
    assert!(!managed_config_ready(&file, &product()));

    let written = ensure_workspace_config(&file, &product()).ok().unwrap();

    let rendered = String::from_utf8(written.clone()).unwrap();
    assert!(managed_config_ready(&FileRead::Content(written), &product()));
    assert!(rendered.contains("model = \"gpt-5.5\""));
    assert!(rendered.contains("wire_api = \"responses\""));
    assert!(rendered.contains("requires_openai_auth = true"));
}

#[test]
fn migration_moves_only_credentials_and_preserves_legacy_state() {
    let mut store = store();
    store.previous_homes.put(
        "/root/old-one".to_string(),
        PreviousHome {
            path: path("/root/old-one"),
            auth: content("{\"OPENAI_API_KEY\":\"key-one\"}"),
        },
    );
    store.previous_homes.put(
        "/root/old-two".to_string(),
        PreviousHome {
            path: path("/root/old-two"),
            auth: content("{\"OPENAI_API_KEY\":\"key-two\"}"),
        },
    );
    let mut migrated = CredentialMetadata {
        version: 8,
        profiles: vec![profile(1, "/root/old-one"), profile(2, "/root/old-two")],
        active_mode: AuthMode::Baijimu,
        active_profile_id: None,
        active_workspace_id: None,
        ..metadata()
    };

    assert!(migrate_profiles_to_shared_home(&mut store, &mut migrated).unwrap());
    assert!(migrated.profiles.iter().all(|item| item.codex_home == SHARED));
    assert_eq!(
        key_in(profile_login(&store, &migrated.profiles[0])).as_deref(),
        Some("key-one")
    );
    assert_eq!(
        key_in(profile_login(&store, &migrated.profiles[1])).as_deref(),
        Some("key-two")
    );
    assert!(store.journal.iter().all(|write| matches!(write, FileWrite::ProfileAuth(_, _))));
}

#[test]
fn credential_switch_preserves_sessions_and_unmanaged_config() {
    let mut store = store();
    store.shared_config = content("custom_setting = \"keep\"\n");
    let profile = profile(642, SHARED);
    put_login(&mut store, &profile, "workspace-key");

    sync_profile_to_shared_home(&mut store, &profile);

    assert_eq!(key_in(&store.shared_auth).as_deref(), Some("workspace-key"));
    assert!(file_text(&store.shared_config).contains("custom_setting = \"keep\""));
    assert!(managed_config_ready(&store.shared_config, &product()));
    let marker = read_valid_ownership(&store.ownership).unwrap().unwrap();
    assert_eq!(marker.schema_version, OWNERSHIP_SCHEMA_VERSION);
    assert_eq!(marker.profile_key, None);
}

#[test]
fn reauthorization_updates_shared_auth_only_for_the_active_workspace() {
    let mut store = store();
    let first = profile(1, SHARED);
    let second = profile(2, SHARED);
    put_login(&mut store, &first, "first-key");
    put_login(&mut store, &second, "second-key");
    save_metadata(
        &mut store,
        &CredentialMetadata {
            version: METADATA_VERSION,
            profiles: vec![first.duplicate(), second.duplicate()],
            active_mode: AuthMode::Baijimu,
            active_profile_id: Some(first.profile_id.clone()),
            active_workspace_id: Some(first.workspace_id),
            ..metadata()
        },
    );
    sync_profile_to_shared_home(&mut store, &first);

    let renewed = commit_workspace_reauthorization(
        &mut store,
        PreparedWorkspaceReauthorization {
            profile: second.duplicate(),
            credential: "second-key-new".to_string(),
        },
        &product(),
    )
    .unwrap();
    assert_eq!(renewed.profile_id, second.profile_id);
    assert_eq!(key_in(&store.shared_auth).as_deref(), Some("first-key"));
    assert_eq!(key_in(profile_login(&store, &second)).as_deref(), Some("second-key-new"));

    commit_workspace_reauthorization(
        &mut store,
        PreparedWorkspaceReauthorization {
            profile: first,
            credential: "first-key-new".to_string(),
        },
        &product(),
    )
    .unwrap();
    assert_eq!(key_in(&store.shared_auth).as_deref(), Some("first-key-new"));
}

const PERSONAL_AUTH: &str = "{\"auth_mode\":\"chatgpt\",\"tokens\":{\"access_token\":\"personal-token\",\"account_id\":\"account-1\"}}";

#[test]
fn personal_backup_and_workspace_switch_are_independent_and_rollbackable() {
    let mut store = store();
    store.shared_auth = content(PERSONAL_AUTH);
    store.shared_config = content("model = \"personal-model\"\nmodel_provider = \"openai\"\ncustom_setting = \"keep\"\n\n[model_providers.baijimu-router]\nname = \"personal-provider\"\nbase_url = \"https://personal.invalid/v1\"\n");

    let mut loaded = load_metadata(&mut store, &product()).unwrap();
    let personal = personal_of(&loaded);
    assert_eq!(loaded.active_profile_id.as_deref(), Some(ORIGINAL_PROFILE_ID));
    assert_eq!(file_text(profile_login(&store, &personal)), PERSONAL_AUTH);

    let workspace = profile(42, SHARED);
    put_login(&mut store, &workspace, "workspace-key");
    loaded.profiles.push(workspace.duplicate());
    save_metadata(&mut store, &loaded);

    let refreshed = "{\"auth_mode\":\"chatgpt\",\"tokens\":{\"access_token\":\"personal-token-refreshed\",\"account_id\":\"account-1\"}}";
    store.shared_auth = content(refreshed);
    activate_prepared_profile(&mut store, &workspace, 10, &product()).unwrap().commit();
    assert_eq!(key_in(&store.shared_auth).as_deref(), Some("workspace-key"));
    assert!(managed_config_ready(&store.shared_config, &product()));

    let switch_back = activate_prepared_profile(&mut store, &personal, 11, &product()).unwrap();
    assert_eq!(file_text(&store.shared_auth), refreshed);
    let restored = file_text(&store.shared_config);
    assert!(restored.contains("model = \"personal-model\""));
    assert!(restored.contains("model_provider = \"openai\""));
    assert!(restored.contains("custom_setting = \"keep\""));
    assert!(restored.contains("base_url = \"https://personal.invalid/v1\""));
    assert_eq!(key_in(profile_login(&store, &workspace)).as_deref(), Some("workspace-key"));

    switch_back.rollback(&mut store);
    assert_eq!(key_in(&store.shared_auth).as_deref(), Some("workspace-key"));
    assert_eq!(
        load_metadata(&mut store, &product()).unwrap().active_profile_id,
        Some(workspace.profile_id)
    );
}

#[test]
fn creating_an_inactive_workspace_profile_does_not_mutate_live_codex_auth_or_config() {
    let mut store = store();
    let auth = "{\"auth_mode\":\"chatgpt\",\"tokens\":{\"access_token\":\"personal-token\"}}";
    let config = "model_provider = \"openai\"\ncustom_setting = \"keep\"\n";
    store.shared_auth = content(auth);
    store.shared_config = content(config);
    let workspace = profile(77, SHARED);

    initialize_workspace_files(
        &mut store,
        &workspace,
        true,
        &Some("workspace-key".to_string()),
    )
    .unwrap();

    assert_eq!(file_text(&store.shared_auth), auth);
    assert_eq!(file_text(&store.shared_config), config);
    assert_eq!(key_in(profile_login(&store, &workspace)).as_deref(), Some("workspace-key"));
}

#[test]
fn personal_keyring_profile_switches_without_copying_an_auth_file() {
    let mut store = store();
    store.shared_config =
        content("cli_auth_credentials_store = \"keyring\"\nmodel_provider = \"openai\"\n");
    let mut loaded = load_metadata(&mut store, &product()).unwrap();
    let personal = personal_of(&loaded);
    assert!(personal_uses_external_store(&store, &personal));
    assert!(matches!(profile_login(&store, &personal), FileRead::Missing));

    let workspace = profile(91, SHARED);
    put_login(&mut store, &workspace, "workspace-key");
    loaded.profiles.push(workspace.duplicate());
    save_metadata(&mut store, &loaded);
    activate_prepared_profile(&mut store, &workspace, 10, &product()).unwrap().commit();
    assert!(bytes(&store.shared_auth).is_some());

    activate_prepared_profile(&mut store, &personal, 11, &product()).unwrap().commit();
    assert!(matches!(store.shared_auth, FileRead::Missing));
    let config = file_text(&store.shared_config);
    assert!(config.contains("cli_auth_credentials_store = \"keyring\""));
    assert!(config.contains("model_provider = \"openai\""));
}

#[test]
fn user_selected_codex_home_is_fixed_but_not_owned_or_replaced_by_workspace_selection() {
    let selected = "/root/selected-codex-home";
    let mut store = store();
    store.external_home = Some(path(selected));
    store.shared_home = path(selected);
    store.shared_auth =
        content("{\"auth_mode\":\"chatgpt\",\"tokens\":{\"access_token\":\"personal-token\"}}");
    store.shared_config = content("model_provider = \"openai\"\n");

    let loaded = load_metadata(&mut store, &product()).unwrap();
    let home = default_original_codex_home(&store, &Vec::new(), &path("/root/user/.codex"));
    assert_eq!(home.text, selected);
    assert_eq!(loaded.original_codex_home_state.value, Some(selected.to_string()));
    assert!(loaded.profiles.iter().all(|profile| profile.codex_home == selected));
}

#[test]
fn clean_install_always_exposes_a_chatgpt_login_profile_without_changing_shared_files() {
    let mut store = store();

    let loaded = load_metadata(&mut store, &product()).unwrap();
    let personal = personal_of(&loaded);
    assert_eq!(personal.name, "ChatGPT 登录");
    assert_eq!(personal.credential_status, "login_required");
    assert!(loaded.active_profile_id.is_none());
    assert!(should_auto_activate_workspace_after_setup(&mut store, &product()).unwrap());
    assert!(matches!(store.shared_auth, FileRead::Missing));
    assert!(matches!(store.shared_config, FileRead::Missing));
}

#[test]
fn explicit_chatgpt_login_round_trip_preserves_sessions_and_removes_workspace_provider() {
    let mut store = store();
    store.shared_config = content("custom_setting = \"keep\"\n");
    let workspace = profile(108, SHARED);
    put_login(&mut store, &workspace, "workspace-key");
    let config = ensure_workspace_config(&store.shared_config, &product()).ok().unwrap();
    store.shared_config = FileRead::Content(config);
    store.shared_auth = FileRead::Content(workspace_auth("workspace-key"));
    save_metadata(
        &mut store,
        &CredentialMetadata {
            version: METADATA_VERSION,
            profiles: vec![workspace.duplicate()],
            active_mode: AuthMode::Baijimu,
            active_profile_id: Some(workspace.profile_id.clone()),
            active_workspace_id: Some(workspace.workspace_id),
            ..metadata()
        },
    );

    let loaded = load_metadata(&mut store, &product()).unwrap();
    let personal = personal_of(&loaded);
    prepare_profile_activation(&mut store, &personal.profile_id, &product()).unwrap();
    activate_prepared_profile(&mut store, &personal, 10, &product()).unwrap().commit();
    assert!(matches!(store.shared_auth, FileRead::Missing));
    let chatgpt_config = file_text(&store.shared_config);
    assert!(chatgpt_config.contains("forced_login_method = \"chatgpt\""));
    assert!(!chatgpt_config.contains("model_provider ="));
    assert!(!chatgpt_config.contains("baijimu-router"));
    assert!(chatgpt_config.contains("custom_setting = \"keep\""));

    let chatgpt_auth =
        "{\"auth_mode\":\"chatgpt\",\"tokens\":{\"access_token\":\"personal-token\"}}";
    store.shared_auth = content(chatgpt_auth);
    activate_prepared_profile(&mut store, &workspace, 11, &product()).unwrap().commit();
    assert_eq!(key_in(&store.shared_auth).as_deref(), Some("workspace-key"));
    activate_prepared_profile(&mut store, &personal, 12, &product()).unwrap().commit();
    assert_eq!(file_text(&store.shared_auth), chatgpt_auth);
}

fn no_discovery() -> Discovery {
    Discovery { status: Err("baijimu CLI 不存在".to_string()), workspaces: None }
}

#[test]
fn migration_and_repeated_status_loads_never_overwrite_live_chatgpt_files() {
    let mut store = store();
    let chatgpt_auth = "{\"auth_mode\":\"chatgpt\",\"tokens\":{\"access_token\":\"manual-login\"}}";
    let chatgpt_config = "forced_login_method = \"chatgpt\"\nmodel_provider = \"openai\"\ncustom_setting = \"keep\"\n";
    store.shared_auth = content(chatgpt_auth);
    store.shared_config = content(chatgpt_config);
    let workspace = profile(109, SHARED);
    put_login(&mut store, &workspace, "workspace-key");
    save_metadata(
        &mut store,
        &CredentialMetadata {
            version: 10,
            profiles: vec![workspace],
            active_mode: AuthMode::Baijimu,
            active_profile_id: Some(profile_id("prod", None, &None, 109)),
            active_workspace_id: Some(109),
            ..metadata()
        },
    );

    let first = load_metadata(&mut store, &product()).unwrap();
    let second = load_metadata(&mut store, &product()).unwrap();
    let first_state = state(&mut store, &no_discovery(), &product(), "auth", "config").unwrap();
    let second_state = state(&mut store, &no_discovery(), &product(), "auth", "config").unwrap();
    assert_eq!(first.active_mode, AuthMode::Chatgpt);
    assert_eq!(second.active_mode, AuthMode::Chatgpt);
    assert_eq!(first_state.active_mode, AuthMode::Chatgpt);
    assert_eq!(second_state.active_mode, AuthMode::Chatgpt);
    assert_eq!(file_text(&store.shared_auth), chatgpt_auth);
    assert_eq!(file_text(&store.shared_config), chatgpt_config);
    assert_eq!(
        second.profiles.iter().filter(|profile| profile.kind == AuthProfileKind::Personal).count(),
        1
    );
}

#[test]
fn v9_workspace_auth_is_not_mislabeled_as_an_original_personal_backup() {
    let mut store = store();
    let workspace = profile(88, SHARED);
    put_login(&mut store, &workspace, "workspace-key");
    store.shared_auth = FileRead::Content(workspace_auth("workspace-key"));
    save_metadata(
        &mut store,
        &CredentialMetadata {
            version: 9,
            profiles: vec![workspace.duplicate()],
            active_mode: AuthMode::Baijimu,
            active_profile_id: Some(workspace.profile_id.clone()),
            active_workspace_id: Some(workspace.workspace_id),
            ..metadata()
        },
    );

    let migrated = load_metadata(&mut store, &product()).unwrap();
    assert_eq!(migrated.version, METADATA_VERSION);
    assert_eq!(personal_of(&migrated).credential_status, "login_required");
    assert_eq!(migrated.active_profile_id, Some(workspace.profile_id));
}

#[test]
fn repeated_initialization_keeps_the_stored_credential() {
    let mut store = store();
    let workspace = profile(5, SHARED);
    let kept = "{\"OPENAI_API_KEY\":\"existing-key\",\"auth_mode\":\"apikey\",\"userField\":\"keep\"}";
    store
        .profile_auth
        .put(profile_short_key(&workspace.profile_id), content(kept));

    let credential = initialize_workspace_files(
        &mut store,
        &workspace,
        false,
        &Some("new-key".to_string()),
    )
    .unwrap();

    assert_eq!(credential, "existing-key");
    assert_eq!(file_text(profile_login(&store, &workspace)), kept);
}

#[test]
fn an_initialized_workspace_without_its_login_asks_for_reauthorization() {
    let mut store = store();
    let workspace = profile(5, SHARED);
    let error = initialize_workspace_files(
        &mut store,
        &workspace,
        false,
        &Some("new-key".to_string()),
    )
    .err()
    .unwrap();
    assert!(error.message().contains("重新授权"));
    assert!(matches!(profile_login(&store, &workspace), FileRead::Missing));
    assert!(store.journal.is_empty());
}

#[test]
fn logins_are_read_after_a_byte_order_mark() {
    let file = content("\u{feff}{\"OPENAI_API_KEY\":\"workspace-key\",\"auth_mode\":\"apikey\"}");
    assert_eq!(key_in(&file).as_deref(), Some("workspace-key"));
    assert!(read_codex_api_key(&content("\u{feff}{invalid-json")).is_err());
    assert!(read_codex_api_key(&FileRead::Unreadable).is_err());
    assert_eq!(key_in(&FileRead::Missing), None);
    let summary = auth_summary(&b"\xef\xbb\xbf{\"auth_mode\":\"chatgpt\",\"tokens\":{\"access_token\":\"t\"}}".to_vec());
    assert!(summary.is_ok());
}

#[test]
fn a_written_login_holds_the_credential_and_its_kind() {
    let written = workspace_auth("workspace-\"key\"");
    let value: serde_json::Value = serde_json::from_slice(&written).unwrap();
    assert_eq!(value["OPENAI_API_KEY"].as_str(), Some("workspace-\"key\""));
    assert_eq!(value["auth_mode"].as_str(), Some("apikey"));
    assert_eq!(key_in(&FileRead::Content(written)).as_deref(), Some("workspace-\"key\""));
}

#[test]
fn short_keys_are_stable_and_hold_no_identifiers() {
    let id = profile_id("prod", Some(25), &Some("device-a".to_string()), 1390);
    let key = profile_short_key(&id);
    assert_eq!(key, profile_short_key(&id));
    assert_eq!(key.len(), 24);
    assert!(key.bytes().all(|byte| byte.is_ascii_hexdigit()));
    assert_ne!(
        key,
        profile_short_key(&profile_id("prod", Some(25), &Some("device-b".to_string()), 1390))
    );
    assert_eq!(profile_short_key("abc"), "ba7816bf8f01cfea414140de");
    assert_eq!(sanitize_path_segment("a/b c"), sanitize_path_segment("a/b c"));
    assert!(!sanitize_path_segment("../../x").contains('/'));
}

#[test]
fn settings_of_a_login_are_captured_and_come_back() {
    let before = content("model = \"personal\" # mine\nkeep = 1\n\n[model_providers.baijimu-router]\nname = \"own\"\n");
    let snapshot = capture_auth_config(&before, &product()).ok().unwrap();
    assert_eq!(snapshot.model.as_deref(), Some("personal"));
    assert_eq!(snapshot.model_provider, None);
    assert!(snapshot.router_provider_item.is_some());
    let managed = ensure_workspace_config(&before, &product()).ok().unwrap();
    let back = apply_auth_config(&FileRead::Content(managed), &snapshot, &product()).ok().unwrap();
    let text = String::from_utf8(back).unwrap();
    assert!(text.contains("model = \"personal\""));
    assert!(text.contains("keep = 1"));
    assert!(text.contains("name = \"own\""));
    assert!(!text.contains("model_provider ="));
}

#[test]
fn unreadable_settings_are_an_error_and_stay_as_they_are() {
    let broken = content("model = = 1");
    assert!(ensure_workspace_config(&broken, &product()).is_err());
    assert!(capture_auth_config(&broken, &product()).is_err());
    assert!(!managed_config_ready(&broken, &product()));
}

#[test]
fn settings_that_are_ready_stay_as_they_are() {
    let first = ensure_workspace_config(&FileRead::Missing, &product()).ok().unwrap();
    let again = ensure_workspace_config(&FileRead::Content(first.clone()), &product()).ok().unwrap();
    assert_eq!(again, first);
}

fn authenticated(ids: Vec<u64>) -> Option<AuthStatus> {
    Some(AuthStatus {
        authenticated: true,
        base_url: "https://api.baijimu.com".to_string(),
        current_workspace_id: Some(642),
        workspace_ids: ids,
    })
}

fn named(id: u64, name: &str) -> Option<Workspace> {
    Some(Workspace { id, name: name.to_string() })
}

#[test]
fn a_workspace_is_initialized_once_and_its_credential_used_again() {
    let mut store = store();
    let missing = initialize_workspace_profile(
        &mut store,
        642,
        &authenticated(vec![642]),
        &named(642, "研发"),
        &None,
        &product(),
    );
    assert!(missing.is_err());
    let first = initialize_workspace_profile(
        &mut store,
        642,
        &authenticated(vec![642]),
        &named(642, "研发"),
        &Some("issued-key".to_string()),
        &product(),
    )
    .ok()
    .unwrap();
    assert_eq!(first.credential, "issued-key");
    assert_eq!(first.profile.workspace_id, 642);
    assert_eq!(first.profile.workspace_name, "研发");
    let again = initialize_workspace_profile(
        &mut store,
        642,
        &authenticated(vec![642]),
        &named(642, "研发"),
        &None,
        &product(),
    )
    .ok()
    .unwrap();
    assert_eq!(again.credential, "issued-key");
    assert!(matches!(store.shared_auth, FileRead::Missing));
    assert!(codex_ready_for_workspace(&mut store, 642, &product()));
    assert!(!codex_ready_for_workspace(&mut store, 643, &product()));
    assert_eq!(router_credential_for_workspace(&mut store, 642, &product()).unwrap(), "issued-key");
    assert!(router_credential_for_workspace(&mut store, 643, &product()).is_err());
}

#[test]
fn an_unauthorized_workspace_is_refused_and_nothing_changes() {
    let mut store = store();
    let refused = initialize_workspace_profile(
        &mut store,
        642,
        &authenticated(vec![1]),
        &named(642, "研发"),
        &Some("issued-key".to_string()),
        &product(),
    );
    assert!(refused.is_err());
    assert!(store.journal.is_empty());
    let zero = initialize_workspace_profile(
        &mut store,
        0,
        &authenticated(vec![1]),
        &named(1, "研发"),
        &Some("issued-key".to_string()),
        &product(),
    );
    assert!(zero.is_err());
    assert!(store.journal.is_empty());
}

#[test]
fn setup_puts_the_first_workspace_in_effect() {
    let mut store = store();
    let prepared = initialize_workspace_profile(
        &mut store,
        642,
        &authenticated(vec![642]),
        &named(642, "研发"),
        &Some("issued-key".to_string()),
        &product(),
    )
    .ok()
    .unwrap();
    let auto = should_auto_activate_workspace_after_setup(&mut store, &product()).unwrap();
    assert!(auto);
    finalize_workspace_setup(&mut store, &prepared.profile, auto, 99, &product()).unwrap();
    assert_eq!(key_in(&store.shared_auth).as_deref(), Some("issued-key"));
    assert!(managed_config_ready(&store.shared_config, &product()));
    let loaded = load_metadata(&mut store, &product()).unwrap();
    assert_eq!(loaded.active_mode, AuthMode::Baijimu);
    assert_eq!(loaded.active_workspace_id, Some(642));
    assert!(!should_auto_activate_workspace_after_setup(&mut store, &product()).unwrap());
    assert!(read_valid_ownership(&store.ownership).unwrap().is_some());
}

#[test]
fn reauthorization_needs_a_new_credential() {
    let mut store = store();
    initialize_workspace_profile(
        &mut store,
        642,
        &authenticated(vec![642]),
        &named(642, "研发"),
        &Some("issued-key".to_string()),
        &product(),
    )
    .ok()
    .unwrap();
    assert!(prepare_workspace_reauthorization(
        &mut store,
        642,
        &authenticated(vec![642]),
        &named(642, "研发"),
        &None,
        &product(),
    )
    .is_err());
    let prepared = prepare_workspace_reauthorization(
        &mut store,
        642,
        &authenticated(vec![642]),
        &named(642, "研发"),
        &Some("second-key".to_string()),
        &product(),
    )
    .ok()
    .unwrap();
    assert_eq!(prepared.credential, "second-key");
    commit_workspace_reauthorization(&mut store, prepared, &product()).unwrap();
    assert_eq!(router_credential_for_workspace(&mut store, 642, &product()).unwrap(), "second-key");
}

#[test]
fn a_managed_user_level_setting_is_put_back_only_where_it_was_noted() {
    let mut store = store();
    store.external_home = Some(path("/root/data/profile-homes/abc"));
    let loaded = load_metadata(&mut store, &product()).unwrap();
    let shown = legacy_global_codex_home_state(&store, &loaded);
    assert!(shown.restore_required);
    assert!(shown.can_restore);
    assert_eq!(shown.restore_value, None);
    match restore_legacy_global_codex_home(&mut store, &product()).unwrap() {
        LegacyRestore::Restore(value, noted) => {
            assert_eq!(value, None);
            record_legacy_global_codex_home_restored(&mut store, noted, 55);
        }
        LegacyRestore::NotRequired => panic!("a managed setting has to be put back"),
    }
    store.external_home = None;
    let after = load_metadata(&mut store, &product()).unwrap();
    assert_eq!(after.legacy_global_codex_home_restored_at_epoch_seconds, Some(55));
    assert!(matches!(
        restore_legacy_global_codex_home(&mut store, &product()).unwrap(),
        LegacyRestore::NotRequired
    ));
}

#[test]
fn the_users_own_home_is_never_a_managed_one() {
    let mut store = store();
    store.external_home = Some(path("/root/data/profile-homes/abc"));
    let noted = vec![path("/root/data/profile-homes/other"), path("/root/mine")];
    let usual = path("/root/user/.codex");
    assert_eq!(default_original_codex_home(&store, &noted, &usual).text, "/root/mine");
    assert_eq!(
        default_original_codex_home(&store, &Vec::new(), &usual).text,
        "/root/user/.codex"
    );
    store.external_home = None;
    assert_eq!(default_original_codex_home(&store, &noted, &usual).text, "/root/user/.codex");
}

#[test]
fn the_noted_home_is_read_from_the_record() {
    let file = content("\u{feff}{\"version\":3,\"originalCodexHomeState\":{\"captured\":true,\"value\":\"/root/mine\"}}");
    assert_eq!(captured_home_text(&file).as_deref(), Some("/root/mine"));
    assert_eq!(captured_home_text(&content("{\"originalCodexHomeState\":{\"value\":null}}")), None);
    assert_eq!(captured_home_text(&content("not json")), None);
    assert_eq!(captured_home_text(&FileRead::Missing), None);
    assert_eq!(captured_home_text(&FileRead::Unreadable), None);
}

#[test]
fn a_failed_switch_changes_no_shared_file() {
    let mut store = store();
    store.shared_auth = content(PERSONAL_AUTH);
    store.shared_config = content("model_provider = \"openai\"\n");
    let mut loaded = load_metadata(&mut store, &product()).unwrap();
    let workspace = profile(3, SHARED);
    loaded.profiles.push(workspace.duplicate());
    save_metadata(&mut store, &loaded);
    let refused = activate_prepared_profile(&mut store, &profile(4, SHARED), 10, &product());
    assert!(refused.is_err());
    assert_eq!(file_text(&store.shared_auth), PERSONAL_AUTH);
    assert_eq!(file_text(&store.shared_config), "model_provider = \"openai\"\n");
    let blank = prepare_profile_activation(&mut store, "  ", &product());
    assert!(blank.is_err());
}

#[test]
fn an_unreadable_record_is_an_error_and_stays() {
    let mut store = store();
    store.metadata = Stored::Invalid;
    assert!(load_metadata(&mut store, &product()).is_err());
    assert!(store.journal.is_empty());
    store.metadata = Stored::Unreadable;
    assert!(load_metadata(&mut store, &product()).is_err());
    assert!(!codex_ready_for_workspace(&mut store, 1, &product()));
}

#[test]
fn an_old_record_is_taken_over_and_removed() {
    let mut store = store();
    let mut old = CredentialMetadata { version: 1, active_workspace_id: Some(12), ..metadata() };
    old.profiles.push(CredentialProfile {
        profile_id: String::new(),
        environment: String::new(),
        workspace_name: "测试工作区".to_string(),
        ..profile(12, "")
    });
    store.legacy_metadata = Stored::Value(old);
    let loaded = load_metadata(&mut store, &product()).unwrap();
    assert_eq!(loaded.version, METADATA_VERSION);
    assert!(loaded.legacy_shared_auth_acl_cleanup_required);
    assert!(matches!(store.legacy_metadata, Stored::Missing));
    assert!(matches!(store.metadata, Stored::Value(_)));
    assert!(loaded.profiles.iter().any(|item| item.profile_id == profile_id("prod", None, &None, 12)));
}

#[test]
fn foreign_ownership_is_refused() {
    let marker = CodexHomeOwnership {
        schema_version: 2,
        owner: "someone-else".to_string(),
        initialized_at_epoch_seconds: 1,
        managed_files: Vec::new(),
        profile_key: None,
    };
    assert!(read_valid_ownership(&Stored::Value(marker)).is_err());
    assert!(read_valid_ownership(&Stored::Invalid).is_err());
    assert!(read_valid_ownership(&Stored::Missing).unwrap().is_none());
}

#[test]
fn state_shows_profiles_and_workspaces() {
    let mut store = store();
    initialize_workspace_profile(
        &mut store,
        642,
        &authenticated(vec![642, 1390]),
        &named(642, "研发"),
        &Some("issued-key".to_string()),
        &product(),
    )
    .ok()
    .unwrap();
    let discovery = Discovery {
        status: Ok(authenticated(vec![642, 1390]).unwrap()),
        workspaces: Some(Ok(vec![
            Workspace { id: 642, name: "研发".to_string() },
            Workspace { id: 1390, name: "产品".to_string() },
        ])),
    };
    let shown = state(&mut store, &discovery, &product(), "/auth.json", "/config.toml").unwrap();
    assert_eq!(shown.current_workspace_id, Some(642));
    assert_eq!(shown.codex_auth_path, "/auth.json");
    assert_eq!(shown.codex_config_path, "/config.toml");
    assert_eq!(shown.workspaces.len(), 2);
    assert!(shown.workspaces.iter().all(|option| option.authorized));
    assert!(shown.workspaces.iter().any(|option| option.workspace_id == 642 && option.configured));
    assert!(shown.workspaces.iter().any(|option| option.workspace_id == 1390 && !option.configured));
    assert_eq!(shown.discovery_warning, None);
    let offline = state(&mut store, &no_discovery(), &product(), "a", "c").unwrap();
    assert!(offline.discovery_warning.is_some());
}

#[test]
fn the_default_model_is_the_products() {
    assert_eq!(default_model(&product()), "gpt-5.5");
    let unset = OriginalCodexHomeState {
        captured: false,
        value: None,
        capture_source: String::new(),
    };
    assert!(!unset.captured);
}

#[test]
fn a_credential_in_effect_is_not_written_again() {
    let mut store = store();
    let first = profile(1, SHARED);
    put_login(&mut store, &first, "first-key");
    save_metadata(
        &mut store,
        &CredentialMetadata {
            version: METADATA_VERSION,
            profiles: vec![first.duplicate()],
            active_mode: AuthMode::Baijimu,
            active_profile_id: Some(first.profile_id.clone()),
            active_workspace_id: Some(first.workspace_id),
            ..metadata()
        },
    );
    store.shared_auth = content("{ \"OPENAI_API_KEY\": \"first-key\", \"note\": 1 }");

    commit_workspace_reauthorization(
        &mut store,
        PreparedWorkspaceReauthorization { profile: first, credential: "first-key".to_string() },
        &product(),
    )
    .unwrap();

    assert_eq!(
        file_text(&store.shared_auth),
        "{ \"OPENAI_API_KEY\": \"first-key\", \"note\": 1 }"
    );
    assert!(!store.journal.iter().any(|write| matches!(write, FileWrite::SharedAuth(_))));
}

#[test]
fn loading_moves_every_profile_and_its_login() {
    let mut store = store();
    let first = profile(1, "/root/old/first");
    let second = profile(2, "/root/old/second");
    store.previous_homes.put(
        "/root/old/first".to_string(),
        PreviousHome {
            path: path("/root/old/first"),
            auth: FileRead::Content(workspace_auth("first-key")),
        },
    );
    store.previous_homes.put(
        "/root/old/second".to_string(),
        PreviousHome { path: path("/root/old/second"), auth: FileRead::Missing },
    );
    store.metadata = Stored::Value(CredentialMetadata {
        version: 8,
        profiles: vec![first.duplicate(), second.duplicate()],
        ..metadata()
    });

    let loaded = load_metadata(&mut store, &product()).unwrap();

    assert!(loaded.profiles.iter().all(|profile| profile.codex_home == SHARED));
    assert_eq!(key_in(profile_login(&store, &first)).as_deref(), Some("first-key"));
    assert!(matches!(profile_login(&store, &second), FileRead::Missing));
    assert!(matches!(store.shared_auth, FileRead::Missing));
}

fn merged(text: &str) -> String {
    String::from_utf8(ensure_workspace_config(&content(text), &product()).ok().unwrap()).unwrap()
}

#[test]
fn inline_providers_are_kept() {
    let written = merged(
        "model_providers = { other = { base_url = \"https://other.invalid\" }, \"baijimu-router\" = { query = \"kept\", name = \"old\" } }\nkeep = 1\n",
    );
    assert!(managed_config_ready(&content(&written), &product()));
    assert!(written.contains("https://other.invalid"));
    assert!(written.contains("query = \"kept\""));
    assert!(written.contains("keep = 1"));
    assert!(!written.contains("\"old\""));
}

#[test]
fn a_value_with_a_comment_makes_room_for_the_providers() {
    for text in [
        "model_providers = 3 # none yet\nkeep = true\n",
        "[model_providers]\nbaijimu-router = \"x\" # no table\nother = 1\n",
    ] {
        let written = merged(text);
        assert!(managed_config_ready(&content(&written), &product()));
        assert_eq!(text.contains("keep"), written.contains("keep = true"));
        assert_eq!(text.contains("other"), written.contains("other = 1"));
    }
}

#[test]
fn settings_are_written_anew_and_then_stay() {
    let once = merged("# mine\n[model_providers.other]\nname = \"o\" # note\n");
    assert_eq!(merged(&once), once);
    let marked = format!("\u{feff}{}", once.replace("\"file\"", "'file' # kept here"));
    assert_eq!(merged(&marked), once);
    let longer = format!("{once}\n# more\n[tail]\nx = 1   # wide\n");
    assert_eq!(merged(&longer), longer);
}

#[test]
fn what_is_not_managed_keeps_its_layout() {
    let written = merged(
        "# head\n  first   =   1 # one\nmodel = 'mine' # goes\n\n[ tools ]  # two\n\"q\" = [ 1,\n  2 ] # three\n\n[model_providers]\nother = { name = 'o' } # four\n# tail\n",
    );
    for kept in [
        "# head\n  first   =   1 # one\n",
        "[ tools ]  # two\n\"q\" = [ 1,\n  2 ] # three\n",
        "[model_providers]\nother = { name = 'o' } # four\n",
        "# tail\n",
    ] {
        assert!(written.contains(kept));
    }
    assert!(!written.contains("goes"));
    assert!(written.find("# one").unwrap() < written.find("# two").unwrap());
    assert!(written.find("# two").unwrap() < written.find("# four").unwrap());
}

#[test]
fn a_header_that_is_new_may_change_another_once_more() {
    let once = merged("[model_providers.baijimu-router . headers]\nh = \"1\"\n");
    assert!(managed_config_ready(&content(&once), &product()));
    assert!(once.contains("[model_providers.baijimu-router . headers]"));
    let twice = merged(&once);
    assert!(managed_config_ready(&content(&twice), &product()));
    assert!(twice.contains("[model_providers.baijimu-router. headers]"));
    assert_eq!(merged(&twice), twice);
}

#[test]
fn a_restored_provider_is_written_even_where_it_cannot_be_read() {
    let before = content("[first]\nx = 1\n\n[second]\ny = 1\n\n[model_providers]\nz = 1\n");
    let mut snapshot = capture_auth_config(&before, &product()).ok().unwrap();
    snapshot.router_provider_item = Some(
        "[model_providers]\nbaijimu-router.name = \"x\"\n\n[model_providers.baijimu-router.headers]\nh = \"1\"\n".to_string(),
    );
    let written = apply_auth_config(&before, &snapshot, &product()).ok().unwrap();
    let text = String::from_utf8(written.clone()).unwrap();
    assert!(text.contains("baijimu-router.name = \"x\""));
    assert!(text.find(".headers]").unwrap() < text.find("[model_providers]").unwrap());
    assert!(capture_auth_config(&FileRead::Content(written), &product()).is_err());
}

#[test]
fn dotted_providers_stay_dotted() {
    let written = merged("model_providers.other.name = \"o\"\n");
    assert!(managed_config_ready(&content(&written), &product()));
    assert!(written.contains("model_providers.other.name = \"o\"\n"));
}

#[test]
fn a_login_that_is_in_effect_is_not_written_by_a_switch() {
    let mut store = store();
    let workspace = profile(42, SHARED);
    sync_profile_to_shared_home_for(&mut store, &workspace);
    let loaded = load_metadata(&mut store, &product()).unwrap();
    store.journal.clear();
    let before = file_text(&store.shared_auth);
    let transaction = apply_profile_to_home(
        &mut store,
        loaded,
        &workspace,
        &Some(workspace.profile_id.clone()),
        5,
        &product(),
    )
    .unwrap();
    assert_eq!(transaction.commit().profile_id, workspace.profile_id);
    assert_eq!(file_text(&store.shared_auth), before);
    assert!(!store.journal.iter().any(|write| matches!(write, FileWrite::SharedAuth(_))));
    assert!(store.journal.iter().any(|write| matches!(write, FileWrite::ProfileAuth(_, _))));
}

/// Records the profile and makes its login and its settings the shared ones.
fn sync_profile_to_shared_home_for(store: &mut CredentialStore, workspace: &CredentialProfile) {
    put_login(store, workspace, "workspace-key");
    sync_profile_to_shared_home(store, workspace);
    let mut record = metadata();
    record.profiles.push(workspace.duplicate());
    save_metadata(store, &record);
}

#[test]
fn a_directory_that_belongs_to_no_profile_is_not_stored_for_one() {
    let mut store = store();
    let workspace = profile(42, SHARED);
    put_login(&mut store, &workspace, "workspace-key");
    let mut record = metadata();
    record.profiles.push(workspace.duplicate());
    save_metadata(&mut store, &record);
    store.shared_auth = content("{\"OPENAI_API_KEY\":\"other\"}");
    let loaded = load_metadata(&mut store, &product()).unwrap();
    store.journal.clear();
    apply_profile_to_home(&mut store, loaded, &workspace, &None, 5, &product()).unwrap().commit();
    assert_eq!(key_in(&store.shared_auth).as_deref(), Some("workspace-key"));
    assert!(!store.journal.iter().any(|write| matches!(write, FileWrite::ProfileAuth(_, _))));
    assert_eq!(key_in(profile_login(&store, &workspace)).as_deref(), Some("workspace-key"));
}

#[test]
fn marked_directories_of_profiles_become_workspaces() {
    let mut store = store();
    let mut record = metadata();
    record.profiles.push(profile(7, "/root/data/profile-homes/a"));
    assert!(list_recorded_profiles(&store).is_empty());
    store.legacy_metadata = Stored::Value(record);
    let listed = list_recorded_profiles(&store);
    assert_eq!(listed.len(), 1);
    let home = path("/root/data/profile-homes/a");
    commit_shared_home_ownership(&mut store, 9);
    let found = legacy_workspace_candidate(&store, &listed[0], &home, &store.ownership).unwrap();
    assert_eq!(found.profile_id, listed[0].profile_id);
    assert_eq!(found.workspace_name, "workspace-7");
    assert_eq!(found.codex_home, "/root/data/profile-homes/a");
    assert_eq!(found.initialized_at_epoch_seconds, 9);
    let outside = path("/root/elsewhere/a");
    assert!(legacy_workspace_candidate(&store, &listed[0], &outside, &store.ownership).is_none());
    assert!(legacy_workspace_candidate(&store, &listed[0], &home, &Stored::Missing).is_none());
    assert!(legacy_workspace_candidate(&store, &listed[0], &home, &Stored::Invalid).is_none());
}

#[test]
fn restoring_keeps_inline_providers() {
    let before = content("model = \"mine\"\nmodel_providers = { other = { name = \"o\" } }\n");
    let snapshot = capture_auth_config(&before, &product()).ok().unwrap();
    assert_eq!(snapshot.router_provider_item, None);
    let managed = ensure_workspace_config(&before, &product()).ok().unwrap();
    let back = apply_auth_config(&FileRead::Content(managed), &snapshot, &product()).ok().unwrap();
    let back = String::from_utf8(back).unwrap();
    assert!(back.contains("model = \"mine\""));
    assert!(back.contains("name = \"o\""));
    assert!(!back.contains("baijimu-router"));
    assert!(!back.contains("forced_login_method"));
}

#[test]
fn switching_there_and_back_brings_the_settings_back() {
    let mut store = store();
    store.shared_auth = content(PERSONAL_AUTH);
    store.shared_config = content(
        "model = \"mine\"\nkeep = [1, 2]\n\n[model_providers]\nother = { name = \"o\" }\nbaijimu-router = { name = \"own\", base_url = \"https://own.invalid\" }\n",
    );
    let mut loaded = load_metadata(&mut store, &product()).unwrap();
    let personal = personal_of(&loaded);
    let before = capture_auth_config(&store.shared_config, &product()).ok().unwrap();
    let workspace = profile(42, SHARED);
    put_login(&mut store, &workspace, "workspace-key");
    loaded.profiles.push(workspace.duplicate());
    save_metadata(&mut store, &loaded);

    activate_prepared_profile(&mut store, &workspace, 10, &product()).unwrap().commit();
    assert!(managed_config_ready(&store.shared_config, &product()));
    assert!(file_text(&store.shared_config).contains("other = { name = \"o\" }"));
    activate_prepared_profile(&mut store, &personal, 11, &product()).unwrap().commit();

    let after = capture_auth_config(&store.shared_config, &product()).ok().unwrap();
    assert_eq!(after.model.as_deref(), Some("mine"));
    assert_eq!(after.model_provider, before.model_provider);
    assert_eq!(after.forced_login_method, None);
    assert_eq!(after.cli_auth_credentials_store, None);
    let text = file_text(&store.shared_config);
    assert!(text.contains("https://own.invalid") && text.contains("\"own\""));
    assert!(text.contains("other = { name = \"o\" }") && text.contains("keep = [1, 2]"));
    assert!(!text.contains("router.baijimu.com"));
    assert_eq!(file_text(&store.shared_auth), PERSONAL_AUTH);
    assert_eq!(key_in(profile_login(&store, &workspace)).as_deref(), Some("workspace-key"));
    let recorded = load_metadata(&mut store, &product()).unwrap();
    assert_eq!(recorded.active_profile_id, Some(personal.profile_id));
    assert_eq!(recorded.active_mode, AuthMode::Chatgpt);
}

#[test]
fn profiles_before_an_unreadable_login_are_moved() {
    let mut store = store();
    let mut record = metadata();
    record.profiles.push(profile(1, "/old/one"));
    record.profiles.push(profile(2, "/old/two"));
    record.profiles.push(profile(3, "/old/three"));
    store.legacy_profile_auth.put(
        profile_short_key(&record.profiles[1].profile_id),
        FileRead::Unreadable,
    );
    assert!(migrate_profiles_to_shared_home(&mut store, &mut record).is_err());
    assert_eq!(record.profiles[0].codex_home, SHARED);
    assert_eq!(record.profiles[1].codex_home, "/old/two");
    assert_eq!(record.profiles[2].codex_home, "/old/three");
}

#[test]
fn the_shown_mode_stays_and_the_shared_files_too() {
    let mut store = store();
    store.shared_auth = content(PERSONAL_AUTH);
    store.shared_config = content("model = \"mine\"\n");
    let shown = state(&mut store, &no_discovery(), &product(), "a", "c").unwrap();
    let again = state(&mut store, &no_discovery(), &product(), "a", "c").unwrap();
    assert_eq!(shown.active_mode, AuthMode::Chatgpt);
    assert_eq!(shown.active_mode, again.active_mode);
    assert_eq!(file_text(&store.shared_auth), PERSONAL_AUTH);
    assert_eq!(file_text(&store.shared_config), "model = \"mine\"\n");
    store.shared_config = FileRead::Unreadable;
    assert!(state(&mut store, &no_discovery(), &product(), "a", "c").is_err());
    assert_eq!(file_text(&store.shared_auth), PERSONAL_AUTH);
}
