//! The values that the credential functions take and give.
use crate::codex_path::{CodexPath, CodexPathView};
use crate::duplicate::Duplicate;
use crate::product_config::ProductConfig;
use vstd::prelude::*;

verus! {

/// The model that new profiles are configured with.
pub fn default_model(product: &ProductConfig) -> (res: String)
    ensures
        res@ == product.default_model@,
{
    product.default_model.clone()
}

/// Which kind of authorization is in effect.
#[derive(Debug, Clone, Copy, PartialEq, Eq, Structural)]
pub enum AuthMode {
    /// A ChatGPT login.
    Chatgpt,
    /// The credential of a workspace.
    Baijimu,
}

/// The kind of an authorization profile.
#[derive(Debug, Clone, Copy, PartialEq, Eq, Structural)]
pub enum AuthProfileKind {
    /// A login of the user's own.
    Personal,
    /// The credential of a workspace.
    Baijimu,
}

/// The mode that a profile of this kind puts in effect.
pub open spec fn mode_of(kind: AuthProfileKind) -> AuthMode {
    match kind {
        AuthProfileKind::Personal => AuthMode::Chatgpt,
        AuthProfileKind::Baijimu => AuthMode::Baijimu,
    }
}

/// The mode that a profile of this kind puts in effect.
pub fn auth_mode(kind: AuthProfileKind) -> (res: AuthMode)
    ensures
        res == mode_of(kind),
{
    match kind {
        AuthProfileKind::Personal => AuthMode::Chatgpt,
        AuthProfileKind::Baijimu => AuthMode::Baijimu,
    }
}

/// An authorization profile.
#[derive(Debug)]
pub struct CredentialProfile {
    /// What the profile is found by.
    pub profile_id: String,
    /// The kind of the profile.
    pub kind: AuthProfileKind,
    /// The name that is shown.
    pub name: String,
    /// The environment that the profile belongs to.
    pub environment: String,
    /// The user, where known.
    pub user_id: Option<u64>,
    /// The client, where known.
    pub client_id: Option<String>,
    /// The workspace; zero for a personal profile.
    pub workspace_id: u64,
    /// The name of the workspace.
    pub workspace_name: String,
    /// The model that the profile is configured with.
    pub model: String,
    /// When the profile was last put in effect.
    pub activated_at_epoch_seconds: u64,
    /// The state directory of the profile.
    pub codex_home: String,
    /// What is known of its credential.
    pub credential_status: String,
}

/// The view of `CredentialProfile`: the same fields with their texts as characters.
pub struct CredentialProfileView {
    pub profile_id: Seq<char>,
    pub kind: AuthProfileKind,
    pub name: Seq<char>,
    pub environment: Seq<char>,
    pub user_id: Option<u64>,
    pub client_id: Option<Seq<char>>,
    pub workspace_id: u64,
    pub workspace_name: Seq<char>,
    pub model: Seq<char>,
    pub activated_at_epoch_seconds: u64,
    pub codex_home: Seq<char>,
    pub credential_status: Seq<char>,
}

impl DeepView for CredentialProfile {
    type V = CredentialProfileView;

    open spec fn deep_view(&self) -> CredentialProfileView {
        CredentialProfileView {
            profile_id: self.profile_id@,
            kind: self.kind,
            name: self.name@,
            environment: self.environment@,
            user_id: self.user_id.deep_view(),
            client_id: self.client_id.deep_view(),
            workspace_id: self.workspace_id,
            workspace_name: self.workspace_name@,
            model: self.model@,
            activated_at_epoch_seconds: self.activated_at_epoch_seconds,
            codex_home: self.codex_home@,
            credential_status: self.credential_status@,
        }
    }
}

impl Duplicate for CredentialProfile {
    fn duplicate(&self) -> (res: Self) {
        CredentialProfile {
            profile_id: self.profile_id.duplicate(),
            kind: self.kind,
            name: self.name.duplicate(),
            environment: self.environment.duplicate(),
            user_id: self.user_id.duplicate(),
            client_id: self.client_id.duplicate(),
            workspace_id: self.workspace_id,
            workspace_name: self.workspace_name.duplicate(),
            model: self.model.duplicate(),
            activated_at_epoch_seconds: self.activated_at_epoch_seconds,
            codex_home: self.codex_home.duplicate(),
            credential_status: self.credential_status.duplicate(),
        }
    }
}

/// A workspace that can be chosen.
#[derive(Debug)]
pub struct WorkspaceOption {
    /// The workspace.
    pub workspace_id: u64,
    /// The name that is shown.
    pub name: String,
    /// Whether this device is authorized for it.
    pub authorized: bool,
    /// Whether a credential for it is stored.
    pub configured: bool,
    /// The users whose profiles belong to it, in ascending order.
    pub user_ids: Vec<u64>,
}

/// The view of `WorkspaceOption`: the same fields with their texts as characters.
pub struct WorkspaceOptionView {
    pub workspace_id: u64,
    pub name: Seq<char>,
    pub authorized: bool,
    pub configured: bool,
    pub user_ids: Seq<u64>,
}

impl DeepView for WorkspaceOption {
    type V = WorkspaceOptionView;

    open spec fn deep_view(&self) -> WorkspaceOptionView {
        WorkspaceOptionView {
            workspace_id: self.workspace_id,
            name: self.name@,
            authorized: self.authorized,
            configured: self.configured,
            user_ids: self.user_ids.deep_view(),
        }
    }
}

impl Duplicate for WorkspaceOption {
    fn duplicate(&self) -> (res: Self) {
        WorkspaceOption {
            workspace_id: self.workspace_id,
            name: self.name.duplicate(),
            authorized: self.authorized,
            configured: self.configured,
            user_ids: self.user_ids.duplicate(),
        }
    }
}

/// What the user-level setting was before it was ever managed.
#[derive(Debug)]
pub struct OriginalCodexHomeState {
    /// Whether it has been recorded.
    pub captured: bool,
    /// The recorded value; nothing where it was unset.
    pub value: Option<String>,
    /// Where the recorded value came from.
    pub capture_source: String,
}

/// The view of `OriginalCodexHomeState`: the same fields with their texts as characters.
pub struct OriginalCodexHomeStateView {
    pub captured: bool,
    pub value: Option<Seq<char>>,
    pub capture_source: Seq<char>,
}

impl DeepView for OriginalCodexHomeState {
    type V = OriginalCodexHomeStateView;

    open spec fn deep_view(&self) -> OriginalCodexHomeStateView {
        OriginalCodexHomeStateView {
            captured: self.captured,
            value: self.value.deep_view(),
            capture_source: self.capture_source@,
        }
    }
}

impl Duplicate for OriginalCodexHomeState {
    fn duplicate(&self) -> (res: Self) {
        OriginalCodexHomeState {
            captured: self.captured,
            value: self.value.duplicate(),
            capture_source: self.capture_source.duplicate(),
        }
    }
}

/// Whether the user-level setting still points into a managed directory.
#[derive(Debug)]
pub struct LegacyGlobalCodexHomeState {
    /// Whether it does.
    pub restore_required: bool,
    /// Whether the value from before is known.
    pub can_restore: bool,
    /// The current value.
    pub current_value: Option<String>,
    /// The value from before.
    pub restore_value: Option<String>,
    /// When it was last put back.
    pub restored_at_epoch_seconds: Option<u64>,
}

/// The view of `LegacyGlobalCodexHomeState`: the same fields with their texts as characters.
pub struct LegacyGlobalCodexHomeStateView {
    pub restore_required: bool,
    pub can_restore: bool,
    pub current_value: Option<Seq<char>>,
    pub restore_value: Option<Seq<char>>,
    pub restored_at_epoch_seconds: Option<u64>,
}

impl DeepView for LegacyGlobalCodexHomeState {
    type V = LegacyGlobalCodexHomeStateView;

    open spec fn deep_view(&self) -> LegacyGlobalCodexHomeStateView {
        LegacyGlobalCodexHomeStateView {
            restore_required: self.restore_required,
            can_restore: self.can_restore,
            current_value: self.current_value.deep_view(),
            restore_value: self.restore_value.deep_view(),
            restored_at_epoch_seconds: self.restored_at_epoch_seconds.deep_view(),
        }
    }
}

impl Duplicate for LegacyGlobalCodexHomeState {
    fn duplicate(&self) -> (res: Self) {
        LegacyGlobalCodexHomeState {
            restore_required: self.restore_required,
            can_restore: self.can_restore,
            current_value: self.current_value.duplicate(),
            restore_value: self.restore_value.duplicate(),
            restored_at_epoch_seconds: self.restored_at_epoch_seconds.duplicate(),
        }
    }
}

/// Everything that is shown about authorizations.
#[derive(Debug)]
pub struct CredentialManagerState {
    /// The mode in effect.
    pub active_mode: AuthMode,
    /// The current workspace of the platform client.
    pub current_workspace_id: Option<u64>,
    /// The workspace whose credential is in effect.
    pub active_workspace_id: Option<u64>,
    /// Whether the active profile is usable as it stands.
    pub codex_configured: bool,
    /// The status of the credential in effect.
    pub credential_status: String,
    /// The profile in effect.
    pub active_profile: Option<CredentialProfile>,
    /// All profiles.
    pub profiles: Vec<CredentialProfile>,
    /// All workspaces that can be chosen.
    pub workspaces: Vec<WorkspaceOption>,
    /// Why workspaces could not be discovered.
    pub discovery_warning: Option<String>,
    /// What the user-level setting was before.
    pub original_codex_home_state: OriginalCodexHomeState,
    /// The shared state directory.
    pub original_codex_home: String,
    /// The state directory in effect.
    pub active_codex_home: String,
    /// The user-level setting.
    pub external_codex_home: Option<String>,
    /// Whether that setting is a managed leftover.
    pub legacy_global_codex_home: LegacyGlobalCodexHomeState,
    /// The login file in effect.
    pub codex_auth_path: String,
    /// The configuration file in effect.
    pub codex_config_path: String,
}

/// The view of `CredentialManagerState`: the same fields with their texts as characters.
pub struct CredentialManagerStateView {
    pub active_mode: AuthMode,
    pub current_workspace_id: Option<u64>,
    pub active_workspace_id: Option<u64>,
    pub codex_configured: bool,
    pub credential_status: Seq<char>,
    pub active_profile: Option<CredentialProfileView>,
    pub profiles: Seq<CredentialProfileView>,
    pub workspaces: Seq<WorkspaceOptionView>,
    pub discovery_warning: Option<Seq<char>>,
    pub original_codex_home_state: OriginalCodexHomeStateView,
    pub original_codex_home: Seq<char>,
    pub active_codex_home: Seq<char>,
    pub external_codex_home: Option<Seq<char>>,
    pub legacy_global_codex_home: LegacyGlobalCodexHomeStateView,
    pub codex_auth_path: Seq<char>,
    pub codex_config_path: Seq<char>,
}

impl DeepView for CredentialManagerState {
    type V = CredentialManagerStateView;

    open spec fn deep_view(&self) -> CredentialManagerStateView {
        CredentialManagerStateView {
            active_mode: self.active_mode,
            current_workspace_id: self.current_workspace_id.deep_view(),
            active_workspace_id: self.active_workspace_id.deep_view(),
            codex_configured: self.codex_configured,
            credential_status: self.credential_status@,
            active_profile: self.active_profile.deep_view(),
            profiles: self.profiles.deep_view(),
            workspaces: self.workspaces.deep_view(),
            discovery_warning: self.discovery_warning.deep_view(),
            original_codex_home_state: self.original_codex_home_state.deep_view(),
            original_codex_home: self.original_codex_home@,
            active_codex_home: self.active_codex_home@,
            external_codex_home: self.external_codex_home.deep_view(),
            legacy_global_codex_home: self.legacy_global_codex_home.deep_view(),
            codex_auth_path: self.codex_auth_path@,
            codex_config_path: self.codex_config_path@,
        }
    }
}

impl Duplicate for CredentialManagerState {
    fn duplicate(&self) -> (res: Self) {
        CredentialManagerState {
            active_mode: self.active_mode,
            current_workspace_id: self.current_workspace_id.duplicate(),
            active_workspace_id: self.active_workspace_id.duplicate(),
            codex_configured: self.codex_configured,
            credential_status: self.credential_status.duplicate(),
            active_profile: self.active_profile.duplicate(),
            profiles: self.profiles.duplicate(),
            workspaces: self.workspaces.duplicate(),
            discovery_warning: self.discovery_warning.duplicate(),
            original_codex_home_state: self.original_codex_home_state.duplicate(),
            original_codex_home: self.original_codex_home.duplicate(),
            active_codex_home: self.active_codex_home.duplicate(),
            external_codex_home: self.external_codex_home.duplicate(),
            legacy_global_codex_home: self.legacy_global_codex_home.duplicate(),
            codex_auth_path: self.codex_auth_path.duplicate(),
            codex_config_path: self.codex_config_path.duplicate(),
        }
    }
}

/// A workspace profile together with its credential.
pub struct PreparedWorkspaceProfile {
    /// The profile.
    pub profile: CredentialProfile,
    /// The credential.
    pub credential: String,
}

/// The view of `PreparedWorkspaceProfile`: the same fields with their texts as characters.
pub struct PreparedWorkspaceProfileView {
    pub profile: CredentialProfileView,
    pub credential: Seq<char>,
}

impl DeepView for PreparedWorkspaceProfile {
    type V = PreparedWorkspaceProfileView;

    open spec fn deep_view(&self) -> PreparedWorkspaceProfileView {
        PreparedWorkspaceProfileView {
            profile: self.profile.deep_view(),
            credential: self.credential@,
        }
    }
}

impl Duplicate for PreparedWorkspaceProfile {
    fn duplicate(&self) -> (res: Self) {
        PreparedWorkspaceProfile {
            profile: self.profile.duplicate(),
            credential: self.credential.duplicate(),
        }
    }
}

/// A workspace profile together with a newly issued credential.
pub struct PreparedWorkspaceReauthorization {
    /// The profile.
    pub profile: CredentialProfile,
    /// The new credential.
    pub credential: String,
}

/// The view of `PreparedWorkspaceReauthorization`: the same fields with their texts as characters.
pub struct PreparedWorkspaceReauthorizationView {
    pub profile: CredentialProfileView,
    pub credential: Seq<char>,
}

impl DeepView for PreparedWorkspaceReauthorization {
    type V = PreparedWorkspaceReauthorizationView;

    open spec fn deep_view(&self) -> PreparedWorkspaceReauthorizationView {
        PreparedWorkspaceReauthorizationView {
            profile: self.profile.deep_view(),
            credential: self.credential@,
        }
    }
}

impl Duplicate for PreparedWorkspaceReauthorization {
    fn duplicate(&self) -> (res: Self) {
        PreparedWorkspaceReauthorization {
            profile: self.profile.duplicate(),
            credential: self.credential.duplicate(),
        }
    }
}

/// What is recorded about all profiles and the selection among them.
#[derive(Debug)]
pub struct CredentialMetadata {
    /// The version of the record.
    pub version: u32,
    /// The profiles.
    pub profiles: Vec<CredentialProfile>,
    /// The mode in effect.
    pub active_mode: AuthMode,
    /// The profile in effect.
    pub active_profile_id: Option<String>,
    /// The workspace in effect; the first version recorded only this.
    pub active_workspace_id: Option<u64>,
    /// What the user-level setting was before.
    pub original_codex_home_state: OriginalCodexHomeState,
    /// When that setting was last put back.
    pub legacy_global_codex_home_restored_at_epoch_seconds: Option<u64>,
    /// Whether access rules of an old version remain to be revoked.
    pub legacy_shared_auth_acl_cleanup_required: bool,
    /// When they were revoked.
    pub legacy_shared_auth_acl_revoked_at_epoch_seconds: Option<u64>,
}

/// The view of `CredentialMetadata`: the same fields with their texts as characters.
pub struct CredentialMetadataView {
    pub version: u32,
    pub profiles: Seq<CredentialProfileView>,
    pub active_mode: AuthMode,
    pub active_profile_id: Option<Seq<char>>,
    pub active_workspace_id: Option<u64>,
    pub original_codex_home_state: OriginalCodexHomeStateView,
    pub legacy_global_codex_home_restored_at_epoch_seconds: Option<u64>,
    pub legacy_shared_auth_acl_cleanup_required: bool,
    pub legacy_shared_auth_acl_revoked_at_epoch_seconds: Option<u64>,
}

impl DeepView for CredentialMetadata {
    type V = CredentialMetadataView;

    open spec fn deep_view(&self) -> CredentialMetadataView {
        CredentialMetadataView {
            version: self.version,
            profiles: self.profiles.deep_view(),
            active_mode: self.active_mode,
            active_profile_id: self.active_profile_id.deep_view(),
            active_workspace_id: self.active_workspace_id.deep_view(),
            original_codex_home_state: self.original_codex_home_state.deep_view(),
            legacy_global_codex_home_restored_at_epoch_seconds: self.legacy_global_codex_home_restored_at_epoch_seconds.deep_view(),
            legacy_shared_auth_acl_cleanup_required: self.legacy_shared_auth_acl_cleanup_required,
            legacy_shared_auth_acl_revoked_at_epoch_seconds: self.legacy_shared_auth_acl_revoked_at_epoch_seconds.deep_view(),
        }
    }
}

impl Duplicate for CredentialMetadata {
    fn duplicate(&self) -> (res: Self) {
        CredentialMetadata {
            version: self.version,
            profiles: self.profiles.duplicate(),
            active_mode: self.active_mode,
            active_profile_id: self.active_profile_id.duplicate(),
            active_workspace_id: self.active_workspace_id.duplicate(),
            original_codex_home_state: self.original_codex_home_state.duplicate(),
            legacy_global_codex_home_restored_at_epoch_seconds: self.legacy_global_codex_home_restored_at_epoch_seconds.duplicate(),
            legacy_shared_auth_acl_cleanup_required: self.legacy_shared_auth_acl_cleanup_required,
            legacy_shared_auth_acl_revoked_at_epoch_seconds: self.legacy_shared_auth_acl_revoked_at_epoch_seconds.duplicate(),
        }
    }
}

/// The settings of a configuration file that belong to its authorization.
#[derive(Debug)]
pub struct AuthConfigSnapshot {
    /// The model.
    pub model: Option<String>,
    /// The model provider.
    pub model_provider: Option<String>,
    /// The login method that is enforced.
    pub forced_login_method: Option<String>,
    /// Where credentials are stored.
    pub cli_auth_credentials_store: Option<String>,
    /// The entry of the routing provider, as a document of its own.
    pub router_provider_item: Option<String>,
}

/// The view of `AuthConfigSnapshot`: the same fields with their texts as characters.
pub struct AuthConfigSnapshotView {
    pub model: Option<Seq<char>>,
    pub model_provider: Option<Seq<char>>,
    pub forced_login_method: Option<Seq<char>>,
    pub cli_auth_credentials_store: Option<Seq<char>>,
    pub router_provider_item: Option<Seq<char>>,
}

impl DeepView for AuthConfigSnapshot {
    type V = AuthConfigSnapshotView;

    open spec fn deep_view(&self) -> AuthConfigSnapshotView {
        AuthConfigSnapshotView {
            model: self.model.deep_view(),
            model_provider: self.model_provider.deep_view(),
            forced_login_method: self.forced_login_method.deep_view(),
            cli_auth_credentials_store: self.cli_auth_credentials_store.deep_view(),
            router_provider_item: self.router_provider_item.deep_view(),
        }
    }
}

impl Duplicate for AuthConfigSnapshot {
    fn duplicate(&self) -> (res: Self) {
        AuthConfigSnapshot {
            model: self.model.duplicate(),
            model_provider: self.model_provider.duplicate(),
            forced_login_method: self.forced_login_method.duplicate(),
            cli_auth_credentials_store: self.cli_auth_credentials_store.duplicate(),
            router_provider_item: self.router_provider_item.duplicate(),
        }
    }
}

/// The marker that a state directory is managed.
#[derive(Debug)]
pub struct CodexHomeOwnership {
    /// The version of the marker.
    pub schema_version: u32,
    /// Who manages the directory.
    pub owner: String,
    /// When the marker was written.
    pub initialized_at_epoch_seconds: u64,
    /// The files that are managed.
    pub managed_files: Vec<String>,
    /// The profile that the directory is bound to, in the second version.
    pub profile_key: Option<String>,
}

/// The view of `CodexHomeOwnership`: the same fields with their texts as characters.
pub struct CodexHomeOwnershipView {
    pub schema_version: u32,
    pub owner: Seq<char>,
    pub initialized_at_epoch_seconds: u64,
    pub managed_files: Seq<Seq<char>>,
    pub profile_key: Option<Seq<char>>,
}

impl DeepView for CodexHomeOwnership {
    type V = CodexHomeOwnershipView;

    open spec fn deep_view(&self) -> CodexHomeOwnershipView {
        CodexHomeOwnershipView {
            schema_version: self.schema_version,
            owner: self.owner@,
            initialized_at_epoch_seconds: self.initialized_at_epoch_seconds,
            managed_files: self.managed_files.deep_view(),
            profile_key: self.profile_key.deep_view(),
        }
    }
}

impl Duplicate for CodexHomeOwnership {
    fn duplicate(&self) -> (res: Self) {
        CodexHomeOwnership {
            schema_version: self.schema_version,
            owner: self.owner.duplicate(),
            initialized_at_epoch_seconds: self.initialized_at_epoch_seconds,
            managed_files: self.managed_files.duplicate(),
            profile_key: self.profile_key.duplicate(),
        }
    }
}

/// What is known of the ChatGPT login.
#[derive(Debug)]
pub struct ChatGptProfileState {
    /// Whether the login can be put in effect.
    pub available: bool,
    /// Whether there is a login.
    pub configured: bool,
    /// The kind of the login.
    pub auth_mode: Option<String>,
    /// The account of the login.
    pub account_id: Option<String>,
    /// The state directory that it is kept in.
    pub codex_home: String,
}

/// The view of `ChatGptProfileState`: the same fields with their texts as characters.
pub struct ChatGptProfileStateView {
    pub available: bool,
    pub configured: bool,
    pub auth_mode: Option<Seq<char>>,
    pub account_id: Option<Seq<char>>,
    pub codex_home: Seq<char>,
}

impl DeepView for ChatGptProfileState {
    type V = ChatGptProfileStateView;

    open spec fn deep_view(&self) -> ChatGptProfileStateView {
        ChatGptProfileStateView {
            available: self.available,
            configured: self.configured,
            auth_mode: self.auth_mode.deep_view(),
            account_id: self.account_id.deep_view(),
            codex_home: self.codex_home@,
        }
    }
}

impl Duplicate for ChatGptProfileState {
    fn duplicate(&self) -> (res: Self) {
        ChatGptProfileState {
            available: self.available,
            configured: self.configured,
            auth_mode: self.auth_mode.duplicate(),
            account_id: self.account_id.duplicate(),
            codex_home: self.codex_home.duplicate(),
        }
    }
}

/// The profiles and the state directory in effect at one time.
#[derive(Debug)]
pub struct ActiveHomeSnapshot {
    /// The record of profiles.
    pub metadata: CredentialMetadata,
    /// The state directory.
    pub codex_home: CodexPath,
}

/// The view of `ActiveHomeSnapshot`: the same fields with their texts as characters.
pub struct ActiveHomeSnapshotView {
    pub metadata: CredentialMetadataView,
    pub codex_home: CodexPathView,
}

impl DeepView for ActiveHomeSnapshot {
    type V = ActiveHomeSnapshotView;

    open spec fn deep_view(&self) -> ActiveHomeSnapshotView {
        ActiveHomeSnapshotView {
            metadata: self.metadata.deep_view(),
            codex_home: self.codex_home.deep_view(),
        }
    }
}

impl Duplicate for ActiveHomeSnapshot {
    fn duplicate(&self) -> (res: Self) {
        ActiveHomeSnapshot {
            metadata: self.metadata.duplicate(),
            codex_home: self.codex_home.duplicate(),
        }
    }
}

/// The state directory in effect before and after profiles are moved.
#[derive(Debug)]
pub struct PendingProfileHomeMigration {
    /// The state directory before.
    pub active_home_before: Option<CodexPath>,
    /// The state directory after.
    pub active_home_after: Option<CodexPath>,
}

/// The view of `PendingProfileHomeMigration`: the same fields with their texts as characters.
pub struct PendingProfileHomeMigrationView {
    pub active_home_before: Option<CodexPathView>,
    pub active_home_after: Option<CodexPathView>,
}

impl DeepView for PendingProfileHomeMigration {
    type V = PendingProfileHomeMigrationView;

    open spec fn deep_view(&self) -> PendingProfileHomeMigrationView {
        PendingProfileHomeMigrationView {
            active_home_before: self.active_home_before.deep_view(),
            active_home_after: self.active_home_after.deep_view(),
        }
    }
}

impl Duplicate for PendingProfileHomeMigration {
    fn duplicate(&self) -> (res: Self) {
        PendingProfileHomeMigration {
            active_home_before: self.active_home_before.duplicate(),
            active_home_after: self.active_home_after.duplicate(),
        }
    }
}

} // verus!
