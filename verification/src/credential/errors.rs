//! What can go wrong with authorizations.
use crate::credential::auth::AuthFault;
use crate::credential::config::ConfigFault;
use vstd::prelude::*;

verus! {

/// A file that authorizations are made of.
#[derive(Debug, Clone, Copy, PartialEq, Eq, Structural)]
pub enum FileRole {
    /// The record of profiles.
    Metadata,
    /// The record of profiles at its old place.
    LegacyMetadata,
    /// The shared login file.
    SharedAuth,
    /// The shared configuration file.
    SharedConfig,
    /// The stored login file of a profile.
    ProfileAuth,
    /// The stored settings of a profile.
    ProfileConfig,
    /// The stored login file of a profile at its old place.
    LegacyProfileAuth,
    /// The login file of an earlier state directory.
    PreviousHomeAuth,
    /// The marker of the shared state directory.
    Ownership,
}

/// What is said of a file that cannot be read.
pub open spec fn unreadable_text(role: FileRole) -> Seq<char> {
    match role {
        FileRole::Metadata | FileRole::LegacyMetadata => "读取 Codex 凭证元数据失败"@,
        FileRole::SharedAuth | FileRole::ProfileAuth | FileRole::LegacyProfileAuth | FileRole::PreviousHomeAuth => "读取 Codex 认证文件失败"@,
        FileRole::SharedConfig => "读取 Codex 配置失败"@,
        FileRole::ProfileConfig => "读取授权档案配置快照失败"@,
        FileRole::Ownership => "读取百积木 Codex 所有权标记失败"@,
    }
}

/// What is said of a file that cannot be read.
fn unreadable_message(role: FileRole) -> (res: String)
    ensures
        res@ == unreadable_text(role),
{
    match role {
        FileRole::Metadata | FileRole::LegacyMetadata => {
            "读取 Codex 凭证元数据失败".to_string()
        },
        FileRole::SharedAuth | FileRole::ProfileAuth | FileRole::LegacyProfileAuth | FileRole::PreviousHomeAuth => {
            "读取 Codex 认证文件失败".to_string()
        },
        FileRole::SharedConfig => {
            "读取 Codex 配置失败".to_string()
        },
        FileRole::ProfileConfig => {
            "读取授权档案配置快照失败".to_string()
        },
        FileRole::Ownership => {
            "读取百积木 Codex 所有权标记失败".to_string()
        },
    }
}

/// What is said of a file that does not hold what it should.
pub open spec fn invalid_text(role: FileRole) -> Seq<char> {
    match role {
        FileRole::Metadata | FileRole::LegacyMetadata => "解析 Codex 凭证元数据失败"@,
        FileRole::SharedAuth | FileRole::ProfileAuth | FileRole::LegacyProfileAuth | FileRole::PreviousHomeAuth => "解析 Codex 认证文件失败"@,
        FileRole::SharedConfig => "解析 Codex config.toml 失败"@,
        FileRole::ProfileConfig => "解析授权档案配置快照失败"@,
        FileRole::Ownership => "解析百积木 Codex 所有权标记失败"@,
    }
}

/// What is said of a file that does not hold what it should.
fn invalid_message(role: FileRole) -> (res: String)
    ensures
        res@ == invalid_text(role),
{
    match role {
        FileRole::Metadata | FileRole::LegacyMetadata => {
            "解析 Codex 凭证元数据失败".to_string()
        },
        FileRole::SharedAuth | FileRole::ProfileAuth | FileRole::LegacyProfileAuth | FileRole::PreviousHomeAuth => {
            "解析 Codex 认证文件失败".to_string()
        },
        FileRole::SharedConfig => {
            "解析 Codex config.toml 失败".to_string()
        },
        FileRole::ProfileConfig => {
            "解析授权档案配置快照失败".to_string()
        },
        FileRole::Ownership => {
            "解析百积木 Codex 所有权标记失败".to_string()
        },
    }
}

/// Why a switch between profiles stopped.
#[derive(Debug, Clone, Copy, PartialEq, Eq, Structural)]
pub enum SwitchFault {
    /// A file cannot be read.
    Unreadable(FileRole),
    /// A file does not hold what it should.
    Invalid(FileRole),
    /// The stored provider entry is no document.
    ProviderInvalid,
    /// The stored provider entry holds no provider.
    ProviderMissing,
    /// The shared login file is not of the kind of the active profile.
    LiveAuthKindMismatch,
    /// The stored login file of the active workspace profile is missing.
    ActiveBackupMissing,
    /// The shared login file is not that of the active workspace profile.
    LiveAuthMismatch,
    /// The shared login file of the active workspace profile is missing.
    LiveAuthMissing,
}

impl SwitchFault {
    /// The message of the error.
    pub open spec fn text(self) -> Seq<char> {
        match self {
            SwitchFault::Unreadable(role) => unreadable_text(role),
            SwitchFault::Invalid(role) => invalid_text(role),
            SwitchFault::ProviderInvalid => "解析授权档案中的 provider 配置失败"@,
            SwitchFault::ProviderMissing => "授权档案中的 provider 配置缺失"@,
            SwitchFault::LiveAuthKindMismatch => "当前 auth.json 与活动授权档案类型不一致，已停止切换以避免覆盖备份"@,
            SwitchFault::ActiveBackupMissing => "当前百积木授权档案的私有备份缺失"@,
            SwitchFault::LiveAuthMismatch => "当前 auth.json 与活动百积木授权档案不一致，已停止切换以避免覆盖备份"@,
            SwitchFault::LiveAuthMissing => "当前授权档案生效时，共享 .codex/auth.json 却不存在"@,
        }
    }

    /// The message of the error.
    pub fn message(&self) -> (res: String)
        ensures
            res@ == self.text(),
    {
        match self {
            SwitchFault::Unreadable(role) => unreadable_message(*role),
            SwitchFault::Invalid(role) => invalid_message(*role),
            SwitchFault::ProviderInvalid => "解析授权档案中的 provider 配置失败".to_string(),
            SwitchFault::ProviderMissing => "授权档案中的 provider 配置缺失".to_string(),
            SwitchFault::LiveAuthKindMismatch => "当前 auth.json 与活动授权档案类型不一致，已停止切换以避免覆盖备份".to_string(),
            SwitchFault::ActiveBackupMissing => "当前百积木授权档案的私有备份缺失".to_string(),
            SwitchFault::LiveAuthMismatch => "当前 auth.json 与活动百积木授权档案不一致，已停止切换以避免覆盖备份".to_string(),
            SwitchFault::LiveAuthMissing => "当前授权档案生效时，共享 .codex/auth.json 却不存在".to_string(),
        }
    }
}

/// What can go wrong with authorizations.
#[derive(Debug, Clone, Copy, PartialEq, Eq, Structural)]
pub enum CredentialError {
    /// A file cannot be read.
    Unreadable(FileRole),
    /// A file does not hold what it should.
    Invalid(FileRole),
    /// A switch between profiles stopped.
    SwitchFailed(SwitchFault),
    /// No profile was named.
    EmptyProfileId,
    /// There is no such profile.
    ProfileNotFound,
    /// The stored login file of the profile cannot be read.
    ProfileUnreadable,
    /// The stored login file of the workspace profile is missing.
    ProfileAuthMissing,
    /// The profile that was prepared is gone.
    PreparedProfileGone,
    /// The stored login file of the profile is of no use to it.
    ProfileContentInvalid,
    /// The profile of the shared login file is gone.
    LiveProfileGone,
    /// No workspace was named.
    WorkspaceIdZero,
    /// The platform client gave no authorization status.
    AuthStatusUnavailable,
    /// The device is not authorized for the workspace.
    WorkspaceNotAuthorized,
    /// The platform client did not confirm the workspace.
    WorkspaceUnconfirmed,
    /// The platform client issued no credential.
    CredentialNotIssued,
    /// The platform client issued no new credential.
    CredentialNotReissued,
    /// The workspace has no profile yet.
    WorkspaceNotInitialized,
    /// The login file of a workspace that was set up before is missing.
    InitializedAuthMissing,
    /// The login file of a workspace that was set up before is damaged.
    InitializedAuthDamaged,
    /// The workspace has no usable credential.
    SetupIncomplete,
    /// The user-level setting is not known to be a managed leftover.
    RestoreNotProven,
    /// The workspace has no profile with a credential.
    CredentialProfileMissing,
    /// The login file of the workspace holds no key.
    ApiKeyMissing,
    /// The marker of the shared state directory is not supported.
    OwnershipUnsupported,
}

impl CredentialError {
    /// The message of the error.
    pub open spec fn text(self) -> Seq<char> {
        match self {
            CredentialError::Unreadable(role) => unreadable_text(role),
            CredentialError::Invalid(role) => invalid_text(role),
            CredentialError::SwitchFailed(_) => "切换授权档案失败"@,
            CredentialError::EmptyProfileId => "必须提供 authProfileId"@,
            CredentialError::ProfileNotFound => "授权档案不存在"@,
            CredentialError::ProfileUnreadable => "授权档案无法读取"@,
            CredentialError::ProfileAuthMissing => "百积木授权档案已缺失，请重新授权"@,
            CredentialError::PreparedProfileGone => "待激活的授权档案已经不存在"@,
            CredentialError::ProfileContentInvalid => "授权档案内容无效，请重新授权或重新登录"@,
            CredentialError::LiveProfileGone => "现场授权对应的档案不存在"@,
            CredentialError::WorkspaceIdZero => "工作区 ID 必须大于 0"@,
            CredentialError::AuthStatusUnavailable => "读取 baijimu CLI 授权状态失败"@,
            CredentialError::WorkspaceNotAuthorized => "baijimu CLI 授权不包含该工作区，请先重新完成设备授权"@,
            CredentialError::WorkspaceUnconfirmed => "baijimu CLI 无法确认当前工作区授权"@,
            CredentialError::CredentialNotIssued => "baijimu CLI 签发工作区 LLM credential 失败"@,
            CredentialError::CredentialNotReissued => "baijimu CLI 重新签发工作区 LLM credential 失败"@,
            CredentialError::WorkspaceNotInitialized => "该工作区尚未初始化，不能重新授权"@,
            CredentialError::InitializedAuthMissing => "该工作区授权已缺失，请使用重新授权，不得通过初始化覆盖"@,
            CredentialError::InitializedAuthDamaged => "该工作区 auth.json 已损坏，请使用重新授权"@,
            CredentialError::SetupIncomplete => "工作区凭证未完成配置"@,
            CredentialError::RestoreNotProven => "当前用户级 CODEX_HOME 无法证明由旧版 Connector 设置，未进行修改"@,
            CredentialError::CredentialProfileMissing => "未找到工作区 Codex 凭证档案"@,
            CredentialError::ApiKeyMissing => "工作区 Codex 凭证文件中缺少 OPENAI_API_KEY"@,
            CredentialError::OwnershipUnsupported => "百积木 Codex 所有权标记不受当前版本支持"@,
        }
    }

    /// The message of the error.
    pub fn message(&self) -> (res: String)
        ensures
            res@ == self.text(),
    {
        match self {
            CredentialError::Unreadable(role) => unreadable_message(*role),
            CredentialError::Invalid(role) => invalid_message(*role),
            CredentialError::SwitchFailed(_) => "切换授权档案失败".to_string(),
            CredentialError::EmptyProfileId => "必须提供 authProfileId".to_string(),
            CredentialError::ProfileNotFound => "授权档案不存在".to_string(),
            CredentialError::ProfileUnreadable => "授权档案无法读取".to_string(),
            CredentialError::ProfileAuthMissing => "百积木授权档案已缺失，请重新授权".to_string(),
            CredentialError::PreparedProfileGone => "待激活的授权档案已经不存在".to_string(),
            CredentialError::ProfileContentInvalid => "授权档案内容无效，请重新授权或重新登录".to_string(),
            CredentialError::LiveProfileGone => "现场授权对应的档案不存在".to_string(),
            CredentialError::WorkspaceIdZero => "工作区 ID 必须大于 0".to_string(),
            CredentialError::AuthStatusUnavailable => "读取 baijimu CLI 授权状态失败".to_string(),
            CredentialError::WorkspaceNotAuthorized => "baijimu CLI 授权不包含该工作区，请先重新完成设备授权".to_string(),
            CredentialError::WorkspaceUnconfirmed => "baijimu CLI 无法确认当前工作区授权".to_string(),
            CredentialError::CredentialNotIssued => "baijimu CLI 签发工作区 LLM credential 失败".to_string(),
            CredentialError::CredentialNotReissued => "baijimu CLI 重新签发工作区 LLM credential 失败".to_string(),
            CredentialError::WorkspaceNotInitialized => "该工作区尚未初始化，不能重新授权".to_string(),
            CredentialError::InitializedAuthMissing => "该工作区授权已缺失，请使用重新授权，不得通过初始化覆盖".to_string(),
            CredentialError::InitializedAuthDamaged => "该工作区 auth.json 已损坏，请使用重新授权".to_string(),
            CredentialError::SetupIncomplete => "工作区凭证未完成配置".to_string(),
            CredentialError::RestoreNotProven => "当前用户级 CODEX_HOME 无法证明由旧版 Connector 设置，未进行修改".to_string(),
            CredentialError::CredentialProfileMissing => "未找到工作区 Codex 凭证档案".to_string(),
            CredentialError::ApiKeyMissing => "工作区 Codex 凭证文件中缺少 OPENAI_API_KEY".to_string(),
            CredentialError::OwnershipUnsupported => "百积木 Codex 所有权标记不受当前版本支持".to_string(),
        }
    }
}

/// The error of a login file.
pub open spec fn auth_error(role: FileRole, fault: AuthFault) -> CredentialError {
    match fault {
        AuthFault::Unreadable => CredentialError::Unreadable(role),
        AuthFault::Invalid => CredentialError::Invalid(role),
    }
}

/// The error of a login file.
pub fn login_error(role: FileRole, fault: AuthFault) -> (res: CredentialError)
    ensures
        res == auth_error(role, fault),
{
    match fault {
        AuthFault::Unreadable => CredentialError::Unreadable(role),
        AuthFault::Invalid => CredentialError::Invalid(role),
    }
}

/// What stops a switch at the configuration file.
pub open spec fn config_switch_fault(fault: ConfigFault) -> SwitchFault {
    match fault {
        ConfigFault::Unreadable => SwitchFault::Unreadable(FileRole::SharedConfig),
        ConfigFault::Invalid => SwitchFault::Invalid(FileRole::SharedConfig),
        ConfigFault::ProviderInvalid => SwitchFault::ProviderInvalid,
        ConfigFault::ProviderMissing => SwitchFault::ProviderMissing,
    }
}

/// What stops a switch at the configuration file.
pub fn switch_fault(fault: ConfigFault) -> (res: SwitchFault)
    ensures
        res == config_switch_fault(fault),
{
    match fault {
        ConfigFault::Unreadable => SwitchFault::Unreadable(FileRole::SharedConfig),
        ConfigFault::Invalid => SwitchFault::Invalid(FileRole::SharedConfig),
        ConfigFault::ProviderInvalid => SwitchFault::ProviderInvalid,
        ConfigFault::ProviderMissing => SwitchFault::ProviderMissing,
    }
}

/// The error of a configuration file that is only read.
pub open spec fn config_error(fault: ConfigFault) -> CredentialError {
    match fault {
        ConfigFault::Unreadable => CredentialError::Unreadable(FileRole::SharedConfig),
        _ => CredentialError::Invalid(FileRole::SharedConfig),
    }
}

/// The error of a configuration file that is only read.
pub fn read_config_error(fault: ConfigFault) -> (res: CredentialError)
    ensures
        res == config_error(fault),
{
    match fault {
        ConfigFault::Unreadable => CredentialError::Unreadable(FileRole::SharedConfig),
        _ => CredentialError::Invalid(FileRole::SharedConfig),
    }
}

} // verus!
