//! The installation of the desktop application and its setup for a workspace.
use crate::duplicate::Duplicate;
use crate::system_compatibility as system;
use crate::system_compatibility::{CompatibilityError, ERROR_CODE_UNSUPPORTED_OS_VERSION};
use crate::text;
use contract::{InstallerStatus, InstallerStatusView};
use vstd::prelude::*;

pub mod contract;
pub mod laws;
pub mod macos;
pub mod macos_laws;
pub mod macos_run_laws;
pub mod manifest;
pub mod manifest_laws;
pub mod powershell;
pub mod process;
pub mod router;
pub mod router_laws;
pub mod source;
pub mod windows;
pub mod windows_laws;

verus! {

/// The version of the record of a setup.
pub const SETUP_STATUS_SCHEMA_VERSION: u32 = 2;

/// The version of this program.
pub const CONNECTOR_VERSION: &'static str = "0.1.0";

/// The code of a setup that was interrupted.
pub const ERROR_CODE_INTERRUPTED: &'static str = "SETUP_INTERRUPTED";

/// The code of a setup that failed under another version.
pub const ERROR_CODE_RETRY_AFTER_UPGRADE: &'static str = "SETUP_RETRY_REQUIRED_AFTER_UPGRADE";

/// The code of a setup that failed.
pub const ERROR_CODE_FAILED: &'static str = "SETUP_FAILED";

/// How many characters of an error are kept.
pub const ERROR_LIMIT: usize = 1000;

/// The record of a setup.
#[derive(Debug)]
pub struct SetupStatus {
    /// The version of the record.
    pub schema_version: u32,
    /// What the attempt is known by.
    pub attempt_id: Option<String>,
    /// The version of the program that made the attempt.
    pub connector_version: Option<String>,
    /// How far the setup is.
    pub status: String,
    /// The workspace that is set up.
    pub workspace_id: Option<u64>,
    /// What is shown.
    pub message: String,
    /// What went wrong.
    pub error: Option<String>,
    /// What went wrong in an attempt before.
    pub last_error: Option<String>,
    /// The code of what went wrong.
    pub error_code: Option<String>,
    /// Whether another attempt makes sense.
    pub retryable: bool,
    /// How often the setup was interrupted.
    pub automatic_retry_count: u32,
    /// When the attempt began.
    pub started_at_epoch_seconds: Option<u64>,
    /// When the attempt ended.
    pub completed_at_epoch_seconds: Option<u64>,
    /// The progress of the installation.
    pub installer_status: Option<InstallerStatus>,
}

/// The view of `SetupStatus`: the same fields with their texts as characters.
pub struct SetupStatusView {
    pub schema_version: u32,
    pub attempt_id: Option<Seq<char>>,
    pub connector_version: Option<Seq<char>>,
    pub status: Seq<char>,
    pub workspace_id: Option<u64>,
    pub message: Seq<char>,
    pub error: Option<Seq<char>>,
    pub last_error: Option<Seq<char>>,
    pub error_code: Option<Seq<char>>,
    pub retryable: bool,
    pub automatic_retry_count: u32,
    pub started_at_epoch_seconds: Option<u64>,
    pub completed_at_epoch_seconds: Option<u64>,
    pub installer_status: Option<InstallerStatusView>,
}

impl DeepView for SetupStatus {
    type V = SetupStatusView;

    open spec fn deep_view(&self) -> SetupStatusView {
        SetupStatusView {
            schema_version: self.schema_version,
            attempt_id: self.attempt_id.deep_view(),
            connector_version: self.connector_version.deep_view(),
            status: self.status@,
            workspace_id: self.workspace_id.deep_view(),
            message: self.message@,
            error: self.error.deep_view(),
            last_error: self.last_error.deep_view(),
            error_code: self.error_code.deep_view(),
            retryable: self.retryable,
            automatic_retry_count: self.automatic_retry_count,
            started_at_epoch_seconds: self.started_at_epoch_seconds.deep_view(),
            completed_at_epoch_seconds: self.completed_at_epoch_seconds.deep_view(),
            installer_status: self.installer_status.deep_view(),
        }
    }
}

impl Duplicate for SetupStatus {
    fn duplicate(&self) -> (res: Self) {
        SetupStatus {
            schema_version: self.schema_version,
            attempt_id: self.attempt_id.duplicate(),
            connector_version: self.connector_version.duplicate(),
            status: self.status.duplicate(),
            workspace_id: self.workspace_id.duplicate(),
            message: self.message.duplicate(),
            error: self.error.duplicate(),
            last_error: self.last_error.duplicate(),
            error_code: self.error_code.duplicate(),
            retryable: self.retryable,
            automatic_retry_count: self.automatic_retry_count,
            started_at_epoch_seconds: self.started_at_epoch_seconds.duplicate(),
            completed_at_epoch_seconds: self.completed_at_epoch_seconds.duplicate(),
            installer_status: self.installer_status.duplicate(),
        }
    }
}

/// How a setup ended that went well.
#[derive(Debug)]
pub enum SetupCompletion {
    /// The desktop application was opened.
    Verified,
    /// The desktop application could not be opened; what the user is told.
    Warning(String),
    /// The desktop application was not to be opened.
    NotRequested,
}

/// The view of `SetupCompletion`: the same values with their texts as characters.
pub enum SetupCompletionView {
    Verified,
    Warning(Seq<char>),
    NotRequested,
}

impl DeepView for SetupCompletion {
    type V = SetupCompletionView;

    open spec fn deep_view(&self) -> SetupCompletionView {
        match self {
            SetupCompletion::Verified => SetupCompletionView::Verified,
            SetupCompletion::Warning(a) => SetupCompletionView::Warning(a@),
            SetupCompletion::NotRequested => SetupCompletionView::NotRequested,
        }
    }
}

impl Duplicate for SetupCompletion {
    fn duplicate(&self) -> (res: Self) {
        match self {
            SetupCompletion::Verified => SetupCompletion::Verified,
            SetupCompletion::Warning(a) => SetupCompletion::Warning(a.duplicate()),
            SetupCompletion::NotRequested => SetupCompletion::NotRequested,
        }
    }
}

/// Why a setup failed.
#[derive(Debug)]
pub struct SetupFailure {
    /// What went wrong.
    pub message: String,
    /// Whether the operating system is known to be too old.
    pub unsupported_os: bool,
}

/// The view of `SetupFailure`: the same fields with their texts as characters.
pub struct SetupFailureView {
    pub message: Seq<char>,
    pub unsupported_os: bool,
}

impl DeepView for SetupFailure {
    type V = SetupFailureView;

    open spec fn deep_view(&self) -> SetupFailureView {
        SetupFailureView {
            message: self.message@,
            unsupported_os: self.unsupported_os,
        }
    }
}

impl Duplicate for SetupFailure {
    fn duplicate(&self) -> (res: Self) {
        SetupFailure {
            message: self.message.duplicate(),
            unsupported_os: self.unsupported_os,
        }
    }
}

/// What a failure is shown as.
#[derive(Debug)]
pub struct SetupFailureClassification {
    /// What is shown.
    pub message: String,
    /// The code of the failure.
    pub error_code: String,
    /// Whether another attempt makes sense.
    pub retryable: bool,
}

/// The view of `SetupFailureClassification`: the same fields with their texts as characters.
pub struct SetupFailureClassificationView {
    pub message: Seq<char>,
    pub error_code: Seq<char>,
    pub retryable: bool,
}

impl DeepView for SetupFailureClassification {
    type V = SetupFailureClassificationView;

    open spec fn deep_view(&self) -> SetupFailureClassificationView {
        SetupFailureClassificationView {
            message: self.message@,
            error_code: self.error_code@,
            retryable: self.retryable,
        }
    }
}

impl Duplicate for SetupFailureClassification {
    fn duplicate(&self) -> (res: Self) {
        SetupFailureClassification {
            message: self.message.duplicate(),
            error_code: self.error_code.duplicate(),
            retryable: self.retryable,
        }
    }
}

impl SetupFailure {
    /// A failure of which there is only a message.
    pub fn from_message(message: &str) -> (res: Self)
        ensures
            res.deep_view() == (SetupFailureView { message: message@, unsupported_os: false }),
    {
        SetupFailure { message: message.to_string(), unsupported_os: false }
    }

    /// The failure that the version of the operating system is wrong.
    pub fn from_compatibility(error: &CompatibilityError) -> (res: Self)
        ensures
            res.deep_view() == (SetupFailureView {
                message: error.deep_view().text(),
                unsupported_os: error.deep_view() is Unsupported,
            }),
    {
        SetupFailure {
            message: error.message(),
            unsupported_os: system::unsupported_os_version(error).is_some(),
        }
    }
}

/// An error in one line of bounded length.
pub open spec fn compacted_error(error: Seq<char>) -> Seq<char> {
    text::compacted(error, ERROR_LIMIT as nat)
}

/// An error in one line of bounded length.
pub fn compact_error(error: &str) -> (res: String)
    ensures
        res@ == compacted_error(error@),
{
    text::compact(error, ERROR_LIMIT)
}

/// What a failure is shown as: nothing helps against an operating system that is too old, and
/// everything else may be tried again.
pub open spec fn classified(failure: SetupFailureView) -> SetupFailureClassificationView {
    if failure.unsupported_os || text::holds(failure.message, ERROR_CODE_UNSUPPORTED_OS_VERSION@) {
        SetupFailureClassificationView {
            message: "当前系统版本不支持 ChatGPT/Codex 桌面应用"@,
            error_code: ERROR_CODE_UNSUPPORTED_OS_VERSION@,
            retryable: false,
        }
    } else {
        SetupFailureClassificationView {
            message: "Codex 应用初始化失败"@,
            error_code: ERROR_CODE_FAILED@,
            retryable: true,
        }
    }
}

/// What a failure is shown as.
pub fn classify_setup_failure(failure: &SetupFailure) -> (res: SetupFailureClassification)
    ensures
        res.deep_view() == classified(failure.deep_view()),
{
    if failure.unsupported_os || system::message_is_unsupported_os_version(
        failure.message.as_str(),
    ) {
        SetupFailureClassification {
            message: "当前系统版本不支持 ChatGPT/Codex 桌面应用".to_string(),
            error_code: ERROR_CODE_UNSUPPORTED_OS_VERSION.to_string(),
            retryable: false,
        }
    } else {
        SetupFailureClassification {
            message: "Codex 应用初始化失败".to_string(),
            error_code: ERROR_CODE_FAILED.to_string(),
            retryable: true,
        }
    }
}

/// How a setup ends after the desktop application was to be opened; the error where it was not.
pub open spec fn after_launch(error: Option<Seq<char>>) -> SetupCompletionView {
    match error {
        None => SetupCompletionView::Verified,
        Some(error) => SetupCompletionView::Warning(
            "ChatGPT/Codex 已完成安装配置，但自动打开桌面窗口的校验未通过。请到系统应用列表中手动找到并打开 ChatGPT 应用（部分版本名称为 Codex）。自动打开校验错误："@
                + compacted_error(error),
        ),
    }
}

impl SetupCompletionView {
    /// What is shown of a setup that ended so.
    pub open spec fn text(self) -> Seq<char> {
        match self {
            SetupCompletionView::Verified =>
                "Codex 应用初始化已完成，并已确认当前工作区桌面窗口打开。"@,
            SetupCompletionView::Warning(warning) => warning,
            SetupCompletionView::NotRequested =>
                "Codex 应用初始化已完成；检测到既有个人配置，未自动切换或打开工作区应用。"@,
        }
    }
}

impl SetupCompletion {
    /// The end without opening the desktop application.
    pub fn completed_without_desktop_launch() -> (res: Self)
        ensures
            res.deep_view() == SetupCompletionView::NotRequested,
    {
        SetupCompletion::NotRequested
    }

    /// The end after the desktop application was to be opened. That it could not be opened is no
    /// failure of the setup.
    pub fn from_desktop_launch(result: Result<(), String>) -> (res: Self)
        ensures
            res.deep_view() == after_launch(
                match result {
                    Ok(()) => None,
                    Err(error) => Some(error@),
                },
            ),
    {
        match result {
            Ok(()) => SetupCompletion::Verified,
            Err(error) => {
                let mut warning =
                    "ChatGPT/Codex 已完成安装配置，但自动打开桌面窗口的校验未通过。请到系统应用列表中手动找到并打开 ChatGPT 应用（部分版本名称为 Codex）。自动打开校验错误：".to_string();
                warning.append(compact_error(error.as_str()).as_str());
                SetupCompletion::Warning(warning)
            },
        }
    }

    /// What is shown.
    pub fn message(&self) -> (res: String)
        ensures
            res@ == self.deep_view().text(),
    {
        match self {
            SetupCompletion::Verified =>
                "Codex 应用初始化已完成，并已确认当前工作区桌面窗口打开。".to_string(),
            SetupCompletion::Warning(warning) => warning.clone(),
            SetupCompletion::NotRequested =>
                "Codex 应用初始化已完成；检测到既有个人配置，未自动切换或打开工作区应用。".to_string(),
        }
    }

    /// What the user is warned of, if of anything.
    pub fn warning(&self) -> (res: Option<&str>)
        ensures
            match res {
                Some(warning) => self.deep_view() == SetupCompletionView::Warning(warning@),
                None => !(self.deep_view() is Warning),
            },
    {
        match self {
            SetupCompletion::Warning(warning) => Some(warning.as_str()),
            _ => None,
        }
    }
}

/// The record before any setup.
pub open spec fn initial_status() -> SetupStatusView {
    SetupStatusView {
        schema_version: SETUP_STATUS_SCHEMA_VERSION,
        attempt_id: None,
        connector_version: Some(CONNECTOR_VERSION@),
        status: "pending"@,
        workspace_id: None,
        message: "等待初始化"@,
        error: None,
        last_error: None,
        error_code: None,
        retryable: false,
        automatic_retry_count: 0,
        started_at_epoch_seconds: None,
        completed_at_epoch_seconds: None,
        installer_status: None,
    }
}

impl Default for SetupStatus {
    /// The record before any setup.
    fn default() -> (res: Self)
        ensures
            res.deep_view() == initial_status(),
    {
        SetupStatus {
            schema_version: SETUP_STATUS_SCHEMA_VERSION,
            attempt_id: None,
            connector_version: Some(CONNECTOR_VERSION.to_string()),
            status: "pending".to_string(),
            workspace_id: None,
            message: "等待初始化".to_string(),
            error: None,
            last_error: None,
            error_code: None,
            retryable: false,
            automatic_retry_count: 0,
            started_at_epoch_seconds: None,
            completed_at_epoch_seconds: None,
            installer_status: None,
        }
    }
}

impl SetupStatus {
    /// What is shown where the record cannot be had.
    pub fn unavailable() -> (res: Self)
        ensures
            res.deep_view() == (SetupStatusView {
                status: "failed"@,
                error: Some("初始化状态锁异常"@),
                ..initial_status()
            }),
    {
        let status = SetupStatus::default();
        SetupStatus {
            status: "failed".to_string(),
            error: Some("初始化状态锁异常".to_string()),
            ..status
        }
    }
}

/// The error that is remembered of an attempt that is over.
pub open spec fn remembered(status: SetupStatusView) -> Option<Seq<char>> {
    match status.error {
        Some(error) => Some(error),
        None => status.last_error,
    }
}

/// Whether the attempt failed under another version of the program.
pub open spec fn failed_elsewhere(status: SetupStatusView) -> bool {
    status.status == "failed"@ && status.connector_version != Some(CONNECTOR_VERSION@)
}

/// The version of the program that an attempt was made with, as it is shown.
pub open spec fn previous_version(status: SetupStatusView) -> Seq<char> {
    match status.connector_version {
        Some(version) => if text::blank(version) {
            "旧版本"@
        } else {
            version
        },
        None => "旧版本"@,
    }
}

/// The record as a new process takes it over: what was running was interrupted, and what failed
/// under another version is to be tried again.
pub open spec fn recovered(status: SetupStatusView, now: u64) -> SetupStatusView {
    if status.status == "running"@ {
        SetupStatusView {
            schema_version: SETUP_STATUS_SCHEMA_VERSION,
            status: "interrupted"@,
            error: None,
            last_error: remembered(status),
            error_code: Some(ERROR_CODE_INTERRUPTED@),
            retryable: true,
            automatic_retry_count: if status.automatic_retry_count == u32::MAX {
                u32::MAX
            } else {
                (status.automatic_retry_count + 1) as u32
            },
            message: "上次初始化被中断，将自动重新验证；也可以手动重试"@,
            completed_at_epoch_seconds: Some(now),
            ..status
        }
    } else if failed_elsewhere(status) {
        SetupStatusView {
            schema_version: SETUP_STATUS_SCHEMA_VERSION,
            status: "needs_retry"@,
            error: None,
            last_error: remembered(status),
            error_code: Some(ERROR_CODE_RETRY_AFTER_UPGRADE@),
            retryable: true,
            message: "检测到 "@ + previous_version(status)
                + " 留下的初始化失败记录，当前版本将重新验证"@,
            ..status
        }
    } else {
        status
    }
}

/// Whether taking the record over changes it.
pub open spec fn needs_recovery(status: SetupStatusView) -> bool {
    status.status == "running"@ || failed_elsewhere(status)
}

/// The error that is remembered of an attempt that is over.
fn remember(error: Option<String>, last_error: Option<String>) -> (res: Option<String>)
    ensures
        text::opt_view(res) == match text::opt_view(error) {
            Some(text) => Some(text),
            None => text::opt_view(last_error),
        },
{
    match error {
        Some(text) => Some(text),
        None => last_error,
    }
}

/// The record as a new process takes it over, and whether that changed it.
pub fn recover_persisted_status(status: SetupStatus, now: u64) -> (res: (SetupStatus, bool))
    ensures
        res.0.deep_view() == recovered(status.deep_view(), now),
        res.1 == needs_recovery(status.deep_view()),
{
    if text::same(status.status.as_str(), "running") {
        return (
            SetupStatus {
                schema_version: SETUP_STATUS_SCHEMA_VERSION,
                status: "interrupted".to_string(),
                error: None,
                last_error: remember(status.error, status.last_error),
                error_code: Some(ERROR_CODE_INTERRUPTED.to_string()),
                retryable: true,
                automatic_retry_count: if status.automatic_retry_count == u32::MAX {
                    u32::MAX
                } else {
                    status.automatic_retry_count + 1
                },
                message: "上次初始化被中断，将自动重新验证；也可以手动重试".to_string(),
                completed_at_epoch_seconds: Some(now),
                attempt_id: status.attempt_id,
                connector_version: status.connector_version,
                workspace_id: status.workspace_id,
                started_at_epoch_seconds: status.started_at_epoch_seconds,
                installer_status: status.installer_status,
            },
            true,
        );
    }
    let current = match &status.connector_version {
        Some(version) => text::same(version.as_str(), CONNECTOR_VERSION),
        None => false,
    };
    if text::same(status.status.as_str(), "failed") && !current {
        let mut message = "检测到 ".to_string();
        match &status.connector_version {
            Some(version) => {
                if text::is_blank(version.as_str()) {
                    message.append("旧版本");
                } else {
                    message.append(version.as_str());
                }
            },
            None => {
                message.append("旧版本");
            },
        }
        message.append(" 留下的初始化失败记录，当前版本将重新验证");
        return (
            SetupStatus {
                schema_version: SETUP_STATUS_SCHEMA_VERSION,
                status: "needs_retry".to_string(),
                error: None,
                last_error: remember(status.error, status.last_error),
                error_code: Some(ERROR_CODE_RETRY_AFTER_UPGRADE.to_string()),
                retryable: true,
                message,
                automatic_retry_count: status.automatic_retry_count,
                completed_at_epoch_seconds: status.completed_at_epoch_seconds,
                attempt_id: status.attempt_id,
                connector_version: status.connector_version,
                workspace_id: status.workspace_id,
                started_at_epoch_seconds: status.started_at_epoch_seconds,
                installer_status: status.installer_status,
            },
            true,
        );
    }
    (status, false)
}

/// The name of an attempt: the version, the process and the time of its beginning.
pub open spec fn attempt_name(process: u32, now: u64) -> Seq<char> {
    CONNECTOR_VERSION@ + "-"@ + text::decimal(process as nat) + "-"@ + text::decimal(now as nat)
}

/// The record of an attempt that begins.
pub open spec fn running_status(
    workspace_id: u64,
    retries: u32,
    process: u32,
    now: u64,
) -> SetupStatusView {
    SetupStatusView {
        schema_version: SETUP_STATUS_SCHEMA_VERSION,
        attempt_id: Some(attempt_name(process, now)),
        connector_version: Some(CONNECTOR_VERSION@),
        status: "running"@,
        workspace_id: Some(workspace_id),
        message: "正在初始化 Codex 应用"@,
        error: None,
        last_error: None,
        error_code: None,
        retryable: false,
        automatic_retry_count: retries,
        started_at_epoch_seconds: Some(now),
        completed_at_epoch_seconds: None,
        installer_status: None,
    }
}

/// The record of an attempt that ended well.
pub open spec fn succeeded_status(
    attempt: SetupStatusView,
    completion: SetupCompletionView,
    now: u64,
) -> SetupStatusView {
    SetupStatusView {
        schema_version: SETUP_STATUS_SCHEMA_VERSION,
        attempt_id: attempt.attempt_id,
        connector_version: Some(CONNECTOR_VERSION@),
        status: "succeeded"@,
        workspace_id: attempt.workspace_id,
        message: completion.text(),
        error: None,
        last_error: None,
        error_code: None,
        retryable: false,
        automatic_retry_count: attempt.automatic_retry_count,
        started_at_epoch_seconds: attempt.started_at_epoch_seconds,
        completed_at_epoch_seconds: Some(now),
        installer_status: None,
    }
}

/// The record of an attempt that failed.
pub open spec fn failed_status(
    attempt: SetupStatusView,
    failure: SetupFailureView,
    now: u64,
) -> SetupStatusView {
    let shown = classified(failure);
    let error = compacted_error(failure.message);
    SetupStatusView {
        schema_version: SETUP_STATUS_SCHEMA_VERSION,
        attempt_id: attempt.attempt_id,
        connector_version: Some(CONNECTOR_VERSION@),
        status: "failed"@,
        workspace_id: attempt.workspace_id,
        message: shown.message,
        error: Some(error),
        last_error: Some(error),
        error_code: Some(shown.error_code),
        retryable: shown.retryable,
        automatic_retry_count: attempt.automatic_retry_count,
        started_at_epoch_seconds: attempt.started_at_epoch_seconds,
        completed_at_epoch_seconds: Some(now),
        installer_status: None,
    }
}

/// Why a setup is not begun.
#[derive(Debug)]
pub enum SetupStartError {
    /// The workspace has no number.
    InvalidWorkspace,
    /// Another workspace is being set up.
    AnotherRunning,
}

impl SetupStartError {
    /// The message of the error.
    pub open spec fn text(self) -> Seq<char> {
        match self {
            SetupStartError::InvalidWorkspace => "workspaceId 必须是正整数"@,
            SetupStartError::AnotherRunning => "另一个工作区的初始化正在进行"@,
        }
    }

    /// The message of the error.
    pub fn message(&self) -> (res: String)
        ensures
            res@ == self.text(),
    {
        match self {
            SetupStartError::InvalidWorkspace => "workspaceId 必须是正整数".to_string(),
            SetupStartError::AnotherRunning => "另一个工作区的初始化正在进行".to_string(),
        }
    }
}

/// What came of the wish to begin a setup.
#[derive(Debug)]
pub enum SetupStart {
    /// Nothing is begun; the record as it is.
    Unchanged(SetupStatus),
    /// The setup begins; its record.
    Begun(SetupStatus),
}

/// The view of `SetupStart`: the same values with their texts as characters.
pub enum SetupStartView {
    Unchanged(SetupStatusView),
    Begun(SetupStatusView),
}

impl DeepView for SetupStart {
    type V = SetupStartView;

    open spec fn deep_view(&self) -> SetupStartView {
        match self {
            SetupStart::Unchanged(a) => SetupStartView::Unchanged(a.deep_view()),
            SetupStart::Begun(a) => SetupStartView::Begun(a.deep_view()),
        }
    }
}

/// Whether the setup of the workspace was finished before.
pub open spec fn finished_before(status: SetupStatusView, workspace_id: u64, force: bool) -> bool {
    !force && status.status == "succeeded"@ && status.workspace_id == Some(workspace_id)
}

/// What comes of the wish to begin a setup; `ready` tells whether the workspace is still ready.
pub open spec fn start_outcome(
    status: SetupStatusView,
    workspace_id: u64,
    force: bool,
    ready: bool,
    process: u32,
    now: u64,
) -> Result<SetupStartView, SetupStartError> {
    if workspace_id == 0 {
        Err(SetupStartError::InvalidWorkspace)
    } else if status.status == "running"@ {
        if status.workspace_id == Some(workspace_id) {
            Ok(SetupStartView::Unchanged(status))
        } else {
            Err(SetupStartError::AnotherRunning)
        }
    } else if finished_before(status, workspace_id, force) && ready {
        Ok(SetupStartView::Unchanged(status))
    } else {
        Ok(
            SetupStartView::Begun(
                running_status(
                    workspace_id,
                    if force {
                        0
                    } else {
                        status.automatic_retry_count
                    },
                    process,
                    now,
                ),
            ),
        )
    }
}

/// Whether the progress of an installation belongs to what is shown.
pub open spec fn shows_installer(status: Seq<char>) -> bool {
    status == "running"@ || status == "failed"@ || status == "interrupted"@ || status
        == "succeeded"@
}

/// The setups of this machine: the record of the last one.
#[derive(Debug)]
pub struct SetupManager {
    /// The record.
    pub status: SetupStatus,
    /// Whether the record is still to be written.
    pub unsaved: bool,
}

/// The view of `SetupManager`.
pub struct SetupManagerView {
    pub status: SetupStatusView,
    pub unsaved: bool,
}

impl DeepView for SetupManager {
    type V = SetupManagerView;

    open spec fn deep_view(&self) -> SetupManagerView {
        SetupManagerView { status: self.status.deep_view(), unsaved: self.unsaved }
    }
}

impl SetupManager {
    /// Takes over the record that was kept, where there is one that can be read.
    pub fn load(persisted: Option<SetupStatus>, now: u64) -> (res: Self)
        ensures
            res.deep_view() == match persisted.deep_view() {
                Some(status) => SetupManagerView {
                    status: recovered(status, now),
                    unsaved: needs_recovery(status),
                },
                None => SetupManagerView { status: initial_status(), unsaved: true },
            },
    {
        match persisted {
            Some(status) => {
                let (status, unsaved) = recover_persisted_status(status, now);
                SetupManager { status, unsaved }
            },
            None => SetupManager { status: SetupStatus::default(), unsaved: true },
        }
    }

    /// The record as it is shown, with the progress of the installation where that belongs to it.
    pub fn state(&self, installer_status: Option<InstallerStatus>) -> (res: SetupStatus)
        ensures
            res.deep_view() == (SetupStatusView {
                installer_status: if shows_installer(self.deep_view().status.status) {
                    installer_status.deep_view()
                } else {
                    None
                },
                ..self.deep_view().status
            }),
    {
        let status = self.status.duplicate();
        let shown = text::same(status.status.as_str(), "running") || text::same(
            status.status.as_str(),
            "failed",
        ) || text::same(status.status.as_str(), "interrupted") || text::same(
            status.status.as_str(),
            "succeeded",
        );
        SetupStatus {
            installer_status: if shown {
                installer_status
            } else {
                None
            },
            ..status
        }
    }

    /// Whether it matters for a start that the workspace is still ready.
    pub fn asks_readiness(&self, workspace_id: u64, force: bool) -> (res: bool)
        ensures
            res == (workspace_id != 0 && finished_before(
                self.deep_view().status,
                workspace_id,
                force,
            )),
    {
        workspace_id != 0 && !force && text::same(self.status.status.as_str(), "succeeded")
            && self.status.workspace_id == Some(workspace_id)
    }

    /// Begins the setup of a workspace, unless it is running, or is finished and the workspace is
    /// still ready. While one workspace is being set up, another is refused.
    pub fn start(
        &mut self,
        workspace_id: u64,
        force: bool,
        ready: bool,
        process: u32,
        now: u64,
    ) -> (res: Result<SetupStart, SetupStartError>)
        ensures
            match res {
                Ok(start) => start_outcome(
                    old(self).deep_view().status,
                    workspace_id,
                    force,
                    ready,
                    process,
                    now,
                ) == Ok::<SetupStartView, SetupStartError>(start.deep_view()),
                Err(error) => start_outcome(
                    old(self).deep_view().status,
                    workspace_id,
                    force,
                    ready,
                    process,
                    now,
                ) == Err::<SetupStartView, SetupStartError>(error),
            },
            match res {
                Ok(SetupStart::Begun(status)) => final(self).deep_view() == (SetupManagerView {
                    status: status.deep_view(),
                    unsaved: true,
                }),
                _ => final(self).deep_view() == old(self).deep_view(),
            },
    {
        if workspace_id == 0 {
            return Err(SetupStartError::InvalidWorkspace);
        }
        let same_workspace = self.status.workspace_id == Some(workspace_id);
        if text::same(self.status.status.as_str(), "running") {
            if same_workspace {
                return Ok(SetupStart::Unchanged(self.status.duplicate()));
            }
            return Err(SetupStartError::AnotherRunning);
        }
        if !force && text::same(self.status.status.as_str(), "succeeded") && same_workspace
            && ready {
            return Ok(SetupStart::Unchanged(self.status.duplicate()));
        }
        let mut attempt = CONNECTOR_VERSION.to_string();
        attempt.append("-");
        attempt.append(text::decimal_text(process as u64).as_str());
        attempt.append("-");
        attempt.append(text::decimal_text(now).as_str());
        let running = SetupStatus {
            schema_version: SETUP_STATUS_SCHEMA_VERSION,
            attempt_id: Some(attempt),
            connector_version: Some(CONNECTOR_VERSION.to_string()),
            status: "running".to_string(),
            workspace_id: Some(workspace_id),
            message: "正在初始化 Codex 应用".to_string(),
            error: None,
            last_error: None,
            error_code: None,
            retryable: false,
            automatic_retry_count: if force {
                0
            } else {
                self.status.automatic_retry_count
            },
            started_at_epoch_seconds: Some(now),
            completed_at_epoch_seconds: None,
            installer_status: None,
        };
        self.status = running.duplicate();
        self.unsaved = true;
        Ok(SetupStart::Begun(running))
    }

    /// Takes the end of an attempt that went well.
    pub fn succeed(&mut self, attempt: &SetupStatus, completion: &SetupCompletion, now: u64)
        ensures
            final(self).deep_view() == (SetupManagerView {
                status: succeeded_status(attempt.deep_view(), completion.deep_view(), now),
                unsaved: true,
            }),
    {
        self.status = SetupStatus {
            schema_version: SETUP_STATUS_SCHEMA_VERSION,
            attempt_id: attempt.attempt_id.duplicate(),
            connector_version: Some(CONNECTOR_VERSION.to_string()),
            status: "succeeded".to_string(),
            workspace_id: attempt.workspace_id,
            message: completion.message(),
            error: None,
            last_error: None,
            error_code: None,
            retryable: false,
            automatic_retry_count: attempt.automatic_retry_count,
            started_at_epoch_seconds: attempt.started_at_epoch_seconds,
            completed_at_epoch_seconds: Some(now),
            installer_status: None,
        };
        self.unsaved = true;
    }

    /// Takes the end of an attempt that failed.
    pub fn fail(&mut self, attempt: &SetupStatus, failure: &SetupFailure, now: u64)
        ensures
            final(self).deep_view() == (SetupManagerView {
                status: failed_status(attempt.deep_view(), failure.deep_view(), now),
                unsaved: true,
            }),
    {
        let shown = classify_setup_failure(failure);
        let error = compact_error(failure.message.as_str());
        self.status = SetupStatus {
            schema_version: SETUP_STATUS_SCHEMA_VERSION,
            attempt_id: attempt.attempt_id.duplicate(),
            connector_version: Some(CONNECTOR_VERSION.to_string()),
            status: "failed".to_string(),
            workspace_id: attempt.workspace_id,
            message: shown.message,
            error: Some(error.clone()),
            last_error: Some(error),
            error_code: Some(shown.error_code),
            retryable: shown.retryable,
            automatic_retry_count: attempt.automatic_retry_count,
            started_at_epoch_seconds: attempt.started_at_epoch_seconds,
            completed_at_epoch_seconds: Some(now),
            installer_status: None,
        };
        self.unsaved = true;
    }
}

/// The names of how far a setup is are different texts.
pub proof fn states_differ()
    ensures
        "running"@ != "interrupted"@,
        "running"@ != "needs_retry"@,
        "running"@ != "succeeded"@,
        "running"@ != "failed"@,
        "failed"@ != "interrupted"@,
        "failed"@ != "needs_retry"@,
        "failed"@ != "succeeded"@,
{
    reveal_strlit("running");
    reveal_strlit("interrupted");
    reveal_strlit("needs_retry");
    reveal_strlit("succeeded");
    reveal_strlit("failed");
    assert("running"@[0] == 'r');
    assert("failed"@[0] == 'f');
    assert("succeeded"@[0] == 's');
    assert("needs_retry"@[0] == 'n');
    assert("interrupted"@[0] == 'i');
}

/// A record that was taken over is never one of a running attempt. Where taking it over changed
/// it, another attempt makes sense, and the error is remembered and no longer shown.
pub proof fn nothing_runs_after_recovery(status: SetupStatusView, now: u64)
    ensures
        recovered(status, now).status != "running"@,
        needs_recovery(status) ==> {
            let after = recovered(status, now);
            &&& after.retryable
            &&& after.error is None
            &&& after.last_error == remembered(status)
            &&& after.workspace_id == status.workspace_id
            &&& after.attempt_id == status.attempt_id
        },
        !needs_recovery(status) ==> recovered(status, now) == status,
{
    states_differ();
}

/// Taking a record over a second time, at whatever time, changes nothing more.
pub proof fn recovering_again_changes_nothing(status: SetupStatusView, now: u64, later: u64)
    ensures
        !needs_recovery(recovered(status, now)),
        recovered(recovered(status, now), later) == recovered(status, now),
{
    states_differ();
}

/// While a workspace is being set up, a second wish for it gives the same record and a wish for
/// another is refused, forced or not.
pub proof fn one_setup_at_a_time(
    status: SetupStatusView,
    workspace_id: u64,
    force: bool,
    ready: bool,
    process: u32,
    now: u64,
)
    requires
        status.status == "running"@,
        workspace_id != 0,
    ensures
        start_outcome(status, workspace_id, force, ready, process, now) == if status.workspace_id
            == Some(workspace_id) {
            Ok::<SetupStartView, SetupStartError>(SetupStartView::Unchanged(status))
        } else {
            Err::<SetupStartView, SetupStartError>(SetupStartError::AnotherRunning)
        },
{
}

/// An attempt that began is running; once it has ended, well or badly, it is not, and its record
/// still tells which attempt it was, for which workspace, and how often it was interrupted. The
/// end of an attempt is not taken for an interruption or for one of another version.
pub proof fn attempts_end(
    workspace_id: u64,
    retries: u32,
    process: u32,
    now: u64,
    later: u64,
    completion: SetupCompletionView,
    failure: SetupFailureView,
)
    ensures
        ({
            let begun = running_status(workspace_id, retries, process, now);
            let good = succeeded_status(begun, completion, later);
            let bad = failed_status(begun, failure, later);
            &&& begun.status == "running"@
            &&& good.status != "running"@
            &&& bad.status != "running"@
            &&& good.attempt_id == begun.attempt_id
            &&& bad.attempt_id == begun.attempt_id
            &&& good.workspace_id == Some(workspace_id)
            &&& bad.workspace_id == Some(workspace_id)
            &&& good.automatic_retry_count == retries
            &&& bad.automatic_retry_count == retries
            &&& !needs_recovery(good)
            &&& !needs_recovery(bad)
        }),
{
    states_differ();
}

/// A failed attempt may be tried again exactly if the operating system is not too old, and its
/// code says which of the two it was.
pub proof fn only_an_old_system_is_final(attempt: SetupStatusView, failure: SetupFailureView, now: u64)
    ensures
        failed_status(attempt, failure, now).retryable == !(failure.unsupported_os || text::holds(
            failure.message,
            ERROR_CODE_UNSUPPORTED_OS_VERSION@,
        )),
        failed_status(attempt, failure, now).retryable ==> failed_status(attempt, failure, now).error_code
            == Some(ERROR_CODE_FAILED@),
        !failed_status(attempt, failure, now).retryable ==> failed_status(
            attempt,
            failure,
            now,
        ).error_code == Some(ERROR_CODE_UNSUPPORTED_OS_VERSION@),
{
}

} // verus!
