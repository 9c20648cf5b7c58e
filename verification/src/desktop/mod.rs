//! The desktop application: how it is stopped and opened.
use crate::duplicate::Duplicate;
use crate::system_compatibility::{CompatibilityError, CompatibilityErrorView};
use crate::text;
use vstd::prelude::*;

pub mod laws;
pub mod macos;
pub mod windows;

verus! {

/// How a command ended.
#[derive(Debug)]
pub struct CommandOutput {
    /// Whether it ended well.
    pub success: bool,
    /// The status that it ended with, as it is shown.
    pub status: String,
    /// What it wrote.
    pub stdout: String,
    /// What it wrote as errors.
    pub stderr: String,
}

/// The view of `CommandOutput`: the same fields with their texts as characters.
pub struct CommandOutputView {
    pub success: bool,
    pub status: Seq<char>,
    pub stdout: Seq<char>,
    pub stderr: Seq<char>,
}

impl DeepView for CommandOutput {
    type V = CommandOutputView;

    open spec fn deep_view(&self) -> CommandOutputView {
        CommandOutputView {
            success: self.success,
            status: self.status@,
            stdout: self.stdout@,
            stderr: self.stderr@,
        }
    }
}

impl Duplicate for CommandOutput {
    fn duplicate(&self) -> (res: Self) {
        CommandOutput {
            success: self.success,
            status: self.status.duplicate(),
            stdout: self.stdout.duplicate(),
            stderr: self.stderr.duplicate(),
        }
    }
}

/// What can go wrong with the desktop application.
#[derive(Debug)]
pub enum DesktopError {
    /// It is not installed.
    NotInstalled,
    /// A command failed; what it was for and why.
    CommandFailed(String, String),
    /// Its description cannot be read; which part and why.
    MetadataFailed(String, String),
    /// Its description lacks a part.
    MetadataEmpty(String),
    /// The operating system is not recent enough for it, or has no version.
    Incompatible(CompatibilityError),
    /// Its processes could not be managed.
    ProcessesFailed(String),
    /// Windows did not accept the wish to open it.
    NotAccepted,
    /// It did not quit in time.
    StillRunning,
}

/// The view of `DesktopError`: the same values with their texts as characters.
pub enum DesktopErrorView {
    NotInstalled,
    CommandFailed(Seq<char>, Seq<char>),
    MetadataFailed(Seq<char>, Seq<char>),
    MetadataEmpty(Seq<char>),
    Incompatible(CompatibilityErrorView),
    ProcessesFailed(Seq<char>),
    NotAccepted,
    StillRunning,
}

impl DeepView for DesktopError {
    type V = DesktopErrorView;

    open spec fn deep_view(&self) -> DesktopErrorView {
        match self {
            DesktopError::NotInstalled => DesktopErrorView::NotInstalled,
            DesktopError::CommandFailed(a, b) => DesktopErrorView::CommandFailed(a@, b@),
            DesktopError::MetadataFailed(a, b) => DesktopErrorView::MetadataFailed(a@, b@),
            DesktopError::MetadataEmpty(a) => DesktopErrorView::MetadataEmpty(a@),
            DesktopError::Incompatible(a) => DesktopErrorView::Incompatible(a.deep_view()),
            DesktopError::ProcessesFailed(a) => DesktopErrorView::ProcessesFailed(a@),
            DesktopError::NotAccepted => DesktopErrorView::NotAccepted,
            DesktopError::StillRunning => DesktopErrorView::StillRunning,
        }
    }
}

impl DesktopErrorView {
    /// The message of the error.
    pub open spec fn text(self) -> Seq<char> {
        match self {
            DesktopErrorView::NotInstalled => "没有找到已安装的 ChatGPT/Codex 桌面应用"@,
            DesktopErrorView::CommandFailed(context, reason) => context + "："@ + reason,
            DesktopErrorView::MetadataFailed(key, reason) => "读取桌面应用 "@ + key + " 失败："@
                + reason,
            DesktopErrorView::MetadataEmpty(key) => "桌面应用 "@ + key + " 为空"@,
            DesktopErrorView::Incompatible(error) => error.text(),
            DesktopErrorView::ProcessesFailed(reason) => "管理 ChatGPT/Codex 桌面进程失败："@
                + reason,
            DesktopErrorView::NotAccepted => "Windows 未接受 ChatGPT/Codex 桌面应用启动请求"@,
            DesktopErrorView::StillRunning => "ChatGPT/Codex 桌面应用未在 15 秒内退出"@,
        }
    }
}

impl DesktopError {
    /// The message of the error.
    pub fn message(&self) -> (res: String)
        ensures
            res@ == self.deep_view().text(),
    {
        match self {
            DesktopError::NotInstalled => "没有找到已安装的 ChatGPT/Codex 桌面应用".to_string(),
            DesktopError::CommandFailed(context, reason) => {
                let mut out = context.clone();
                out.append("：");
                out.append(reason.as_str());
                out
            },
            DesktopError::MetadataFailed(key, reason) => {
                let mut out = "读取桌面应用 ".to_string();
                out.append(key.as_str());
                out.append(" 失败：");
                out.append(reason.as_str());
                out
            },
            DesktopError::MetadataEmpty(key) => {
                let mut out = "桌面应用 ".to_string();
                out.append(key.as_str());
                out.append(" 为空");
                out
            },
            DesktopError::Incompatible(error) => error.message(),
            DesktopError::ProcessesFailed(reason) => {
                let mut out = "管理 ChatGPT/Codex 桌面进程失败：".to_string();
                out.append(reason.as_str());
                out
            },
            DesktopError::NotAccepted => "Windows 未接受 ChatGPT/Codex 桌面应用启动请求".to_string(),
            DesktopError::StillRunning => "ChatGPT/Codex 桌面应用未在 15 秒内退出".to_string(),
        }
    }
}

/// What is known of the desktop application when it was stopped for a switch.
#[derive(Debug, Clone, Copy, PartialEq, Eq, Structural)]
pub struct DesktopSwitch {
    /// Whether it was running.
    pub was_running: bool,
}

impl Default for DesktopSwitch {
    /// Of an application that was not running.
    fn default() -> (res: Self)
        ensures
            res == (DesktopSwitch { was_running: false }),
    {
        DesktopSwitch { was_running: false }
    }
}

impl DesktopSwitch {
    /// The state directory on which the application is to be opened again, where it was running.
    pub fn restart_workspace_if_needed(&self, codex_home: &str) -> (res: Option<String>)
        ensures
            text::opt_view(res) == if self.was_running {
                Some(codex_home@)
            } else {
                None
            },
    {
        if self.was_running {
            Some(codex_home.to_string())
        } else {
            None
        }
    }
}

} // verus!
