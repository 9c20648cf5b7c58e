//! The installation on macOS: what is done after what.
use super::contract;
use super::contract::{
    InstallerStatus, InstallerStatusView, InstallerStepState, MacosInstallerResult,
    MacosInstallerResultView,
};
use super::manifest;
use super::manifest::{
    RequirementFault, UpstreamAssetV4, UpstreamAssetV4View, UpstreamManifestV4,
    UpstreamManifestV4View, DESKTOP_COMPONENT,
};
use super::process;
use super::process::{ProcessEnd, ProcessEndView};
use super::source;
use super::source::{UpstreamArtifactSourceV2, UpstreamArtifactSourceV2View};
use super::windows;
use super::{
    compact_error, SetupCompletion, SetupCompletionView, SetupFailure, SetupFailureView,
};
use crate::codex_path::{CodexPath, CodexPathView};
use crate::credential::contract::{
    AuthMode, CredentialProfile, CredentialProfileView, PreparedWorkspaceProfile,
    PreparedWorkspaceProfileView,
};
use crate::duplicate::Duplicate;
use crate::system_compatibility as system;
use crate::text;
use vstd::prelude::*;

verus! {

/// Where the desktop application is.
pub const TARGET_APP_PATH: &'static str = "/Applications/ChatGPT.app";

/// Where the desktop application was.
pub const LEGACY_APP_PATH: &'static str = "/Applications/Codex.app";

/// How often the progress of a download is told, in milliseconds.
pub const REPORT_INTERVAL_MS: u64 = 1000;

/// What is downloaded.
#[derive(Debug)]
pub enum DownloadTarget {
    /// The list of packages.
    Manifest,
    /// A package.
    Archive(UpstreamAssetV4),
}

/// The view of `DownloadTarget`: the same values with their texts as characters.
pub enum DownloadTargetView {
    Manifest,
    Archive(UpstreamAssetV4View),
}

impl DeepView for DownloadTarget {
    type V = DownloadTargetView;

    open spec fn deep_view(&self) -> DownloadTargetView {
        match self {
            DownloadTarget::Manifest => DownloadTargetView::Manifest,
            DownloadTarget::Archive(a) => DownloadTargetView::Archive(a.deep_view()),
        }
    }
}

impl Duplicate for DownloadTarget {
    fn duplicate(&self) -> (res: Self) {
        match self {
            DownloadTarget::Manifest => DownloadTarget::Manifest,
            DownloadTarget::Archive(a) => DownloadTarget::Archive(a.duplicate()),
        }
    }
}

/// A download.
#[derive(Debug)]
pub struct DownloadRequest {
    /// Where it comes from.
    pub url: String,
    /// The name of the file in the working directory.
    pub file_name: String,
    /// What is shown meanwhile.
    pub detail: String,
}

/// The view of `DownloadRequest`: the same fields with their texts as characters.
pub struct DownloadRequestView {
    pub url: Seq<char>,
    pub file_name: Seq<char>,
    pub detail: Seq<char>,
}

impl DeepView for DownloadRequest {
    type V = DownloadRequestView;

    open spec fn deep_view(&self) -> DownloadRequestView {
        DownloadRequestView {
            url: self.url@,
            file_name: self.file_name@,
            detail: self.detail@,
        }
    }
}

impl Duplicate for DownloadRequest {
    fn duplicate(&self) -> (res: Self) {
        DownloadRequest {
            url: self.url.duplicate(),
            file_name: self.file_name.duplicate(),
            detail: self.detail.duplicate(),
        }
    }
}

/// A setup that went well.
pub struct SetupInstallation {
    /// How it ended.
    pub completion: SetupCompletion,
    /// The credential with which the router is asked.
    pub router_credential: String,
}

/// The view of `SetupInstallation`: the same fields with their texts as characters.
pub struct SetupInstallationView {
    pub completion: SetupCompletionView,
    pub router_credential: Seq<char>,
}

impl DeepView for SetupInstallation {
    type V = SetupInstallationView;

    open spec fn deep_view(&self) -> SetupInstallationView {
        SetupInstallationView {
            completion: self.completion.deep_view(),
            router_credential: self.router_credential@,
        }
    }
}

impl Duplicate for SetupInstallation {
    fn duplicate(&self) -> (res: Self) {
        SetupInstallation {
            completion: self.completion.duplicate(),
            router_credential: self.router_credential.duplicate(),
        }
    }
}

/// How far an installation on macOS is.
pub enum MacosPhase {
    /// The application is looked for.
    Locating,
    /// The version of the system is checked for the application there; whether it was installed just now.
    Checking(String, bool),
    /// The application there is looked at; whether it was installed just now.
    Inspecting(String, bool),
    /// A download begins.
    Connecting(DownloadTarget),
    /// A download goes on; how much there is, and how much has come.
    Receiving(DownloadTarget, Option<u64>, u64),
    /// The list of packages is read.
    ReadingManifest,
    /// The version of the system is read for the package.
    ReadingVersion(UpstreamAssetV4),
    /// The package is installed.
    Installing,
    /// It is asked whether the workspace is to be put in effect.
    Deciding,
    /// The profile is prepared; whether it is to be put in effect.
    Initializing(bool),
    /// The profile is put on record; its credential and its home.
    Finalizing(String, CodexPath),
    /// It is asked whether the workspace is ready.
    CheckingReadiness(String, CodexPath),
    /// It is asked what is in effect.
    ReadingState(String, CodexPath),
    /// The desktop application is opened.
    Launching(String),
    /// The installation ended well.
    Finished,
    /// The installation failed.
    Failed,
}

/// The view of `MacosPhase`: the same values with their texts as characters.
pub enum MacosPhaseView {
    Locating,
    Checking(Seq<char>, bool),
    Inspecting(Seq<char>, bool),
    Connecting(DownloadTargetView),
    Receiving(DownloadTargetView, Option<u64>, u64),
    ReadingManifest,
    ReadingVersion(UpstreamAssetV4View),
    Installing,
    Deciding,
    Initializing(bool),
    Finalizing(Seq<char>, CodexPathView),
    CheckingReadiness(Seq<char>, CodexPathView),
    ReadingState(Seq<char>, CodexPathView),
    Launching(Seq<char>),
    Finished,
    Failed,
}

impl DeepView for MacosPhase {
    type V = MacosPhaseView;

    open spec fn deep_view(&self) -> MacosPhaseView {
        match self {
            MacosPhase::Locating => MacosPhaseView::Locating,
            MacosPhase::Checking(a, b) => MacosPhaseView::Checking(a@, *b),
            MacosPhase::Inspecting(a, b) => MacosPhaseView::Inspecting(a@, *b),
            MacosPhase::Connecting(a) => MacosPhaseView::Connecting(a.deep_view()),
            MacosPhase::Receiving(a, b, c) => MacosPhaseView::Receiving(a.deep_view(), b.deep_view(), *c),
            MacosPhase::ReadingManifest => MacosPhaseView::ReadingManifest,
            MacosPhase::ReadingVersion(a) => MacosPhaseView::ReadingVersion(a.deep_view()),
            MacosPhase::Installing => MacosPhaseView::Installing,
            MacosPhase::Deciding => MacosPhaseView::Deciding,
            MacosPhase::Initializing(a) => MacosPhaseView::Initializing(*a),
            MacosPhase::Finalizing(a, b) => MacosPhaseView::Finalizing(a@, b.deep_view()),
            MacosPhase::CheckingReadiness(a, b) => MacosPhaseView::CheckingReadiness(a@, b.deep_view()),
            MacosPhase::ReadingState(a, b) => MacosPhaseView::ReadingState(a@, b.deep_view()),
            MacosPhase::Launching(a) => MacosPhaseView::Launching(a@),
            MacosPhase::Finished => MacosPhaseView::Finished,
            MacosPhase::Failed => MacosPhaseView::Failed,
        }
    }
}

/// What came of what was to be done.
pub enum MacosEvent {
    /// Where the application is, if anywhere.
    AppLocated(Option<String>),
    /// The system is recent enough.
    Compatible,
    /// Whether the application is a directory, its version and its bundle.
    AppInspected(bool, String, String),
    /// The download begins; its length, where it is known.
    DownloadOpened(Option<u64>),
    /// So many bytes came; how many milliseconds ago progress was told.
    Received(u64, u64),
    /// The download ended.
    DownloadClosed,
    /// The list of packages.
    ManifestRead(UpstreamManifestV4),
    /// The version of the system.
    VersionRead(String),
    /// The installing program ended; what it wrote, where that is UTF-8.
    AppInstalled(ProcessEnd, Option<String>),
    /// Whether the workspace is to be put in effect.
    ActivationDecided(bool),
    /// The profile and its home.
    ProfileReady(PreparedWorkspaceProfile, CodexPath),
    /// The profile is on record.
    SetupFinalized,
    /// Whether the workspace is ready.
    ReadinessChecked(bool),
    /// What is in effect: the mode, the workspace and the home.
    StateRead(AuthMode, Option<u64>, CodexPath),
    /// The desktop application was to be opened; the error where it was not.
    DesktopLaunched(Option<String>),
    /// The progress with this place among those to keep could not be kept.
    SaveFailed(usize, SetupFailure),
    /// It could not be done.
    Failed(SetupFailure),
}

/// The view of `MacosEvent`: the same values with their texts as characters.
pub enum MacosEventView {
    AppLocated(Option<Seq<char>>),
    Compatible,
    AppInspected(bool, Seq<char>, Seq<char>),
    DownloadOpened(Option<u64>),
    Received(u64, u64),
    DownloadClosed,
    ManifestRead(UpstreamManifestV4View),
    VersionRead(Seq<char>),
    AppInstalled(ProcessEndView, Option<Seq<char>>),
    ActivationDecided(bool),
    ProfileReady(PreparedWorkspaceProfileView, CodexPathView),
    SetupFinalized,
    ReadinessChecked(bool),
    StateRead(AuthMode, Option<u64>, CodexPathView),
    DesktopLaunched(Option<Seq<char>>),
    SaveFailed(usize, SetupFailureView),
    Failed(SetupFailureView),
}

impl DeepView for MacosEvent {
    type V = MacosEventView;

    open spec fn deep_view(&self) -> MacosEventView {
        match self {
            MacosEvent::AppLocated(a) => MacosEventView::AppLocated(a.deep_view()),
            MacosEvent::Compatible => MacosEventView::Compatible,
            MacosEvent::AppInspected(a, b, c) => MacosEventView::AppInspected(*a, b@, c@),
            MacosEvent::DownloadOpened(a) => MacosEventView::DownloadOpened(a.deep_view()),
            MacosEvent::Received(a, b) => MacosEventView::Received(*a, *b),
            MacosEvent::DownloadClosed => MacosEventView::DownloadClosed,
            MacosEvent::ManifestRead(a) => MacosEventView::ManifestRead(a.deep_view()),
            MacosEvent::VersionRead(a) => MacosEventView::VersionRead(a@),
            MacosEvent::AppInstalled(a, b) => MacosEventView::AppInstalled(a.deep_view(), b.deep_view()),
            MacosEvent::ActivationDecided(a) => MacosEventView::ActivationDecided(*a),
            MacosEvent::ProfileReady(a, b) => MacosEventView::ProfileReady(a.deep_view(), b.deep_view()),
            MacosEvent::SetupFinalized => MacosEventView::SetupFinalized,
            MacosEvent::ReadinessChecked(a) => MacosEventView::ReadinessChecked(*a),
            MacosEvent::StateRead(a, b, c) => MacosEventView::StateRead(*a, b.deep_view(), c.deep_view()),
            MacosEvent::DesktopLaunched(a) => MacosEventView::DesktopLaunched(a.deep_view()),
            MacosEvent::SaveFailed(a, b) => MacosEventView::SaveFailed(*a, b.deep_view()),
            MacosEvent::Failed(a) => MacosEventView::Failed(a.deep_view()),
        }
    }
}

/// What is to be done, after the progress was kept.
pub enum MacosAction {
    /// To look for the application.
    LocateApp,
    /// To check the version of the system for the application.
    CheckCompatibility(String),
    /// To look at the application.
    InspectApp(String),
    /// To begin a download.
    Download(DownloadRequest),
    /// To go on with the download; whether progress was told.
    Receive(bool),
    /// To read the list of packages.
    ReadManifest,
    /// To read the version of the system.
    ReadVersion,
    /// To install the package with this name and this digest.
    InstallApp(String, String),
    /// To ask whether the workspace is to be put in effect.
    DecideActivation,
    /// To prepare the profile of the workspace.
    InitializeProfile(u64),
    /// To put the profile on record, and in effect where that is wanted.
    FinalizeSetup(CredentialProfile, bool),
    /// To ask whether the workspace is ready.
    CheckReadiness(u64),
    /// To ask what is in effect.
    ReadState,
    /// To open the desktop application on the home.
    LaunchDesktop(CodexPath),
    /// Nothing; the setup ended well.
    Finish(SetupInstallation),
    /// Nothing; the setup failed.
    Fail(SetupFailure),
    /// Nothing; this was not waited for.
    Ignore,
}

/// The view of `MacosAction`: the same values with their texts as characters.
pub enum MacosActionView {
    LocateApp,
    CheckCompatibility(Seq<char>),
    InspectApp(Seq<char>),
    Download(DownloadRequestView),
    Receive(bool),
    ReadManifest,
    ReadVersion,
    InstallApp(Seq<char>, Seq<char>),
    DecideActivation,
    InitializeProfile(u64),
    FinalizeSetup(CredentialProfileView, bool),
    CheckReadiness(u64),
    ReadState,
    LaunchDesktop(CodexPathView),
    Finish(SetupInstallationView),
    Fail(SetupFailureView),
    Ignore,
}

impl DeepView for MacosAction {
    type V = MacosActionView;

    open spec fn deep_view(&self) -> MacosActionView {
        match self {
            MacosAction::LocateApp => MacosActionView::LocateApp,
            MacosAction::CheckCompatibility(a) => MacosActionView::CheckCompatibility(a@),
            MacosAction::InspectApp(a) => MacosActionView::InspectApp(a@),
            MacosAction::Download(a) => MacosActionView::Download(a.deep_view()),
            MacosAction::Receive(a) => MacosActionView::Receive(*a),
            MacosAction::ReadManifest => MacosActionView::ReadManifest,
            MacosAction::ReadVersion => MacosActionView::ReadVersion,
            MacosAction::InstallApp(a, b) => MacosActionView::InstallApp(a@, b@),
            MacosAction::DecideActivation => MacosActionView::DecideActivation,
            MacosAction::InitializeProfile(a) => MacosActionView::InitializeProfile(*a),
            MacosAction::FinalizeSetup(a, b) => MacosActionView::FinalizeSetup(a.deep_view(), *b),
            MacosAction::CheckReadiness(a) => MacosActionView::CheckReadiness(*a),
            MacosAction::ReadState => MacosActionView::ReadState,
            MacosAction::LaunchDesktop(a) => MacosActionView::LaunchDesktop(a.deep_view()),
            MacosAction::Finish(a) => MacosActionView::Finish(a.deep_view()),
            MacosAction::Fail(a) => MacosActionView::Fail(a.deep_view()),
            MacosAction::Ignore => MacosActionView::Ignore,
        }
    }
}

/// An installation on macOS.
pub struct MacosInstaller {
    /// The workspace that is set up.
    pub workspace_id: u64,
    /// The processor of the machine.
    pub arch: String,
    /// Where the packages are listed.
    pub source: UpstreamArtifactSourceV2,
    /// The progress.
    pub status: InstallerStatus,
    /// The progress that is to be kept before the next thing is done, in order.
    pub saves: Vec<InstallerStatus>,
    /// The result so far.
    pub result: MacosInstallerResult,
    /// How far the installation is.
    pub phase: MacosPhase,
}

/// The view of `MacosInstaller`: the same fields with their texts as characters.
pub struct MacosInstallerView {
    pub workspace_id: u64,
    pub arch: Seq<char>,
    pub source: UpstreamArtifactSourceV2View,
    pub status: InstallerStatusView,
    pub saves: Seq<InstallerStatusView>,
    pub result: MacosInstallerResultView,
    pub phase: MacosPhaseView,
}

impl DeepView for MacosInstaller {
    type V = MacosInstallerView;

    open spec fn deep_view(&self) -> MacosInstallerView {
        MacosInstallerView {
            workspace_id: self.workspace_id,
            arch: self.arch@,
            source: self.source.deep_view(),
            status: self.status.deep_view(),
            saves: self.saves.deep_view(),
            result: self.result.deep_view(),
            phase: self.phase.deep_view(),
        }
    }
}

/// Whether the progress has the steps one to seven.
pub open spec fn has_all_steps(status: InstallerStatusView) -> bool {
    &&& status.steps.len() == 7
    &&& forall|i: int| 0 <= i < 7 ==> (#[trigger] status.steps[i]).index == i + 1
    &&& status.current_step <= 7
}

impl MacosInstallerView {
    /// Whether everything that is told of is a step of the installation.
    pub open spec fn well_formed(self) -> bool {
        &&& has_all_steps(self.status)
        &&& forall|i: int| 0 <= i < self.saves.len() ==> has_all_steps(#[trigger] self.saves[i])
    }

    /// With nothing left to keep.
    pub open spec fn kept(self) -> Self {
        MacosInstallerView { saves: Seq::empty(), ..self }
    }

    /// In another phase.
    pub open spec fn at(self, phase: MacosPhaseView) -> Self {
        MacosInstallerView { phase, ..self }
    }

    /// With news of a step, which are to be kept.
    pub open spec fn told(
        self,
        index: usize,
        state: InstallerStepState,
        detail: Seq<char>,
        downloaded: Option<u64>,
        total: Option<u64>,
        now: Seq<char>,
    ) -> Self {
        let status = contract::with_step(self.status, index, state, detail, downloaded, total, now);
        MacosInstallerView { status, saves: self.saves.push(status), ..self }
    }

    /// With news of a step that downloads nothing.
    pub open spec fn step(
        self,
        index: usize,
        state: InstallerStepState,
        detail: Seq<char>,
        now: Seq<char>,
    ) -> Self {
        self.told(index, state, detail, None, None, now)
    }

    /// With every step ended that has not begun.
    pub open spec fn settled(self, detail: Seq<char>, now: Seq<char>) -> Self {
        let status = contract::with_pending_settled(
            self.status,
            InstallerStepState::Skipped,
            detail,
            now,
        );
        MacosInstallerView { status, saves: self.saves.push(status), ..self }
    }
}

/// The line in which a failure is told.
pub open spec fn told_failure(failure: SetupFailureView) -> SetupFailureView {
    SetupFailureView {
        message: super::compacted_error(failure.message),
        unsupported_os: failure.unsupported_os,
    }
}

/// The installation after a failure: the step that it failed in says so, and no step is left that
/// has not begun.
pub open spec fn failed(m: MacosInstallerView, failure: SetupFailureView, now: Seq<char>) -> (
    MacosInstallerView,
    MacosActionView,
) {
    let told = told_failure(failure);
    let index = m.status.current_step;
    let marked = if index == 0 {
        m
    } else {
        let step = m.status.steps[index - 1];
        m.told(
            index,
            InstallerStepState::Failed,
            told.message,
            step.downloaded_bytes,
            step.total_bytes,
            now,
        )
    };
    let ended = marked.settled("安装已停止"@, now).at(MacosPhaseView::Failed);
    (
        MacosInstallerView {
            result: MacosInstallerResultView {
                ok: false,
                errors: seq![told.message],
                ..m.result
            },
            ..ended
        },
        MacosActionView::Fail(told),
    )
}

/// A failure of which there is only a message.
pub open spec fn plain_failure(message: Seq<char>) -> SetupFailureView {
    SetupFailureView { message, unsupported_os: false }
}

/// What is shown during a download.
pub open spec fn download_detail(target: DownloadTargetView) -> Seq<char> {
    match target {
        DownloadTargetView::Manifest => "正在读取百积木安装包清单"@,
        DownloadTargetView::Archive(_) => "正在下载官方 ChatGPT 桌面应用安装包"@,
    }
}

/// The step in which something is downloaded.
pub open spec fn download_step(target: DownloadTargetView) -> usize {
    match target {
        DownloadTargetView::Manifest => 2,
        DownloadTargetView::Archive(_) => 3,
    }
}

/// How much there is to download: what the list says, or else what the server says.
pub open spec fn download_total(target: DownloadTargetView, length: Option<u64>) -> Option<u64> {
    match target {
        DownloadTargetView::Manifest => length,
        DownloadTargetView::Archive(asset) => Some(asset.size_bytes),
    }
}

/// The sum, as far as it can be counted.
pub open spec fn counted(downloaded: u64, count: u64) -> u64 {
    if downloaded + count > u64::MAX {
        u64::MAX
    } else {
        (downloaded + count) as u64
    }
}

/// Whether the path is that of an application below the root.
pub open spec fn app_path_valid(path: Seq<char>) -> bool {
    let pieces = manifest::leading_pieces(path);
    &&& text::has_prefix(path, "/"@)
    &&& pieces.len() > 0
    &&& text::has_suffix(pieces.last(), ".app"@)
    &&& pieces.last().len() > 4
}

/// The installation with what is known of the application.
pub open spec fn captured(
    m: MacosInstallerView,
    path: Seq<char>,
    fresh: bool,
    version: Seq<char>,
    bundle_id: Seq<char>,
) -> MacosInstallerView {
    MacosInstallerView {
        result: MacosInstallerResultView {
            app_installed: true,
            app_install_method: if fresh {
                "baijimu-cache-dmg"@
            } else {
                "already-installed"@
            },
            app_path: path,
            version,
            bundle_id,
            ..m.result
        },
        ..m
    }
}

/// The installation when its application is there and the profile is next.
pub open spec fn with_app(m: MacosInstallerView, fresh: bool, now: Seq<char>) -> (
    MacosInstallerView,
    MacosActionView,
) {
    let installed = if fresh {
        m.step(4, InstallerStepState::Completed, "ChatGPT 桌面应用已安装"@, now)
    } else {
        m.step(1, InstallerStepState::Completed, "ChatGPT 桌面应用已安装"@, now).step(
            2,
            InstallerStepState::Skipped,
            "无需读取应用安装包清单"@,
            now,
        ).step(3, InstallerStepState::Skipped, "无需下载应用安装包"@, now).step(
            4,
            InstallerStepState::Skipped,
            "无需重新安装应用"@,
            now,
        )
    };
    (
        installed.step(
            5,
            InstallerStepState::Running,
            "正在创建百积木 LLM 凭证并写入 Codex 配置"@,
            now,
        ).at(MacosPhaseView::Deciding),
        MacosActionView::DecideActivation,
    )
}

/// The installation when the list of packages is needed.
pub open spec fn without_app(m: MacosInstallerView, now: Seq<char>) -> (
    MacosInstallerView,
    MacosActionView,
) {
    let told = m.step(1, InstallerStepState::Completed, "未安装 ChatGPT 桌面应用，正在准备安装"@, now);
    match source::address(m.source) {
        Err(error) => failed(told, plain_failure(error.text()), now),
        Ok(url) => (
            told.at(MacosPhaseView::Connecting(DownloadTargetView::Manifest)),
            MacosActionView::Download(
                DownloadRequestView {
                    url,
                    file_name: "latest.json"@,
                    detail: download_detail(DownloadTargetView::Manifest),
                },
            ),
        ),
    }
}

/// The installation when a download has ended.
pub open spec fn downloaded(
    m: MacosInstallerView,
    target: DownloadTargetView,
    total: Option<u64>,
    count: u64,
    now: Seq<char>,
) -> (MacosInstallerView, MacosActionView) {
    let told = m.told(
        download_step(target),
        InstallerStepState::Completed,
        download_detail(target),
        Some(count),
        total,
        now,
    );
    match target {
        DownloadTargetView::Manifest => (
            told.at(MacosPhaseView::ReadingManifest),
            MacosActionView::ReadManifest,
        ),
        DownloadTargetView::Archive(asset) => (
            told.step(4, InstallerStepState::Running, "正在校验并安装 ChatGPT 桌面应用"@, now).at(
                MacosPhaseView::Installing,
            ),
            MacosActionView::InstallApp(asset.name, asset.sha256),
        ),
    }
}

/// The installation when the list of packages is there.
pub open spec fn with_manifest(m: MacosInstallerView, list: UpstreamManifestV4View, now: Seq<char>) -> (
    MacosInstallerView,
    MacosActionView,
) {
    match manifest::manifest_fault(list) {
        Some(error) => failed(m, plain_failure(error.text()), now),
        None => match manifest::selected(list.assets, DESKTOP_COMPONENT@, m.arch) {
            Err(error) => failed(m, plain_failure(error.text()), now),
            Ok(asset) => (m.at(MacosPhaseView::ReadingVersion(asset)), MacosActionView::ReadVersion),
        },
    }
}

/// What forbids the package on this version of the system, if anything.
pub open spec fn requirement_fault(asset: UpstreamAssetV4View, version: Seq<char>) -> Option<
    SetupFailureView,
> {
    match asset.host_requirements {
        None => Some(plain_failure(manifest::ManifestErrorView::MissingRequirement.text())),
        Some(requirements) => match system::fault(
            "macOS"@,
            version,
            requirements.minimum_os_version,
            "ChatGPT/Codex"@,
        ) {
            None => None,
            Some(error) => Some(
                SetupFailureView { message: error.text(), unsupported_os: error is Unsupported },
            ),
        },
    }
}

/// The installation when the version of the system is known.
pub open spec fn with_version(
    m: MacosInstallerView,
    asset: UpstreamAssetV4View,
    version: Seq<char>,
    now: Seq<char>,
) -> (MacosInstallerView, MacosActionView) {
    match requirement_fault(asset, version) {
        Some(failure) => failed(m, failure, now),
        None => (
            m.step(2, InstallerStepState::Completed, "已找到制品 "@ + asset.name, now).at(
                MacosPhaseView::Connecting(DownloadTargetView::Archive(asset)),
            ),
            MacosActionView::Download(
                DownloadRequestView {
                    url: asset.mirror_url,
                    file_name: asset.name,
                    detail: download_detail(DownloadTargetView::Archive(asset)),
                },
            ),
        ),
    }
}

/// The installation when the installing program has ended.
pub open spec fn installed(
    m: MacosInstallerView,
    end: ProcessEndView,
    output: Option<Seq<char>>,
    now: Seq<char>,
) -> (MacosInstallerView, MacosActionView) {
    if !end.success {
        failed(
            m,
            plain_failure("macOS 原生安装动作失败：install-app"@ + process::shown_end(end)),
            now,
        )
    } else {
        match output {
            None => failed(m, plain_failure("macOS 原生安装动作返回了非 UTF-8 输出"@), now),
            Some(output) => {
                let path = text::trimmed(output);
                if !app_path_valid(path) {
                    failed(m, plain_failure("macOS 原生安装适配器返回了无效应用路径"@), now)
                } else {
                    (
                        m.at(MacosPhaseView::Checking(path, true)),
                        MacosActionView::CheckCompatibility(path),
                    )
                }
            },
        }
    }
}

/// The installation when the profile is ready.
pub open spec fn with_profile(
    m: MacosInstallerView,
    auto_activate: bool,
    prepared: PreparedWorkspaceProfileView,
    home: CodexPathView,
    now: Seq<char>,
) -> (MacosInstallerView, MacosActionView) {
    let noted = MacosInstallerView {
        result: MacosInstallerResultView {
            codex_home: home.text,
            llm_credential_created: true,
            config_written: true,
            auth_written: true,
            ..m.result
        },
        ..m
    };
    (
        noted.step(
            5,
            InstallerStepState::Completed,
            "已使用百积木 LLM 凭证写入 Codex 配置"@,
            now,
        ).step(
            6,
            InstallerStepState::Skipped,
            "安装完成后由桌面管理器在后台验证百积木路由"@,
            now,
        ).step(7, InstallerStepState::Running, "正在提交工作区档案并启动桌面应用"@, now).at(
            MacosPhaseView::Finalizing(prepared.credential, home),
        ),
        MacosActionView::FinalizeSetup(prepared.profile, auto_activate),
    )
}

/// The installation when it has ended well.
pub open spec fn finished(
    m: MacosInstallerView,
    credential: Seq<char>,
    completion: SetupCompletionView,
    now: Seq<char>,
) -> (MacosInstallerView, MacosActionView) {
    let noted = MacosInstallerView {
        result: MacosInstallerResultView {
            ok: true,
            warnings: match completion {
                SetupCompletionView::Warning(warning) => m.result.warnings.push(warning),
                _ => m.result.warnings,
            },
            ..m.result
        },
        ..m
    };
    (
        noted.step(7, InstallerStepState::Completed, completion.text(), now).settled(
            "安装已完成"@,
            now,
        ).at(MacosPhaseView::Finished),
        MacosActionView::Finish(
            SetupInstallationView { completion, router_credential: credential },
        ),
    )
}

/// Whether the application is not there yet.
pub open spec fn prepares_app(phase: MacosPhaseView) -> bool {
    phase is Locating || phase is Checking || phase is Inspecting || phase is Connecting
        || phase is Receiving || phase is ReadingManifest || phase is ReadingVersion
        || phase is Installing
}

/// What follows until the application is there.
pub open spec fn advanced_app(m: MacosInstallerView, event: MacosEventView, now: Seq<char>) -> (
    MacosInstallerView,
    MacosActionView,
) {
    match (m.phase, event) {
        (MacosPhaseView::Locating, MacosEventView::AppLocated(Some(path))) => (
            m.at(MacosPhaseView::Checking(path, false)),
            MacosActionView::CheckCompatibility(path),
        ),
        (MacosPhaseView::Locating, MacosEventView::AppLocated(None)) => without_app(m, now),
        (MacosPhaseView::Checking(path, fresh), MacosEventView::Compatible) => (
            m.at(MacosPhaseView::Inspecting(path, fresh)),
            MacosActionView::InspectApp(path),
        ),
        (
            MacosPhaseView::Inspecting(path, fresh),
            MacosEventView::AppInspected(directory, version, bundle_id),
        ) => if !directory {
            failed(m, plain_failure("ChatGPT 桌面应用路径不存在："@ + path), now)
        } else {
            with_app(captured(m, path, fresh, version, bundle_id), fresh, now)
        },
        (MacosPhaseView::Connecting(target), MacosEventView::DownloadOpened(length)) => (
            m.told(
                download_step(target),
                InstallerStepState::Running,
                download_detail(target),
                Some(0),
                download_total(target, length),
                now,
            ).at(MacosPhaseView::Receiving(target, download_total(target, length), 0)),
            MacosActionView::Receive(true),
        ),
        (
            MacosPhaseView::Receiving(target, total, count),
            MacosEventView::Received(more, waited),
        ) => {
            let sum = counted(count, more);
            let next = MacosPhaseView::Receiving(target, total, sum);
            if waited >= REPORT_INTERVAL_MS {
                (
                    m.told(
                        download_step(target),
                        InstallerStepState::Running,
                        download_detail(target),
                        Some(sum),
                        total,
                        now,
                    ).at(next),
                    MacosActionView::Receive(true),
                )
            } else {
                (m.at(next), MacosActionView::Receive(false))
            }
        },
        (MacosPhaseView::Receiving(target, total, count), MacosEventView::DownloadClosed) =>
            downloaded(m, target, total, count, now),
        (MacosPhaseView::ReadingManifest, MacosEventView::ManifestRead(list)) => with_manifest(
            m,
            list,
            now,
        ),
        (MacosPhaseView::ReadingVersion(asset), MacosEventView::VersionRead(version)) =>
            with_version(m, asset, version, now),
        (MacosPhaseView::Installing, MacosEventView::AppInstalled(end, output)) => installed(
            m,
            end,
            output,
            now,
        ),
        (_, _) => (m, MacosActionView::Ignore),
    }
}

/// What follows once the application is there.
pub open spec fn advanced_profile(m: MacosInstallerView, event: MacosEventView, now: Seq<char>) -> (
    MacosInstallerView,
    MacosActionView,
) {
    match (m.phase, event) {
        (MacosPhaseView::Deciding, MacosEventView::ActivationDecided(auto_activate)) => (
            m.at(MacosPhaseView::Initializing(auto_activate)),
            MacosActionView::InitializeProfile(m.workspace_id),
        ),
        (
            MacosPhaseView::Initializing(auto_activate),
            MacosEventView::ProfileReady(prepared, home),
        ) => with_profile(m, auto_activate, prepared, home, now),
        (MacosPhaseView::Finalizing(credential, home), MacosEventView::SetupFinalized) => (
            m.at(MacosPhaseView::CheckingReadiness(credential, home)),
            MacosActionView::CheckReadiness(m.workspace_id),
        ),
        (
            MacosPhaseView::CheckingReadiness(credential, home),
            MacosEventView::ReadinessChecked(ready),
        ) => if !ready {
            failed(m, plain_failure("安装配置完成，但独立工作区凭证归属回查失败"@), now)
        } else {
            (m.at(MacosPhaseView::ReadingState(credential, home)), MacosActionView::ReadState)
        },
        (
            MacosPhaseView::ReadingState(credential, home),
            MacosEventView::StateRead(mode, active, active_home),
        ) => if windows::profile_is_active(mode, active, active_home, m.workspace_id, home) {
            (m.at(MacosPhaseView::Launching(credential)), MacosActionView::LaunchDesktop(home))
        } else {
            finished(m, credential, SetupCompletionView::NotRequested, now)
        },
        (MacosPhaseView::Launching(credential), MacosEventView::DesktopLaunched(error)) => finished(
            m,
            credential,
            super::after_launch(error),
            now,
        ),
        (_, _) => (m, MacosActionView::Ignore),
    }
}

/// What follows in each phase.
pub open spec fn advanced(before: MacosInstallerView, event: MacosEventView, now: Seq<char>) -> (
    MacosInstallerView,
    MacosActionView,
) {
    let m = before.kept();
    match (before.phase, event) {
        (MacosPhaseView::Failed, _) => (m, MacosActionView::Ignore),
        (_, MacosEventView::SaveFailed(place, failure)) => if place < before.saves.len() {
            failed(
                (MacosInstallerView { status: before.saves[place as int], ..m }),
                failure,
                now,
            )
        } else {
            failed(m, failure, now)
        },
        (MacosPhaseView::Finished, _) => (m, MacosActionView::Ignore),
        (_, MacosEventView::Failed(failure)) => failed(m, failure, now),
        (_, _) => if prepares_app(before.phase) {
            advanced_app(m, event, now)
        } else {
            advanced_profile(m, event, now)
        },
    }
}

/// The last piece of a path that leads anywhere, if there is one.
fn last_piece(path: &str) -> (res: Option<String>)
    ensures
        match res {
            Some(piece) => manifest::leading_pieces(path@).len() > 0 && piece@
                == manifest::leading_pieces(path@).last(),
            None => manifest::leading_pieces(path@).len() == 0,
        },
{
    let pieces = text::split(path, '/');
    let ghost views = text::split_on(path@, '/');
    let ghost some = |piece: Seq<char>| manifest::leads(piece);
    proof {
        reveal(Seq::filter);
        assert(views.take(0).filter(some) =~= Seq::<Seq<char>>::empty());
    }
    let mut found: Option<String> = None;
    let mut i: usize = 0;
    while i < pieces.len()
        invariant
            i <= pieces.len(),
            views == text::split_on(path@, '/'),
            some == (|piece: Seq<char>| manifest::leads(piece)),
            text::views(pieces@) == views,
            match found {
                Some(piece) => views.take(i as int).filter(some).len() > 0 && piece@
                    == views.take(i as int).filter(some).last(),
                None => views.take(i as int).filter(some).len() == 0,
            },
        decreases pieces.len() - i,
    {
        proof {
            manifest::leading_pieces_grow(views, i as int);
            assert(views[i as int] == pieces@[i as int]@);
        }
        let piece = pieces[i].as_str();
        if !piece.is_empty() && !text::same(piece, ".") {
            found = Some(pieces[i].clone());
        }
        i = i + 1;
    }
    assert(views.take(i as int) =~= views);
    found
}

/// What the index of the system says of an application, unless it says nothing.
pub open spec fn indexed_metadata(indexed: Option<Seq<char>>) -> Option<Seq<char>> {
    match indexed {
        Some(said) => if text::blank(said) || text::trimmed(said) == "(null)"@ {
            None
        } else {
            Some(text::trimmed(said))
        },
        None => None,
    }
}

/// What is known of an application: what the index of the system says, else what its own list says,
/// else nothing.
pub open spec fn app_metadata(
    indexed: Option<Seq<char>>,
    listed: Option<Seq<char>>,
) -> Seq<char> {
    match indexed_metadata(indexed) {
        Some(said) => said,
        None => match listed {
            Some(said) => text::trimmed(said),
            None => seq![],
        },
    }
}

/// What the index of the system says of an application, unless it says nothing.
pub fn read_indexed_metadata(indexed: &Option<String>) -> (res: Option<String>)
    ensures
        text::opt_view(res) == indexed_metadata(text::opt_view(*indexed)),
{
    match indexed {
        Some(said) => {
            let plain = text::trim(said.as_str());
            if text::same(plain.as_str(), "") || text::same(plain.as_str(), "(null)") {
                proof {
                    reveal_strlit("");
                }
                None
            } else {
                proof {
                    reveal_strlit("");
                    if plain@.len() == 0 {
                        assert(plain@ =~= ""@);
                    }
                }
                Some(plain)
            }
        },
        None => None,
    }
}

/// What is known of an application, given what the index of the system says of it and what its own
/// list says.
pub fn read_app_metadata(indexed: &Option<String>, listed: &Option<String>) -> (res: String)
    ensures
        res@ == app_metadata(text::opt_view(*indexed), text::opt_view(*listed)),
{
    match read_indexed_metadata(indexed) {
        Some(said) => said,
        None => {
            match listed {
                Some(said) => text::trim(said.as_str()),
                None => {
                    let nothing = String::new();
                    assert(nothing@ =~= seq![]);
                    nothing
                },
            }
        },
    }
}

/// Whether the path is that of an application below the root.
pub fn is_app_path(path: &str) -> (res: bool)
    ensures
        res == app_path_valid(path@),
{
    if !text::starts_with(path, "/") {
        return false;
    }
    match last_piece(path) {
        None => false,
        Some(piece) => {
            let chars = text::chars_of(piece.as_str());
            text::ends_with(piece.as_str(), ".app") && chars.len() > 4
        },
    }
}

/// A copy of what is downloaded, for the next phase.
fn download_request(target: &DownloadTarget, url: String, file_name: String) -> (res:
    DownloadRequest)
    ensures
        res.deep_view() == (DownloadRequestView {
            url: url@,
            file_name: file_name@,
            detail: download_detail(target.deep_view()),
        }),
{
    DownloadRequest { url, file_name, detail: show_download(target) }
}

/// What is shown during a download.
fn show_download(target: &DownloadTarget) -> (res: String)
    ensures
        res@ == download_detail(target.deep_view()),
{
    match target {
        DownloadTarget::Manifest => "正在读取百积木安装包清单".to_string(),
        DownloadTarget::Archive(_) => "正在下载官方 ChatGPT 桌面应用安装包".to_string(),
    }
}

/// Whether the application is not there yet.
fn is_preparing_app(phase: &MacosPhase) -> (res: bool)
    ensures
        res == prepares_app(phase.deep_view()),
{
    match phase {
        MacosPhase::Locating
        | MacosPhase::Checking(_, _)
        | MacosPhase::Inspecting(_, _)
        | MacosPhase::Connecting(_)
        | MacosPhase::Receiving(_, _, _)
        | MacosPhase::ReadingManifest
        | MacosPhase::ReadingVersion(_)
        | MacosPhase::Installing => true,
        _ => false,
    }
}

/// The message of a download that failed.
pub fn download_failure(request: &DownloadRequest) -> (res: String)
    ensures
        res@ == request.deep_view().detail + "失败，下载地址："@ + request.deep_view().url,
{
    let mut out = request.detail.clone();
    out.append("失败，下载地址：");
    out.append(request.url.as_str());
    out
}

/// The failure of a setup whose result could not be kept either.
pub fn without_result(failure: SetupFailure, write_error: &str) -> (res: SetupFailure)
    ensures
        res.deep_view() == (SetupFailureView {
            message: "安装失败且结果文件写入失败："@ + write_error@,
            unsupported_os: failure.deep_view().unsupported_os,
        }),
{
    let mut message = "安装失败且结果文件写入失败：".to_string();
    message.append(write_error);
    SetupFailure { message, unsupported_os: failure.unsupported_os }
}

impl MacosInstaller {
    /// Begins an installation: the progress to keep first, and the first thing to do.
    pub fn start(
        workspace_id: u64,
        arch: String,
        source: UpstreamArtifactSourceV2,
        model: String,
        status_path: String,
        result_path: String,
        now: &str,
    ) -> (res: (Self, MacosAction))
        ensures
            res.0.deep_view() == begun(
                workspace_id,
                arch@,
                source.deep_view(),
                model@,
                status_path@,
                result_path@,
                now@,
            ),
            res.0.deep_view().well_formed(),
            res.1.deep_view() == MacosActionView::LocateApp,
    {
        let status = InstallerStatus::macos(now.to_string(), status_path, result_path);
        let ghost first = status.deep_view();
        let result = MacosInstallerResult::pending(
            now.to_string(),
            String::new(),
            workspace_id,
            model,
        );
        let mut saves: Vec<InstallerStatus> = Vec::new();
        saves.push(status.duplicate());
        let mut installer = MacosInstaller {
            workspace_id,
            arch,
            source,
            status,
            saves,
            result,
            phase: MacosPhase::Locating,
        };
        proof {
            assert(contract::macos_steps().len() == 7);
            assert(has_all_steps(first));
            assert(installer.deep_view().saves =~= seq![first]);
            assert(installer.deep_view().result.codex_home =~= Seq::<char>::empty());
        }
        installer.step(1, InstallerStepState::Running, "正在检查 ChatGPT 桌面应用", now);
        (installer, MacosAction::LocateApp)
    }

    /// Tells of a step.
    fn tell(
        &mut self,
        index: usize,
        state: InstallerStepState,
        detail: &str,
        downloaded: Option<u64>,
        total: Option<u64>,
        now: &str,
    )
        requires
            old(self).deep_view().well_formed(),
            1 <= index <= 7,
        ensures
            final(self).deep_view() == old(self).deep_view().told(
                index,
                state,
                detail@,
                downloaded,
                total,
                now@,
            ),
            final(self).deep_view().well_formed(),
    {
        let ghost before = self.deep_view();
        assert(contract::has_step(before.status, index)) by {
            assert(before.status.steps[index - 1].index == index);
        }
        let told = self.status.update_step(
            index,
            state,
            detail,
            downloaded,
            total,
            now.to_string(),
        );
        assert(told is Ok);
        self.saves.push(self.status.duplicate());
        assert(self.deep_view().saves =~= before.saves.push(self.deep_view().status));
        assert(has_all_steps(self.deep_view().status));
    }

    /// Tells of a step that downloads nothing.
    fn step(&mut self, index: usize, state: InstallerStepState, detail: &str, now: &str)
        requires
            old(self).deep_view().well_formed(),
            1 <= index <= 7,
        ensures
            final(self).deep_view() == old(self).deep_view().step(index, state, detail@, now@),
            final(self).deep_view().well_formed(),
    {
        self.tell(index, state, detail, None, None, now);
    }

    /// Ends every step that has not begun.
    fn settle(&mut self, detail: &str, now: &str)
        requires
            old(self).deep_view().well_formed(),
        ensures
            final(self).deep_view() == old(self).deep_view().settled(detail@, now@),
            final(self).deep_view().well_formed(),
    {
        let ghost before = self.deep_view();
        self.status.complete_pending(InstallerStepState::Skipped, detail, now.to_string());
        self.saves.push(self.status.duplicate());
        assert(self.deep_view().saves =~= before.saves.push(self.deep_view().status));
        assert(has_all_steps(self.deep_view().status)) by {
            let after = self.deep_view().status;
            assert forall|i: int| 0 <= i < 7 implies (#[trigger] after.steps[i]).index == i + 1 by {
                assert(before.status.steps[i].index == i + 1);
            }
        }
    }

    /// Ends the installation with a failure.
    fn fail(&mut self, failure: SetupFailure, now: &str) -> (res: MacosAction)
        requires
            old(self).deep_view().well_formed(),
        ensures
            (final(self).deep_view(), res.deep_view()) == failed(
                old(self).deep_view(),
                failure.deep_view(),
                now@,
            ),
            final(self).deep_view().well_formed(),
    {
        let message = compact_error(failure.message.as_str());
        let index: usize = self.status.current_step;
        if index != 0 {
            let downloaded = self.status.steps[index - 1].downloaded_bytes;
            let total = self.status.steps[index - 1].total_bytes;
            self.tell(
                index,
                InstallerStepState::Failed,
                message.as_str(),
                downloaded,
                total,
                now,
            );
        }
        self.settle("安装已停止", now);
        self.result.ok = false;
        let mut errors: Vec<String> = Vec::new();
        errors.push(message.clone());
        assert(errors.deep_view() =~= seq![message@]);
        self.result.errors = errors;
        self.phase = MacosPhase::Failed;
        MacosAction::Fail(SetupFailure { message, unsupported_os: failure.unsupported_os })
    }

    /// Ends the installation with a failure of which there is only a message.
    fn fail_with(&mut self, message: String, now: &str) -> (res: MacosAction)
        requires
            old(self).deep_view().well_formed(),
        ensures
            (final(self).deep_view(), res.deep_view()) == failed(
                old(self).deep_view(),
                plain_failure(message@),
                now@,
            ),
            final(self).deep_view().well_formed(),
    {
        self.fail(SetupFailure { message, unsupported_os: false }, now)
    }

    /// Takes that there is no application.
    fn take_no_app(&mut self, now: &str) -> (res: MacosAction)
        requires
            old(self).deep_view().well_formed(),
        ensures
            (final(self).deep_view(), res.deep_view()) == without_app(old(self).deep_view(), now@),
            final(self).deep_view().well_formed(),
    {
        self.step(1, InstallerStepState::Completed, "未安装 ChatGPT 桌面应用，正在准备安装", now);
        match source::manifest_url(&self.source) {
            Err(error) => self.fail_with(error.message(), now),
            Ok(url) => {
                self.phase = MacosPhase::Connecting(DownloadTarget::Manifest);
                MacosAction::Download(
                    download_request(&DownloadTarget::Manifest, url, "latest.json".to_string()),
                )
            },
        }
    }

    /// Takes what is known of the application.
    fn take_app(
        &mut self,
        path: String,
        fresh: bool,
        version: String,
        bundle_id: String,
        now: &str,
    ) -> (res: MacosAction)
        requires
            old(self).deep_view().well_formed(),
        ensures
            (final(self).deep_view(), res.deep_view()) == with_app(
                captured(old(self).deep_view(), path@, fresh, version@, bundle_id@),
                fresh,
                now@,
            ),
            final(self).deep_view().well_formed(),
    {
        self.result.app_installed = true;
        self.result.app_install_method = if fresh {
            "baijimu-cache-dmg".to_string()
        } else {
            "already-installed".to_string()
        };
        self.result.app_path = path;
        self.result.version = version;
        self.result.bundle_id = bundle_id;
        if fresh {
            self.step(4, InstallerStepState::Completed, "ChatGPT 桌面应用已安装", now);
        } else {
            self.step(1, InstallerStepState::Completed, "ChatGPT 桌面应用已安装", now);
            self.step(2, InstallerStepState::Skipped, "无需读取应用安装包清单", now);
            self.step(3, InstallerStepState::Skipped, "无需下载应用安装包", now);
            self.step(4, InstallerStepState::Skipped, "无需重新安装应用", now);
        }
        self.step(5, InstallerStepState::Running, "正在创建百积木 LLM 凭证并写入 Codex 配置", now);
        self.phase = MacosPhase::Deciding;
        MacosAction::DecideActivation
    }

    /// Takes the beginning of a download.
    fn take_opened(&mut self, target: DownloadTarget, length: Option<u64>, now: &str) -> (res:
        MacosAction)
        requires
            old(self).deep_view().well_formed(),
        ensures
            final(self).deep_view() == old(self).deep_view().told(
                download_step(target.deep_view()),
                InstallerStepState::Running,
                download_detail(target.deep_view()),
                Some(0),
                download_total(target.deep_view(), length),
                now@,
            ).at(
                MacosPhaseView::Receiving(
                    target.deep_view(),
                    download_total(target.deep_view(), length),
                    0,
                ),
            ),
            res.deep_view() == MacosActionView::Receive(true),
            final(self).deep_view().well_formed(),
    {
        let (index, total): (usize, Option<u64>) = match &target {
            DownloadTarget::Manifest => (2, length),
            DownloadTarget::Archive(asset) => (3, Some(asset.size_bytes)),
        };
        let detail = show_download(&target);
        self.tell(index, InstallerStepState::Running, detail.as_str(), Some(0), total, now);
        self.phase = MacosPhase::Receiving(target, total, 0);
        MacosAction::Receive(true)
    }

    /// Takes some bytes of a download.
    fn take_bytes(
        &mut self,
        target: DownloadTarget,
        total: Option<u64>,
        count: u64,
        waited: u64,
        now: &str,
    ) -> (res: MacosAction)
        requires
            old(self).deep_view().well_formed(),
        ensures
            final(self).deep_view() == (if waited >= REPORT_INTERVAL_MS {
                old(self).deep_view().told(
                    download_step(target.deep_view()),
                    InstallerStepState::Running,
                    download_detail(target.deep_view()),
                    Some(count),
                    total,
                    now@,
                )
            } else {
                old(self).deep_view()
            }).at(MacosPhaseView::Receiving(target.deep_view(), total, count)),
            res.deep_view() == MacosActionView::Receive(waited >= REPORT_INTERVAL_MS),
            final(self).deep_view().well_formed(),
    {
        let due = waited >= REPORT_INTERVAL_MS;
        if due {
            let index: usize = match &target {
                DownloadTarget::Manifest => 2,
                DownloadTarget::Archive(_) => 3,
            };
            let detail = show_download(&target);
            self.tell(
                index,
                InstallerStepState::Running,
                detail.as_str(),
                Some(count),
                total,
                now,
            );
        }
        self.phase = MacosPhase::Receiving(target, total, count);
        MacosAction::Receive(due)
    }

    /// Takes the end of a download.
    fn take_download(
        &mut self,
        target: DownloadTarget,
        total: Option<u64>,
        count: u64,
        now: &str,
    ) -> (res: MacosAction)
        requires
            old(self).deep_view().well_formed(),
        ensures
            (final(self).deep_view(), res.deep_view()) == downloaded(
                old(self).deep_view(),
                target.deep_view(),
                total,
                count,
                now@,
            ),
            final(self).deep_view().well_formed(),
    {
        let detail = show_download(&target);
        match target {
            DownloadTarget::Manifest => {
                self.tell(
                    2,
                    InstallerStepState::Completed,
                    detail.as_str(),
                    Some(count),
                    total,
                    now,
                );
                self.phase = MacosPhase::ReadingManifest;
                MacosAction::ReadManifest
            },
            DownloadTarget::Archive(asset) => {
                self.tell(
                    3,
                    InstallerStepState::Completed,
                    detail.as_str(),
                    Some(count),
                    total,
                    now,
                );
                self.step(4, InstallerStepState::Running, "正在校验并安装 ChatGPT 桌面应用", now);
                self.phase = MacosPhase::Installing;
                MacosAction::InstallApp(asset.name, asset.sha256)
            },
        }
    }

    /// Takes the list of packages.
    fn take_manifest(&mut self, list: UpstreamManifestV4, now: &str) -> (res: MacosAction)
        requires
            old(self).deep_view().well_formed(),
        ensures
            (final(self).deep_view(), res.deep_view()) == with_manifest(
                old(self).deep_view(),
                list.deep_view(),
                now@,
            ),
            final(self).deep_view().well_formed(),
    {
        match list.validate() {
            Err(error) => self.fail_with(error.message(), now),
            Ok(()) => match list.select_asset(DESKTOP_COMPONENT, self.arch.as_str()) {
                Err(error) => self.fail_with(error.message(), now),
                Ok(asset) => {
                    self.phase = MacosPhase::ReadingVersion(asset.duplicate());
                    MacosAction::ReadVersion
                },
            },
        }
    }

    /// Takes the version of the system.
    fn take_version(&mut self, asset: UpstreamAssetV4, version: &str, now: &str) -> (res:
        MacosAction)
        requires
            old(self).deep_view().well_formed(),
        ensures
            (final(self).deep_view(), res.deep_view()) == with_version(
                old(self).deep_view(),
                asset.deep_view(),
                version@,
                now@,
            ),
            final(self).deep_view().well_formed(),
    {
        match asset.ensure_current_macos_supported(version) {
            Err(RequirementFault::Missing(error)) => self.fail_with(error.message(), now),
            Err(RequirementFault::Incompatible(error)) => self.fail(
                SetupFailure::from_compatibility(&error),
                now,
            ),
            Ok(()) => {
                let mut detail = "已找到制品 ".to_string();
                detail.append(asset.name.as_str());
                self.step(2, InstallerStepState::Completed, detail.as_str(), now);
                let url = asset.mirror_url.clone();
                let name = asset.name.clone();
                let target = DownloadTarget::Archive(asset);
                let request = download_request(&target, url, name);
                self.phase = MacosPhase::Connecting(target);
                MacosAction::Download(request)
            },
        }
    }

    /// Takes the end of the installing program.
    fn take_installed(&mut self, end: ProcessEnd, output: Option<String>, now: &str) -> (res:
        MacosAction)
        requires
            old(self).deep_view().well_formed(),
        ensures
            (final(self).deep_view(), res.deep_view()) == installed(
                old(self).deep_view(),
                end.deep_view(),
                text::opt_view(output),
                now@,
            ),
            final(self).deep_view().well_formed(),
    {
        if !end.success {
            let mut message = "macOS 原生安装动作失败：install-app".to_string();
            message.append(end.show().as_str());
            return self.fail_with(message, now);
        }
        match output {
            None => self.fail_with("macOS 原生安装动作返回了非 UTF-8 输出".to_string(), now),
            Some(output) => {
                let path = text::trim(output.as_str());
                if !is_app_path(path.as_str()) {
                    return self.fail_with(
                        "macOS 原生安装适配器返回了无效应用路径".to_string(),
                        now,
                    );
                }
                self.phase = MacosPhase::Checking(path.clone(), true);
                MacosAction::CheckCompatibility(path)
            },
        }
    }

    /// Takes the profile.
    fn take_profile(
        &mut self,
        auto_activate: bool,
        prepared: PreparedWorkspaceProfile,
        home: CodexPath,
        now: &str,
    ) -> (res: MacosAction)
        requires
            old(self).deep_view().well_formed(),
        ensures
            (final(self).deep_view(), res.deep_view()) == with_profile(
                old(self).deep_view(),
                auto_activate,
                prepared.deep_view(),
                home.deep_view(),
                now@,
            ),
            final(self).deep_view().well_formed(),
    {
        let ghost before = self.deep_view();
        self.result.codex_home = home.text.clone();
        self.result.llm_credential_created = true;
        self.result.config_written = true;
        self.result.auth_written = true;
        assert(self.deep_view().status == before.status && self.deep_view().saves == before.saves);
        self.step(5, InstallerStepState::Completed, "已使用百积木 LLM 凭证写入 Codex 配置", now);
        self.step(6, InstallerStepState::Skipped, "安装完成后由桌面管理器在后台验证百积木路由", now);
        self.step(7, InstallerStepState::Running, "正在提交工作区档案并启动桌面应用", now);
        self.phase = MacosPhase::Finalizing(prepared.credential, home);
        MacosAction::FinalizeSetup(prepared.profile, auto_activate)
    }

    /// Ends the installation well.
    fn finish(&mut self, credential: String, completion: SetupCompletion, now: &str) -> (res:
        MacosAction)
        requires
            old(self).deep_view().well_formed(),
        ensures
            (final(self).deep_view(), res.deep_view()) == finished(
                old(self).deep_view(),
                credential@,
                completion.deep_view(),
                now@,
            ),
            final(self).deep_view().well_formed(),
    {
        let ghost before = self.deep_view();
        self.result.ok = true;
        match completion.warning() {
            Some(warning) => {
                self.result.warnings.push(warning.to_string());
                assert(self.result.warnings.deep_view() =~= before.result.warnings.push(warning@));
            },
            None => {},
        }
        let message = completion.message();
        assert(self.deep_view().status == before.status && self.deep_view().saves == before.saves);
        self.step(7, InstallerStepState::Completed, message.as_str(), now);
        self.settle("安装已完成", now);
        self.phase = MacosPhase::Finished;
        MacosAction::Finish(SetupInstallation { completion, router_credential: credential })
    }

    /// Takes what is in effect.
    fn take_state(
        &mut self,
        credential: String,
        home: CodexPath,
        mode: AuthMode,
        active: Option<u64>,
        active_home: &CodexPath,
        now: &str,
    ) -> (res: MacosAction)
        requires
            old(self).deep_view().well_formed(),
        ensures
            (final(self).deep_view(), res.deep_view()) == if windows::profile_is_active(
                mode,
                active,
                active_home.deep_view(),
                old(self).workspace_id,
                home.deep_view(),
            ) {
                (
                    old(self).deep_view().at(MacosPhaseView::Launching(credential@)),
                    MacosActionView::LaunchDesktop(home.deep_view()),
                )
            } else {
                finished(
                    old(self).deep_view(),
                    credential@,
                    SetupCompletionView::NotRequested,
                    now@,
                )
            },
            final(self).deep_view().well_formed(),
    {
        if windows::workspace_profile_is_active(
            mode,
            active,
            active_home,
            self.workspace_id,
            &home,
        ) {
            self.phase = MacosPhase::Launching(credential);
            MacosAction::LaunchDesktop(home)
        } else {
            self.finish(credential, SetupCompletion::completed_without_desktop_launch(), now)
        }
    }

    /// Goes on until the application is there.
    fn advance_app(&mut self, phase: MacosPhase, event: MacosEvent, now: &str) -> (res: MacosAction)
        requires
            old(self).deep_view().well_formed(),
        ensures
            (final(self).deep_view(), res.deep_view()) == advanced_app(
                old(self).deep_view().at(phase.deep_view()),
                event.deep_view(),
                now@,
            ),
            final(self).deep_view().well_formed(),
    {
        match (phase, event) {
            (MacosPhase::Locating, MacosEvent::AppLocated(Some(path))) => {
                self.phase = MacosPhase::Checking(path.clone(), false);
                MacosAction::CheckCompatibility(path)
            },
            (MacosPhase::Locating, MacosEvent::AppLocated(None)) => {
                self.phase = MacosPhase::Locating;
                self.take_no_app(now)
            },
            (MacosPhase::Checking(path, fresh), MacosEvent::Compatible) => {
                self.phase = MacosPhase::Inspecting(path.clone(), fresh);
                MacosAction::InspectApp(path)
            },
            (
                MacosPhase::Inspecting(path, fresh),
                MacosEvent::AppInspected(directory, version, bundle_id),
            ) => {
                self.phase = MacosPhase::Inspecting(path.clone(), fresh);
                if !directory {
                    let mut message = "ChatGPT 桌面应用路径不存在：".to_string();
                    message.append(path.as_str());
                    self.fail_with(message, now)
                } else {
                    self.take_app(path, fresh, version, bundle_id, now)
                }
            },
            (MacosPhase::Connecting(target), MacosEvent::DownloadOpened(length)) => {
                self.take_opened(target, length, now)
            },
            (MacosPhase::Receiving(target, total, count), MacosEvent::Received(more, waited)) => {
                let sum: u64 = if count > u64::MAX - more {
                    u64::MAX
                } else {
                    count + more
                };
                self.take_bytes(target, total, sum, waited, now)
            },
            (MacosPhase::Receiving(target, total, count), MacosEvent::DownloadClosed) => {
                self.take_download(target, total, count, now)
            },
            (MacosPhase::ReadingManifest, MacosEvent::ManifestRead(list)) => {
                self.phase = MacosPhase::ReadingManifest;
                self.take_manifest(list, now)
            },
            (MacosPhase::ReadingVersion(asset), MacosEvent::VersionRead(version)) => {
                self.take_version(asset, version.as_str(), now)
            },
            (MacosPhase::Installing, MacosEvent::AppInstalled(end, output)) => {
                self.phase = MacosPhase::Installing;
                self.take_installed(end, output, now)
            },
            (phase, _) => {
                self.phase = phase;
                MacosAction::Ignore
            },
        }
    }

    /// Goes on once the application is there.
    fn advance_profile(&mut self, phase: MacosPhase, event: MacosEvent, now: &str) -> (res: MacosAction)
        requires
            old(self).deep_view().well_formed(),
        ensures
            (final(self).deep_view(), res.deep_view()) == advanced_profile(
                old(self).deep_view().at(phase.deep_view()),
                event.deep_view(),
                now@,
            ),
            final(self).deep_view().well_formed(),
    {
        match (phase, event) {
            (MacosPhase::Deciding, MacosEvent::ActivationDecided(auto_activate)) => {
                self.phase = MacosPhase::Initializing(auto_activate);
                MacosAction::InitializeProfile(self.workspace_id)
            },
            (MacosPhase::Initializing(auto_activate), MacosEvent::ProfileReady(prepared, home)) => {
                self.take_profile(auto_activate, prepared, home, now)
            },
            (MacosPhase::Finalizing(credential, home), MacosEvent::SetupFinalized) => {
                self.phase = MacosPhase::CheckingReadiness(credential, home);
                MacosAction::CheckReadiness(self.workspace_id)
            },
            (MacosPhase::CheckingReadiness(credential, home), MacosEvent::ReadinessChecked(ready)) => {
                if ready {
                    self.phase = MacosPhase::ReadingState(credential, home);
                    MacosAction::ReadState
                } else {
                    self.fail_with("安装配置完成，但独立工作区凭证归属回查失败".to_string(), now)
                }
            },
            (
                MacosPhase::ReadingState(credential, home),
                MacosEvent::StateRead(mode, active, active_home),
            ) => self.take_state(credential, home, mode, active, &active_home, now),
            (MacosPhase::Launching(credential), MacosEvent::DesktopLaunched(error)) => {
                let result = match error {
                    None => Ok(()),
                    Some(error) => Err(error),
                };
                self.finish(credential, SetupCompletion::from_desktop_launch(result), now)
            },
            (phase, _) => {
                self.phase = phase;
                MacosAction::Ignore
            },
        }
    }

    /// Takes what came of what was to be done, and says what is to be kept and done next.
    pub fn advance(self, event: MacosEvent, now: &str) -> (res: (Self, MacosAction))
        requires
            self.deep_view().well_formed(),
        ensures
            (res.0.deep_view(), res.1.deep_view()) == advanced(
                self.deep_view(),
                event.deep_view(),
                now@,
            ),
            res.0.deep_view().well_formed(),
    {
        let ghost before = self.deep_view();
        let saves = self.saves;
        let phase = self.phase;
        let mut next = MacosInstaller {
            workspace_id: self.workspace_id,
            arch: self.arch,
            source: self.source,
            status: self.status,
            saves: Vec::new(),
            result: self.result,
            phase: MacosPhase::Failed,
        };
        assert(next.deep_view().saves =~= Seq::<InstallerStatusView>::empty());
        assert(saves.deep_view() == before.saves);
        let action = match (phase, event) {
            (MacosPhase::Failed, _) => MacosAction::Ignore,
            (phase, MacosEvent::SaveFailed(place, failure)) => {
                next.phase = phase;
                if place < saves.len() {
                    next.status = saves[place].duplicate();
                    assert(next.deep_view().status == before.saves[place as int]);
                }
                next.fail(failure, now)
            },
            (MacosPhase::Finished, _) => {
                next.phase = MacosPhase::Finished;
                MacosAction::Ignore
            },
            (phase, MacosEvent::Failed(failure)) => {
                next.phase = phase;
                next.fail(failure, now)
            },
            (phase, event) => {
                if is_preparing_app(&phase) {
                    next.advance_app(phase, event, now)
                } else {
                    next.advance_profile(phase, event, now)
                }
            },
        };
        (next, action)
    }

    /// The result that is kept at the end.
    pub fn into_result(self, elapsed_ms: u128) -> (res: MacosInstallerResult)
        ensures
            res.deep_view() == (MacosInstallerResultView { elapsed_ms, ..self.deep_view().result }),
    {
        MacosInstallerResult { elapsed_ms, ..self.result }
    }
}

/// An installation that begins: the progress before the first step and with it are to be kept.
pub open spec fn begun(
    workspace_id: u64,
    arch: Seq<char>,
    source: UpstreamArtifactSourceV2View,
    model: Seq<char>,
    status_path: Seq<char>,
    result_path: Seq<char>,
    now: Seq<char>,
) -> MacosInstallerView {
    let status = contract::macos_status(now, status_path, result_path);
    MacosInstallerView {
        workspace_id,
        arch,
        source,
        status,
        saves: seq![status],
        result: contract::pending_result(now, Seq::empty(), workspace_id, model),
        phase: MacosPhaseView::Locating,
    }.step(1, InstallerStepState::Running, "正在检查 ChatGPT 桌面应用"@, now)
}

} // verus!
