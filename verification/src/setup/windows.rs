//! The installation on Windows: what is done after what.
use super::contract::{InstallerResultEnvelope, InstallerResultEnvelopeView};
use super::process::{ProcessEnd, ProcessEndView};
use super::{
    compact_error, SetupCompletion, SetupCompletionView, SetupFailure, SetupFailureView,
};
use crate::codex_path::{CodexPath, CodexPathView};
use crate::credential::contract::{
    AuthMode, CredentialProfile, CredentialProfileView, PreparedWorkspaceProfile,
    PreparedWorkspaceProfileView,
};
use crate::duplicate::Duplicate;
use crate::environment;
use crate::environment::{new_variable, EnvironmentVariable, EnvironmentVariableView};
use crate::product_config::ProductConfig;
use crate::text;
use vstd::prelude::*;

verus! {

/// How the installation script ended.
#[derive(Debug)]
pub struct InstallerRun {
    /// How the program ended.
    pub end: ProcessEnd,
    /// What it reported, where it did.
    pub result: Option<InstallerResultEnvelope>,
    /// Where it reports.
    pub result_path: String,
}

/// The view of `InstallerRun`: the same fields with their texts as characters.
pub struct InstallerRunView {
    pub end: ProcessEndView,
    pub result: Option<InstallerResultEnvelopeView>,
    pub result_path: Seq<char>,
}

impl DeepView for InstallerRun {
    type V = InstallerRunView;

    open spec fn deep_view(&self) -> InstallerRunView {
        InstallerRunView {
            end: self.end.deep_view(),
            result: self.result.deep_view(),
            result_path: self.result_path@,
        }
    }
}

impl Duplicate for InstallerRun {
    fn duplicate(&self) -> (res: Self) {
        InstallerRun {
            end: self.end.duplicate(),
            result: self.result.duplicate(),
            result_path: self.result_path.duplicate(),
        }
    }
}

/// What went wrong according to the script, as one text.
pub open spec fn reported_errors(run: InstallerRunView, result: InstallerResultEnvelopeView) -> Seq<
    char,
> {
    if result.errors.len() > 0 {
        text::joined(result.errors, "；"@)
    } else {
        run.end.stderr
    }
}

/// What went wrong with the script, if anything.
pub open spec fn run_fault(run: InstallerRunView) -> Option<Seq<char>> {
    match run.result {
        None => Some(
            "安装脚本没有生成结果文件: "@ + run.result_path + super::process::shown_end(run.end),
        ),
        Some(result) => if !run.end.success || !result.ok {
            Some(
                "官方安装脚本执行失败: "@ + super::compacted_error(reported_errors(run, result)),
            )
        } else {
            None
        },
    }
}

impl InstallerRun {
    /// What went wrong with the script, if anything. A script that reports nothing failed.
    pub fn check(&self) -> (res: Option<SetupFailure>)
        ensures
            match res {
                Some(failure) => run_fault(self.deep_view()) == Some(failure.deep_view().message)
                    && !failure.deep_view().unsupported_os,
                None => run_fault(self.deep_view()) is None,
            },
    {
        match &self.result {
            None => {
                let mut message = "安装脚本没有生成结果文件: ".to_string();
                message.append(self.result_path.as_str());
                message.append(self.end.show().as_str());
                Some(SetupFailure { message, unsupported_os: false })
            },
            Some(result) => {
                if self.end.success && result.ok {
                    return None;
                }
                let errors = if result.errors.len() > 0 {
                    text::join(&result.errors, "；")
                } else {
                    self.end.stderr.clone()
                };
                assert(errors@ == reported_errors(self.deep_view(), result.deep_view())) by {
                    assert(text::views(result.errors@) =~= result.errors.deep_view());
                }
                let mut message = "官方安装脚本执行失败: ".to_string();
                message.append(compact_error(errors.as_str()).as_str());
                Some(SetupFailure { message, unsupported_os: false })
            },
        }
    }
}

/// Whether the profile of the workspace is the one in effect.
pub open spec fn profile_is_active(
    mode: AuthMode,
    active_workspace_id: Option<u64>,
    active_home: CodexPathView,
    workspace_id: u64,
    profile_home: CodexPathView,
) -> bool {
    mode == AuthMode::Baijimu && active_workspace_id == Some(workspace_id)
        && active_home.components == profile_home.components
}

/// Whether the profile of the workspace is the one in effect.
pub fn workspace_profile_is_active(
    mode: AuthMode,
    active_workspace_id: Option<u64>,
    active_home: &CodexPath,
    workspace_id: u64,
    profile_home: &CodexPath,
) -> (res: bool)
    ensures
        res == profile_is_active(
            mode,
            active_workspace_id,
            active_home.deep_view(),
            workspace_id,
            profile_home.deep_view(),
        ),
{
    mode == AuthMode::Baijimu && active_workspace_id == Some(workspace_id)
        && active_home.same_as(profile_home)
}

/// How far an installation on Windows is.
pub enum WindowsPhase {
    /// It is asked whether the workspace is to be put in effect.
    Deciding,
    /// The profile is prepared; whether it is to be put in effect.
    Preparing(bool),
    /// The script runs for the profile with this home.
    Installing(bool, PreparedWorkspaceProfile, CodexPath),
    /// The profile with this home is put on record.
    Finalizing(CodexPath),
    /// It is asked what is in effect.
    ReadingState(CodexPath),
    /// The temporary files are removed; the home, where it is in effect.
    Cleaning(Option<CodexPath>),
    /// The temporary files are removed after a failure.
    CleaningAfter(SetupFailure),
    /// It is asked whether the workspace is ready.
    CheckingReadiness(Option<CodexPath>),
    /// The desktop application is opened.
    Launching,
    /// Nothing more is to be done.
    Ended,
}

/// The view of `WindowsPhase`: the same values with their texts as characters.
pub enum WindowsPhaseView {
    Deciding,
    Preparing(bool),
    Installing(bool, PreparedWorkspaceProfileView, CodexPathView),
    Finalizing(CodexPathView),
    ReadingState(CodexPathView),
    Cleaning(Option<CodexPathView>),
    CleaningAfter(SetupFailureView),
    CheckingReadiness(Option<CodexPathView>),
    Launching,
    Ended,
}

impl DeepView for WindowsPhase {
    type V = WindowsPhaseView;

    open spec fn deep_view(&self) -> WindowsPhaseView {
        match self {
            WindowsPhase::Deciding => WindowsPhaseView::Deciding,
            WindowsPhase::Preparing(a) => WindowsPhaseView::Preparing(*a),
            WindowsPhase::Installing(a, b, c) => WindowsPhaseView::Installing(*a, b.deep_view(), c.deep_view()),
            WindowsPhase::Finalizing(a) => WindowsPhaseView::Finalizing(a.deep_view()),
            WindowsPhase::ReadingState(a) => WindowsPhaseView::ReadingState(a.deep_view()),
            WindowsPhase::Cleaning(a) => WindowsPhaseView::Cleaning(a.deep_view()),
            WindowsPhase::CleaningAfter(a) => WindowsPhaseView::CleaningAfter(a.deep_view()),
            WindowsPhase::CheckingReadiness(a) => WindowsPhaseView::CheckingReadiness(a.deep_view()),
            WindowsPhase::Launching => WindowsPhaseView::Launching,
            WindowsPhase::Ended => WindowsPhaseView::Ended,
        }
    }
}

/// What came of what was to be done.
pub enum WindowsEvent {
    /// Whether the workspace is to be put in effect.
    ActivationDecided(bool),
    /// The profile and its home.
    ProfilePrepared(PreparedWorkspaceProfile, CodexPath),
    /// The script ended.
    InstallerEnded(InstallerRun),
    /// The profile is on record.
    SetupFinalized,
    /// What is in effect: the mode, the workspace and the home.
    StateRead(AuthMode, Option<u64>, CodexPath),
    /// The temporary files are removed.
    FilesRemoved,
    /// Whether the workspace is ready.
    ReadinessChecked(bool),
    /// The desktop application was to be opened; the error where it was not.
    DesktopLaunched(Option<String>),
    /// It could not be done.
    Failed(SetupFailure),
}

/// The view of `WindowsEvent`: the same values with their texts as characters.
pub enum WindowsEventView {
    ActivationDecided(bool),
    ProfilePrepared(PreparedWorkspaceProfileView, CodexPathView),
    InstallerEnded(InstallerRunView),
    SetupFinalized,
    StateRead(AuthMode, Option<u64>, CodexPathView),
    FilesRemoved,
    ReadinessChecked(bool),
    DesktopLaunched(Option<Seq<char>>),
    Failed(SetupFailureView),
}

impl DeepView for WindowsEvent {
    type V = WindowsEventView;

    open spec fn deep_view(&self) -> WindowsEventView {
        match self {
            WindowsEvent::ActivationDecided(a) => WindowsEventView::ActivationDecided(*a),
            WindowsEvent::ProfilePrepared(a, b) => WindowsEventView::ProfilePrepared(a.deep_view(), b.deep_view()),
            WindowsEvent::InstallerEnded(a) => WindowsEventView::InstallerEnded(a.deep_view()),
            WindowsEvent::SetupFinalized => WindowsEventView::SetupFinalized,
            WindowsEvent::StateRead(a, b, c) => WindowsEventView::StateRead(*a, b.deep_view(), c.deep_view()),
            WindowsEvent::FilesRemoved => WindowsEventView::FilesRemoved,
            WindowsEvent::ReadinessChecked(a) => WindowsEventView::ReadinessChecked(*a),
            WindowsEvent::DesktopLaunched(a) => WindowsEventView::DesktopLaunched(a.deep_view()),
            WindowsEvent::Failed(a) => WindowsEventView::Failed(a.deep_view()),
        }
    }
}

/// What is to be done.
pub enum WindowsAction {
    /// To ask whether the workspace is to be put in effect.
    DecideActivation,
    /// To prepare the profile of the workspace.
    PrepareProfile(u64),
    /// To write the credential and the script and to run the script.
    RunInstaller(PreparedWorkspaceProfile),
    /// To put the profile on record, and in effect where that is wanted.
    FinalizeSetup(CredentialProfile, bool),
    /// To ask what is in effect.
    ReadState,
    /// To remove the credential and the script.
    RemoveFiles,
    /// To ask whether the workspace is ready.
    CheckReadiness(u64),
    /// To open the desktop application on the home.
    LaunchDesktop(CodexPath),
    /// Nothing; the setup ended well.
    Finish(SetupCompletion),
    /// Nothing; the setup failed.
    Fail(SetupFailure),
    /// Nothing; this was not waited for.
    Ignore,
}

/// The view of `WindowsAction`: the same values with their texts as characters.
pub enum WindowsActionView {
    DecideActivation,
    PrepareProfile(u64),
    RunInstaller(PreparedWorkspaceProfileView),
    FinalizeSetup(CredentialProfileView, bool),
    ReadState,
    RemoveFiles,
    CheckReadiness(u64),
    LaunchDesktop(CodexPathView),
    Finish(SetupCompletionView),
    Fail(SetupFailureView),
    Ignore,
}

impl DeepView for WindowsAction {
    type V = WindowsActionView;

    open spec fn deep_view(&self) -> WindowsActionView {
        match self {
            WindowsAction::DecideActivation => WindowsActionView::DecideActivation,
            WindowsAction::PrepareProfile(a) => WindowsActionView::PrepareProfile(*a),
            WindowsAction::RunInstaller(a) => WindowsActionView::RunInstaller(a.deep_view()),
            WindowsAction::FinalizeSetup(a, b) => WindowsActionView::FinalizeSetup(a.deep_view(), *b),
            WindowsAction::ReadState => WindowsActionView::ReadState,
            WindowsAction::RemoveFiles => WindowsActionView::RemoveFiles,
            WindowsAction::CheckReadiness(a) => WindowsActionView::CheckReadiness(*a),
            WindowsAction::LaunchDesktop(a) => WindowsActionView::LaunchDesktop(a.deep_view()),
            WindowsAction::Finish(a) => WindowsActionView::Finish(a.deep_view()),
            WindowsAction::Fail(a) => WindowsActionView::Fail(a.deep_view()),
            WindowsAction::Ignore => WindowsActionView::Ignore,
        }
    }
}

/// The failure that the workspace is not ready after all.
pub open spec fn not_ready() -> SetupFailureView {
    SetupFailureView {
        message: "安装脚本执行成功，但独立工作区凭证归属回查失败"@,
        unsupported_os: false,
    }
}

/// Whether the temporary files may be there and are to be removed after a failure.
pub open spec fn keeps_files(phase: WindowsPhaseView) -> bool {
    phase is Preparing || phase is Installing || phase is Finalizing || phase is ReadingState
}

/// What follows after a failure.
pub open spec fn after_failure(phase: WindowsPhaseView, failure: SetupFailureView) -> (
    WindowsPhaseView,
    WindowsActionView,
) {
    if phase is Deciding {
        (WindowsPhaseView::Ended, WindowsActionView::Fail(failure))
    } else if keeps_files(phase) {
        (WindowsPhaseView::CleaningAfter(failure), WindowsActionView::RemoveFiles)
    } else {
        (phase, WindowsActionView::Ignore)
    }
}

/// What follows in each phase.
pub open spec fn advanced(workspace_id: u64, phase: WindowsPhaseView, event: WindowsEventView) -> (
    WindowsPhaseView,
    WindowsActionView,
) {
    match (phase, event) {
        (_, WindowsEventView::Failed(failure)) => after_failure(phase, failure),
        (WindowsPhaseView::Deciding, WindowsEventView::ActivationDecided(auto_activate)) => (
            WindowsPhaseView::Preparing(auto_activate),
            WindowsActionView::PrepareProfile(workspace_id),
        ),
        (
            WindowsPhaseView::Preparing(auto_activate),
            WindowsEventView::ProfilePrepared(prepared, home),
        ) => (
            WindowsPhaseView::Installing(auto_activate, prepared, home),
            WindowsActionView::RunInstaller(prepared),
        ),
        (
            WindowsPhaseView::Installing(auto_activate, prepared, home),
            WindowsEventView::InstallerEnded(run),
        ) => match run_fault(run) {
            Some(message) => after_failure(
                phase,
                (SetupFailureView { message, unsupported_os: false }),
            ),
            None => (
                WindowsPhaseView::Finalizing(home),
                WindowsActionView::FinalizeSetup(prepared.profile, auto_activate),
            ),
        },
        (WindowsPhaseView::Finalizing(home), WindowsEventView::SetupFinalized) => (
            WindowsPhaseView::ReadingState(home),
            WindowsActionView::ReadState,
        ),
        (
            WindowsPhaseView::ReadingState(home),
            WindowsEventView::StateRead(mode, active, active_home),
        ) => (
            WindowsPhaseView::Cleaning(
                if profile_is_active(mode, active, active_home, workspace_id, home) {
                    Some(home)
                } else {
                    None
                },
            ),
            WindowsActionView::RemoveFiles,
        ),
        (WindowsPhaseView::Cleaning(home), WindowsEventView::FilesRemoved) => (
            WindowsPhaseView::CheckingReadiness(home),
            WindowsActionView::CheckReadiness(workspace_id),
        ),
        (WindowsPhaseView::CleaningAfter(failure), WindowsEventView::FilesRemoved) => (
            WindowsPhaseView::Ended,
            WindowsActionView::Fail(failure),
        ),
        (WindowsPhaseView::CheckingReadiness(home), WindowsEventView::ReadinessChecked(ready)) =>
            if !ready {
                (WindowsPhaseView::Ended, WindowsActionView::Fail(not_ready()))
            } else {
                match home {
                    Some(home) => (
                        WindowsPhaseView::Launching,
                        WindowsActionView::LaunchDesktop(home),
                    ),
                    None => (
                        WindowsPhaseView::Ended,
                        WindowsActionView::Finish(SetupCompletionView::NotRequested),
                    ),
                }
            },
        (WindowsPhaseView::Launching, WindowsEventView::DesktopLaunched(error)) => (
            WindowsPhaseView::Ended,
            WindowsActionView::Finish(super::after_launch(error)),
        ),
        (_, _) => (phase, WindowsActionView::Ignore),
    }
}

/// An installation on Windows.
pub struct WindowsInstaller {
    /// The workspace that is set up.
    pub workspace_id: u64,
    /// How far the installation is.
    pub phase: WindowsPhase,
}

impl WindowsInstaller {
    /// Begins an installation.
    pub fn start(workspace_id: u64) -> (res: (Self, WindowsAction))
        ensures
            res.0.workspace_id == workspace_id,
            res.0.phase.deep_view() == WindowsPhaseView::Deciding,
            res.1.deep_view() == WindowsActionView::DecideActivation,
    {
        (
            WindowsInstaller { workspace_id, phase: WindowsPhase::Deciding },
            WindowsAction::DecideActivation,
        )
    }

    /// Takes what came of what was to be done, and says what is to be done next.
    pub fn advance(self, event: WindowsEvent) -> (res: (Self, WindowsAction))
        ensures
            res.0.workspace_id == self.workspace_id,
            (res.0.phase.deep_view(), res.1.deep_view()) == advanced(
                self.workspace_id,
                self.phase.deep_view(),
                event.deep_view(),
            ),
    {
        let workspace_id: u64 = self.workspace_id;
        let (phase, action) = match (self.phase, event) {
            (phase, WindowsEvent::Failed(failure)) => match phase {
                WindowsPhase::Deciding => (WindowsPhase::Ended, WindowsAction::Fail(failure)),
                WindowsPhase::Preparing(_)
                | WindowsPhase::Installing(_, _, _)
                | WindowsPhase::Finalizing(_)
                | WindowsPhase::ReadingState(_) => (
                    WindowsPhase::CleaningAfter(failure),
                    WindowsAction::RemoveFiles,
                ),
                other => (other, WindowsAction::Ignore),
            },
            (WindowsPhase::Deciding, WindowsEvent::ActivationDecided(auto_activate)) => (
                WindowsPhase::Preparing(auto_activate),
                WindowsAction::PrepareProfile(workspace_id),
            ),
            (
                WindowsPhase::Preparing(auto_activate),
                WindowsEvent::ProfilePrepared(prepared, home),
            ) => {
                let action = WindowsAction::RunInstaller(prepared.duplicate());
                (WindowsPhase::Installing(auto_activate, prepared, home), action)
            },
            (
                WindowsPhase::Installing(auto_activate, prepared, home),
                WindowsEvent::InstallerEnded(run),
            ) => match run.check() {
                Some(failure) => (
                    WindowsPhase::CleaningAfter(failure),
                    WindowsAction::RemoveFiles,
                ),
                None => (
                    WindowsPhase::Finalizing(home),
                    WindowsAction::FinalizeSetup(prepared.profile, auto_activate),
                ),
            },
            (WindowsPhase::Finalizing(home), WindowsEvent::SetupFinalized) => (
                WindowsPhase::ReadingState(home),
                WindowsAction::ReadState,
            ),
            (
                WindowsPhase::ReadingState(home),
                WindowsEvent::StateRead(mode, active, active_home),
            ) => {
                let in_effect = workspace_profile_is_active(
                    mode,
                    active,
                    &active_home,
                    workspace_id,
                    &home,
                );
                (
                    WindowsPhase::Cleaning(
                        if in_effect {
                            Some(home)
                        } else {
                            None
                        },
                    ),
                    WindowsAction::RemoveFiles,
                )
            },
            (WindowsPhase::Cleaning(home), WindowsEvent::FilesRemoved) => (
                WindowsPhase::CheckingReadiness(home),
                WindowsAction::CheckReadiness(workspace_id),
            ),
            (WindowsPhase::CleaningAfter(failure), WindowsEvent::FilesRemoved) => (
                WindowsPhase::Ended,
                WindowsAction::Fail(failure),
            ),
            (WindowsPhase::CheckingReadiness(home), WindowsEvent::ReadinessChecked(ready)) => {
                if !ready {
                    (
                        WindowsPhase::Ended,
                        WindowsAction::Fail(
                            SetupFailure::from_message("安装脚本执行成功，但独立工作区凭证归属回查失败"),
                        ),
                    )
                } else {
                    match home {
                        Some(home) => (WindowsPhase::Launching, WindowsAction::LaunchDesktop(home)),
                        None => (
                            WindowsPhase::Ended,
                            WindowsAction::Finish(
                                SetupCompletion::completed_without_desktop_launch(),
                            ),
                        ),
                    }
                }
            },
            (WindowsPhase::Launching, WindowsEvent::DesktopLaunched(error)) => {
                let result = match error {
                    None => Ok(()),
                    Some(error) => Err(error),
                };
                (
                    WindowsPhase::Ended,
                    WindowsAction::Finish(SetupCompletion::from_desktop_launch(result)),
                )
            },
            (phase, _) => (phase, WindowsAction::Ignore),
        };
        (WindowsInstaller { workspace_id, phase }, action)
    }
}


/// The environment that the installation script is given.
pub open spec fn script_environment(
    workspace_id: u64,
    manifest_url: Seq<char>,
    credential_file: Seq<char>,
    state_dir: Seq<char>,
    ui_locale: Seq<char>,
    protocol: Seq<char>,
    publishers: Seq<Seq<char>>,
    codex_home: Seq<char>,
) -> Seq<EnvironmentVariableView> {
    seq![
        environment::variable("CODEX_WORKSPACE_ID"@, text::decimal(workspace_id as nat)),
        environment::variable("CODEX_ARTIFACT_MANIFEST_URL"@, manifest_url),
        environment::variable("CODEX_LLM_CREDENTIAL_FILE"@, credential_file),
        environment::variable("CODEX_INSTALL_STATE_DIR"@, state_dir),
        environment::variable("CODEX_INSTALL_QUIET"@, "1"@),
        environment::variable("CODEX_UI_LOCALE"@, ui_locale),
        environment::variable("CODEX_DESKTOP_PROTOCOL"@, protocol),
        environment::variable("CODEX_DESKTOP_TRUSTED_PUBLISHERS"@, text::joined(publishers, "\n"@)),
        environment::variable("CODEX_HOME"@, codex_home),
    ]
}

/// The environment that the installation script is given. The credential itself is not in it, only
/// the file that holds it.
pub fn windows_install_environment(
    workspace_id: u64,
    manifest_url: &str,
    credential_file: &str,
    state_dir: &str,
    ui_locale: &str,
    product: &ProductConfig,
    codex_home: &str,
) -> (res: Vec<EnvironmentVariable>)
    ensures
        res.deep_view() == script_environment(
            workspace_id,
            manifest_url@,
            credential_file@,
            state_dir@,
            ui_locale@,
            product.deep_view().windows_desktop_protocol,
            product.deep_view().windows_desktop_trusted_publishers,
            codex_home@,
        ),
{
    let publishers = text::join(&product.windows_desktop_trusted_publishers, "\n");
    assert(text::views(product.windows_desktop_trusted_publishers@)
        =~= product.windows_desktop_trusted_publishers.deep_view());
    let mut out: Vec<EnvironmentVariable> = Vec::new();
    out.push(new_variable("CODEX_WORKSPACE_ID", text::decimal_text(workspace_id)));
    out.push(new_variable("CODEX_ARTIFACT_MANIFEST_URL", manifest_url.to_string()));
    out.push(new_variable("CODEX_LLM_CREDENTIAL_FILE", credential_file.to_string()));
    out.push(new_variable("CODEX_INSTALL_STATE_DIR", state_dir.to_string()));
    out.push(new_variable("CODEX_INSTALL_QUIET", "1".to_string()));
    out.push(new_variable("CODEX_UI_LOCALE", ui_locale.to_string()));
    out.push(
        new_variable("CODEX_DESKTOP_PROTOCOL", product.windows_desktop_protocol.clone()),
    );
    out.push(new_variable("CODEX_DESKTOP_TRUSTED_PUBLISHERS", publishers));
    out.push(new_variable("CODEX_HOME", codex_home.to_string()));
    assert(out.deep_view() =~= script_environment(
        workspace_id,
        manifest_url@,
        credential_file@,
        state_dir@,
        ui_locale@,
        product.deep_view().windows_desktop_protocol,
        product.deep_view().windows_desktop_trusted_publishers,
        codex_home@,
    ));
    out
}

/// The variables that the installation script must not see.
pub fn windows_install_removed_variables() -> (res: Vec<String>)
    ensures
        res.deep_view() == seq!["CODEX_PROJECT_ID"@, "BAIJIMU_PROJECT_ID"@, "PROJECT_ID"@],
{
    let mut out: Vec<String> = Vec::new();
    out.push("CODEX_PROJECT_ID".to_string());
    out.push("BAIJIMU_PROJECT_ID".to_string());
    out.push("PROJECT_ID".to_string());
    assert(out.deep_view() =~= seq![
        "CODEX_PROJECT_ID"@,
        "BAIJIMU_PROJECT_ID"@,
        "PROJECT_ID"@,
    ]);
    out
}

/// Where an installation is after these events, and everything that was to be done on the way.
pub open spec fn run(workspace_id: u64, events: Seq<WindowsEventView>) -> (
    WindowsPhaseView,
    Seq<WindowsActionView>,
)
    decreases events.len(),
{
    if events.len() == 0 {
        (WindowsPhaseView::Deciding, seq![WindowsActionView::DecideActivation])
    } else {
        let (phase, actions) = run(workspace_id, events.drop_last());
        let (next, action) = advanced(workspace_id, phase, events.last());
        (next, actions.push(action))
    }
}

/// Whether one of the events says that the profile is in effect.
pub open spec fn seen_active(workspace_id: u64, home: CodexPathView, events: Seq<WindowsEventView>) -> bool {
    exists|i: int|
        0 <= i < events.len() && active_event(workspace_id, home, #[trigger] events[i])
}

/// Whether the event says that the profile is in effect.
pub open spec fn active_event(workspace_id: u64, home: CodexPathView, event: WindowsEventView) -> bool {
    match event {
        WindowsEventView::StateRead(mode, active, active_home) => profile_is_active(
            mode,
            active,
            active_home,
            workspace_id,
            home,
        ),
        _ => false,
    }
}

/// Whether the script ended well in one of the events.
pub open spec fn script_ended_well(events: Seq<WindowsEventView>) -> bool {
    exists|i: int| 0 <= i < events.len() && good_end(#[trigger] events[i])
}

/// Whether the event says that the script ended well.
pub open spec fn good_end(event: WindowsEventView) -> bool {
    match event {
        WindowsEventView::InstallerEnded(run) => run_fault(run) is None,
        _ => false,
    }
}

/// What an event said, it said after further events too.
proof fn said_before(workspace_id: u64, home: CodexPathView, events: Seq<WindowsEventView>)
    requires
        events.len() > 0,
    ensures
        script_ended_well(events.drop_last()) ==> script_ended_well(events),
        good_end(events.last()) ==> script_ended_well(events),
        seen_active(workspace_id, home, events.drop_last()) ==> seen_active(
            workspace_id,
            home,
            events,
        ),
        active_event(workspace_id, home, events.last()) ==> seen_active(workspace_id, home, events),
        forall|event: WindowsEventView|
            events.drop_last().contains(event) ==> #[trigger] events.contains(event),
        events.contains(events.last()),
{
    let early = events.drop_last();
    let last = events.len() - 1;
    assert(events[last] == events.last());
    if script_ended_well(early) {
        let i = choose|i: int| 0 <= i < early.len() && good_end(#[trigger] early[i]);
        assert(events[i] == early[i]);
    }
    if seen_active(workspace_id, home, early) {
        let i = choose|i: int|
            0 <= i < early.len() && active_event(workspace_id, home, #[trigger] early[i]);
        assert(events[i] == early[i]);
    }
    assert forall|event: WindowsEventView| early.contains(event) implies #[trigger] events.contains(
        event,
    ) by {
        let i = choose|i: int| 0 <= i < early.len() && early[i] == event;
        assert(events[i] == event);
    }
}

/// What holds of an installation in each phase.
pub open spec fn consistent(
    workspace_id: u64,
    phase: WindowsPhaseView,
    actions: Seq<WindowsActionView>,
    events: Seq<WindowsEventView>,
) -> bool {
    let prepared = actions.contains(WindowsActionView::PrepareProfile(workspace_id));
    let removed = actions.contains(WindowsActionView::RemoveFiles);
    let finalized = events.contains(WindowsEventView::SetupFinalized);
    match phase {
        WindowsPhaseView::Deciding => !prepared,
        WindowsPhaseView::Preparing(_) => true,
        WindowsPhaseView::Installing(_, _, _) => true,
        WindowsPhaseView::Finalizing(_) => script_ended_well(events),
        WindowsPhaseView::ReadingState(_) => script_ended_well(events) && finalized,
        WindowsPhaseView::Cleaning(home) | WindowsPhaseView::CheckingReadiness(home) => removed
            && script_ended_well(events) && finalized && (home matches Some(home) ==> seen_active(
            workspace_id,
            home,
            events,
        )),
        WindowsPhaseView::CleaningAfter(_) => removed,
        WindowsPhaseView::Launching => removed && script_ended_well(events) && finalized
            && events.contains(WindowsEventView::ReadinessChecked(true)),
        WindowsPhaseView::Ended => prepared ==> removed,
    }
}

/// Every installation is consistent.
proof fn runs_are_consistent(workspace_id: u64, events: Seq<WindowsEventView>)
    ensures
        consistent(
            workspace_id,
            run(workspace_id, events).0,
            run(workspace_id, events).1,
            events,
        ),
    decreases events.len(),
{
    let actions = run(workspace_id, events).1;
    if events.len() == 0 {
        assert(actions[0] == WindowsActionView::DecideActivation);
    } else {
        let early = events.drop_last();
        runs_are_consistent(workspace_id, early);
        let (phase, before) = run(workspace_id, early);
        let (next, action) = advanced(workspace_id, phase, events.last());
        assert(actions == before.push(action));
        assert forall|a: WindowsActionView| #[trigger] actions.contains(a) == (before.contains(a)
            || a == action) by {
            if before.contains(a) {
                let i = choose|i: int| 0 <= i < before.len() && before[i] == a;
                assert(actions[i] == a);
            }
            if a == action {
                assert(actions[before.len() as int] == a);
            }
        }
        match phase {
            WindowsPhaseView::ReadingState(home) => {
                said_before(workspace_id, home, events);
            },
            WindowsPhaseView::Cleaning(Some(home)) => {
                said_before(workspace_id, home, events);
            },
            WindowsPhaseView::CheckingReadiness(Some(home)) => {
                said_before(workspace_id, home, events);
            },
            _ => {
                said_before(workspace_id, arbitrary(), events);
            },
        }
    }
}

/// The credential and the script do not stay behind: an installation that has ended, well or badly,
/// after it began to prepare the profile has removed its files.
pub proof fn temporary_files_are_removed(workspace_id: u64, events: Seq<WindowsEventView>)
    requires
        run(workspace_id, events).0 is Ended,
        run(workspace_id, events).1.contains(WindowsActionView::PrepareProfile(workspace_id)),
    ensures
        run(workspace_id, events).1.contains(WindowsActionView::RemoveFiles),
{
    runs_are_consistent(workspace_id, events);
}

/// The desktop application is opened only on a home that is in effect for the workspace, after the
/// script ended well, the profile was put on record and the workspace was found ready.
pub proof fn desktop_is_opened_last(
    workspace_id: u64,
    events: Seq<WindowsEventView>,
    event: WindowsEventView,
    home: CodexPathView,
)
    requires
        advanced(workspace_id, run(workspace_id, events).0, event).1
            == WindowsActionView::LaunchDesktop(home),
    ensures
        event == WindowsEventView::ReadinessChecked(true),
        events.contains(WindowsEventView::SetupFinalized),
        script_ended_well(events),
        seen_active(workspace_id, home, events),
        run(workspace_id, events).1.contains(WindowsActionView::RemoveFiles),
{
    runs_are_consistent(workspace_id, events);
}

/// A setup ends well only after the script ended well, the profile was put on record and the
/// workspace was found ready.
pub proof fn only_a_ready_workspace_ends_well(
    workspace_id: u64,
    events: Seq<WindowsEventView>,
    event: WindowsEventView,
    completion: SetupCompletionView,
)
    requires
        advanced(workspace_id, run(workspace_id, events).0, event).1 == WindowsActionView::Finish(
            completion,
        ),
    ensures
        script_ended_well(events),
        events.contains(WindowsEventView::SetupFinalized),
        events.push(event).contains(WindowsEventView::ReadinessChecked(true)),
{
    runs_are_consistent(workspace_id, events);
    let longer = events.push(event);
    if event == WindowsEventView::ReadinessChecked(true) {
        assert(longer[events.len() as int] == event);
    } else {
        let i = choose|i: int|
            0 <= i < events.len() && events[i] == WindowsEventView::ReadinessChecked(true);
        assert(longer[i] == events[i]);
    }
}

/// Once an installation has ended nothing more is done.
pub proof fn nothing_follows_the_end(workspace_id: u64, event: WindowsEventView)
    ensures
        advanced(workspace_id, WindowsPhaseView::Ended, event) == (
            WindowsPhaseView::Ended,
            WindowsActionView::Ignore,
        ),
{
}

} // verus!
