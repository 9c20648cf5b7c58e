//! The desktop application on macOS.
use super::{
    CommandOutput, CommandOutputView, DesktopError, DesktopErrorView, DesktopSwitch,
};
use crate::system_compatibility as system;
use crate::text;
use vstd::prelude::*;

verus! {

/// Where the application is.
pub const APPLICATION_PATH: &'static str = "/Applications/ChatGPT.app";

/// Where the application may be instead.
pub const OTHER_APPLICATION_PATH: &'static str = "/Applications/Codex.app";

/// How long the application may take to quit, in milliseconds.
pub const QUIT_LIMIT_MS: u64 = 15000;

/// How long to wait before it is asked again whether the application is running, in milliseconds.
pub const QUIT_PAUSE_MS: u64 = 500;

/// The application that is installed, from whether each of its two places is a directory.
pub open spec fn installed_at(first: bool, second: bool) -> Option<Seq<char>> {
    if first {
        Some(APPLICATION_PATH@)
    } else if second {
        Some(OTHER_APPLICATION_PATH@)
    } else {
        None
    }
}

/// The application that is installed, from whether each of its two places is a directory.
pub fn installed_application_path(first: bool, second: bool) -> (res: Option<String>)
    ensures
        text::opt_view(res) == installed_at(first, second),
{
    if first {
        Some(APPLICATION_PATH.to_string())
    } else if second {
        Some(OTHER_APPLICATION_PATH.to_string())
    } else {
        None
    }
}

/// Why a command failed: what it wrote as errors, or else its status.
pub open spec fn reason(output: CommandOutputView) -> Seq<char> {
    let errors = text::trimmed(output.stderr);
    if errors.len() == 0 {
        "exit="@ + output.status
    } else {
        errors
    }
}

/// Why a command failed: what it wrote as errors, or else its status.
fn command_error(output: &CommandOutput) -> (res: String)
    ensures
        res@ == reason(output.deep_view()),
{
    let errors = text::trim(output.stderr.as_str());
    if errors.as_str().is_empty() {
        let mut out = "exit=".to_string();
        out.append(output.status.as_str());
        out
    } else {
        errors
    }
}

/// The part of the description of the application that a command read.
pub open spec fn described(key: Seq<char>, output: CommandOutputView) -> Result<
    Seq<char>,
    DesktopErrorView,
> {
    let value = text::trimmed(output.stdout);
    if !output.success {
        Err(DesktopErrorView::MetadataFailed(key, reason(output)))
    } else if value.len() == 0 {
        Err(DesktopErrorView::MetadataEmpty(key))
    } else {
        Ok(value)
    }
}

/// The part of the description of the application that a command read.
pub fn plist_value(key: &str, output: &CommandOutput) -> (res: Result<String, DesktopError>)
    ensures
        match res {
            Ok(value) => described(key@, output.deep_view()) == Ok::<Seq<char>, DesktopErrorView>(
                value@,
            ),
            Err(error) => described(key@, output.deep_view()) == Err::<
                Seq<char>,
                DesktopErrorView,
            >(error.deep_view()),
        },
{
    if !output.success {
        return Err(DesktopError::MetadataFailed(key.to_string(), command_error(output)));
    }
    let value = text::trim(output.stdout.as_str());
    if value.as_str().is_empty() {
        return Err(DesktopError::MetadataEmpty(key.to_string()));
    }
    Ok(value)
}

/// Whether the line tells of a running application.
pub open spec fn running_line(line: Seq<char>) -> bool {
    text::has_prefix(text::trimmed(line), "\"pid\"="@) && !text::holds(line, "[ NULL ]"@)
}

/// Whether one of the lines tells of a running application.
pub open spec fn running(output: Seq<char>) -> bool {
    exists|i: int|
        0 <= i < text::split_on(output, '\n').len() && running_line(
            #[trigger] text::split_on(output, '\n')[i],
        )
}

/// Whether what the command wrote tells of a running application.
pub fn is_running(output: &str) -> (res: bool)
    ensures
        res == running(output@),
{
    let lines = text::split(output, '\n');
    let ghost views = text::split_on(output@, '\n');
    let mut i: usize = 0;
    while i < lines.len()
        invariant
            i <= lines.len(),
            views == text::split_on(output@, '\n'),
            text::views(lines@) == views,
            forall|j: int| 0 <= j < i ==> !running_line(#[trigger] views[j]),
        decreases lines.len() - i,
    {
        assert(views[i as int] == lines@[i as int]@);
        let line = text::trim(lines[i].as_str());
        if text::starts_with(line.as_str(), "\"pid\"=") && !text::contains(
            lines[i].as_str(),
            "[ NULL ]",
        ) {
            assert(running_line(views[i as int]));
            return true;
        }
        i = i + 1;
    }
    false
}

/// The script that quits an application.
pub open spec fn quit_command(bundle_id: Seq<char>) -> Seq<char> {
    "tell application id \""@ + bundle_id + "\" to quit"@
}

/// The script that quits an application.
fn quit_script(bundle_id: &str) -> (res: String)
    ensures
        res@ == quit_command(bundle_id@),
{
    let mut out = "tell application id \"".to_string();
    out.append(bundle_id);
    out.append("\" to quit");
    out
}

/// What came of a command that is there for its effect.
pub fn run_checked(output: &CommandOutput, context: &str) -> (res: Result<(), DesktopError>)
    ensures
        match res {
            Ok(()) => output.deep_view().success,
            Err(error) => !output.deep_view().success && error.deep_view()
                == DesktopErrorView::CommandFailed(context@, reason(output.deep_view())),
        },
{
    if output.success {
        Ok(())
    } else {
        Err(DesktopError::CommandFailed(context.to_string(), command_error(output)))
    }
}

/// How far stopping the application is.
#[derive(Debug)]
pub enum StopPhase {
    /// The application is looked for.
    Locating,
    /// Its description is read.
    ReadingBundle,
    /// It is asked whether it is running.
    Asking(String),
    /// It is told to quit.
    Quitting(String),
    /// It is waited for.
    Waiting(String),
    /// Nothing more is to be done.
    Ended,
}

/// The view of `StopPhase`: the same values with their texts as characters.
pub enum StopPhaseView {
    Locating,
    ReadingBundle,
    Asking(Seq<char>),
    Quitting(Seq<char>),
    Waiting(Seq<char>),
    Ended,
}

impl DeepView for StopPhase {
    type V = StopPhaseView;

    open spec fn deep_view(&self) -> StopPhaseView {
        match self {
            StopPhase::Locating => StopPhaseView::Locating,
            StopPhase::ReadingBundle => StopPhaseView::ReadingBundle,
            StopPhase::Asking(a) => StopPhaseView::Asking(a@),
            StopPhase::Quitting(a) => StopPhaseView::Quitting(a@),
            StopPhase::Waiting(a) => StopPhaseView::Waiting(a@),
            StopPhase::Ended => StopPhaseView::Ended,
        }
    }
}

/// What came of what was to be done.
#[derive(Debug)]
pub enum StopEvent {
    /// Where the application is, if anywhere.
    AppLocated(Option<String>),
    /// The command that reads its description ended.
    BundleRead(CommandOutput),
    /// What is written of the running application.
    RunningAsked(String),
    /// The command that quits it ended.
    QuitEnded(CommandOutput),
    /// The pause is over; how many milliseconds ago it was told to quit.
    Waited(u64),
}

/// The view of `StopEvent`: the same values with their texts as characters.
pub enum StopEventView {
    AppLocated(Option<Seq<char>>),
    BundleRead(CommandOutputView),
    RunningAsked(Seq<char>),
    QuitEnded(CommandOutputView),
    Waited(u64),
}

impl DeepView for StopEvent {
    type V = StopEventView;

    open spec fn deep_view(&self) -> StopEventView {
        match self {
            StopEvent::AppLocated(a) => StopEventView::AppLocated(a.deep_view()),
            StopEvent::BundleRead(a) => StopEventView::BundleRead(a.deep_view()),
            StopEvent::RunningAsked(a) => StopEventView::RunningAsked(a@),
            StopEvent::QuitEnded(a) => StopEventView::QuitEnded(a.deep_view()),
            StopEvent::Waited(a) => StopEventView::Waited(*a),
        }
    }
}

/// What is to be done.
#[derive(Debug)]
pub enum StopAction {
    /// To read the description of the application.
    ReadBundle(String),
    /// To ask whether the application with the bundle is running.
    AskRunning(String),
    /// To run the script.
    Quit(String),
    /// To wait so many milliseconds.
    Wait(u64),
    /// Nothing; the application is not running.
    Stopped(DesktopSwitch),
    /// Nothing; it could not be stopped.
    Fail(DesktopError),
    /// Nothing; this was not waited for.
    Ignore,
}

/// The view of `StopAction`: the same values with their texts as characters.
pub enum StopActionView {
    ReadBundle(Seq<char>),
    AskRunning(Seq<char>),
    Quit(Seq<char>),
    Wait(u64),
    Stopped(DesktopSwitch),
    Fail(DesktopErrorView),
    Ignore,
}

impl DeepView for StopAction {
    type V = StopActionView;

    open spec fn deep_view(&self) -> StopActionView {
        match self {
            StopAction::ReadBundle(a) => StopActionView::ReadBundle(a@),
            StopAction::AskRunning(a) => StopActionView::AskRunning(a@),
            StopAction::Quit(a) => StopActionView::Quit(a@),
            StopAction::Wait(a) => StopActionView::Wait(*a),
            StopAction::Stopped(a) => StopActionView::Stopped(*a),
            StopAction::Fail(a) => StopActionView::Fail(a.deep_view()),
            StopAction::Ignore => StopActionView::Ignore,
        }
    }
}

/// What follows in each phase.
pub open spec fn stopping(phase: StopPhaseView, event: StopEventView) -> (
    StopPhaseView,
    StopActionView,
) {
    match (phase, event) {
        (StopPhaseView::Locating, StopEventView::AppLocated(None)) => (
            StopPhaseView::Ended,
            StopActionView::Stopped(DesktopSwitch { was_running: false }),
        ),
        (StopPhaseView::Locating, StopEventView::AppLocated(Some(path))) => (
            StopPhaseView::ReadingBundle,
            StopActionView::ReadBundle(path),
        ),
        (StopPhaseView::ReadingBundle, StopEventView::BundleRead(output)) => match described(
            "CFBundleIdentifier"@,
            output,
        ) {
            Err(error) => (StopPhaseView::Ended, StopActionView::Fail(error)),
            Ok(bundle_id) => (
                StopPhaseView::Asking(bundle_id),
                StopActionView::AskRunning(bundle_id),
            ),
        },
        (StopPhaseView::Asking(bundle_id), StopEventView::RunningAsked(output)) => if running(
            output,
        ) {
            (StopPhaseView::Quitting(bundle_id), StopActionView::Quit(quit_command(bundle_id)))
        } else {
            (
                StopPhaseView::Ended,
                StopActionView::Stopped(DesktopSwitch { was_running: false }),
            )
        },
        (StopPhaseView::Quitting(bundle_id), StopEventView::QuitEnded(output)) => if output.success {
            (StopPhaseView::Waiting(bundle_id), StopActionView::AskRunning(bundle_id))
        } else {
            (
                StopPhaseView::Ended,
                StopActionView::Fail(
                    DesktopErrorView::CommandFailed("退出 ChatGPT/Codex 桌面应用失败"@, reason(output)),
                ),
            )
        },
        (StopPhaseView::Waiting(bundle_id), StopEventView::RunningAsked(output)) => if running(
            output,
        ) {
            (StopPhaseView::Waiting(bundle_id), StopActionView::Wait(QUIT_PAUSE_MS))
        } else {
            (
                StopPhaseView::Ended,
                StopActionView::Stopped(DesktopSwitch { was_running: true }),
            )
        },
        (StopPhaseView::Waiting(bundle_id), StopEventView::Waited(elapsed)) => if elapsed
            < QUIT_LIMIT_MS {
            (StopPhaseView::Waiting(bundle_id), StopActionView::AskRunning(bundle_id))
        } else {
            (StopPhaseView::Ended, StopActionView::Fail(DesktopErrorView::StillRunning))
        },
        (_, _) => (phase, StopActionView::Ignore),
    }
}

/// Stops the application: takes what came of what was to be done, and says what is to be done
/// next. It begins with looking for the application.
pub fn stop_for_workspace_switch(phase: StopPhase, event: StopEvent) -> (res: (
    StopPhase,
    StopAction,
))
    ensures
        (res.0.deep_view(), res.1.deep_view()) == stopping(phase.deep_view(), event.deep_view()),
{
    match (phase, event) {
        (StopPhase::Locating, StopEvent::AppLocated(None)) => (
            StopPhase::Ended,
            StopAction::Stopped(DesktopSwitch { was_running: false }),
        ),
        (StopPhase::Locating, StopEvent::AppLocated(Some(path))) => (
            StopPhase::ReadingBundle,
            StopAction::ReadBundle(path),
        ),
        (StopPhase::ReadingBundle, StopEvent::BundleRead(output)) => match plist_value(
            "CFBundleIdentifier",
            &output,
        ) {
            Err(error) => (StopPhase::Ended, StopAction::Fail(error)),
            Ok(bundle_id) => (
                StopPhase::Asking(bundle_id.clone()),
                StopAction::AskRunning(bundle_id),
            ),
        },
        (StopPhase::Asking(bundle_id), StopEvent::RunningAsked(output)) => {
            if is_running(output.as_str()) {
                let script = quit_script(bundle_id.as_str());
                (StopPhase::Quitting(bundle_id), StopAction::Quit(script))
            } else {
                (
                    StopPhase::Ended,
                    StopAction::Stopped(DesktopSwitch { was_running: false }),
                )
            }
        },
        (StopPhase::Quitting(bundle_id), StopEvent::QuitEnded(output)) => match run_checked(
            &output,
            "退出 ChatGPT/Codex 桌面应用失败",
        ) {
            Ok(()) => (
                StopPhase::Waiting(bundle_id.clone()),
                StopAction::AskRunning(bundle_id),
            ),
            Err(error) => (StopPhase::Ended, StopAction::Fail(error)),
        },
        (StopPhase::Waiting(bundle_id), StopEvent::RunningAsked(output)) => {
            if is_running(output.as_str()) {
                (StopPhase::Waiting(bundle_id), StopAction::Wait(QUIT_PAUSE_MS))
            } else {
                (StopPhase::Ended, StopAction::Stopped(DesktopSwitch { was_running: true }))
            }
        },
        (StopPhase::Waiting(bundle_id), StopEvent::Waited(elapsed)) => {
            if elapsed < QUIT_LIMIT_MS {
                (StopPhase::Waiting(bundle_id.clone()), StopAction::AskRunning(bundle_id))
            } else {
                (StopPhase::Ended, StopAction::Fail(DesktopError::StillRunning))
            }
        },
        (phase, _) => (phase, StopAction::Ignore),
    }
}

/// The application counts as stopped only when it was not found, or when the last thing that was
/// written of it does not tell of a running application; and it counts as having been running only
/// after it was told to quit.
pub proof fn stopped_means_not_running(phase: StopPhaseView, event: StopEventView)
    ensures
        stopping(phase, event).1 matches StopActionView::Stopped(switch) ==> {
            &&& event == StopEventView::AppLocated(None) || (event
                matches StopEventView::RunningAsked(output) && !running(output))
            &&& switch.was_running == (phase is Waiting)
        },
{
}

/// What forbids the application on this version of the system, if anything.
pub open spec fn compatibility_fault(
    app: Option<Seq<char>>,
    minimum: CommandOutputView,
    current: Seq<char>,
) -> Option<DesktopErrorView> {
    match app {
        None => Some(DesktopErrorView::NotInstalled),
        Some(_) => match described("LSMinimumSystemVersion"@, minimum) {
            Err(error) => Some(error),
            Ok(wanted) => match system::fault("macOS"@, current, wanted, "ChatGPT/Codex"@) {
                Some(error) => Some(DesktopErrorView::Incompatible(error)),
                None => None,
            },
        },
    }
}

/// Makes sure that the system is recent enough for the application: where it is installed, how the
/// command ended that reads which version it asks for, and the version of the system.
pub fn verify_system_compatibility(
    app: &Option<String>,
    minimum: &CommandOutput,
    current_version: &str,
) -> (res: Result<(), DesktopError>)
    ensures
        match res {
            Ok(()) => compatibility_fault(
                text::opt_view(*app),
                minimum.deep_view(),
                current_version@,
            ) is None,
            Err(error) => compatibility_fault(
                text::opt_view(*app),
                minimum.deep_view(),
                current_version@,
            ) == Some(error.deep_view()),
        },
{
    if app.is_none() {
        return Err(DesktopError::NotInstalled);
    }
    let wanted = plist_value("LSMinimumSystemVersion", minimum)?;
    match system::ensure_supported("macOS", current_version, wanted.as_str(), "ChatGPT/Codex") {
        Ok(()) => Ok(()),
        Err(error) => Err(DesktopError::Incompatible(error)),
    }
}

/// The arguments with which the application is opened: nothing but the state directory is passed.
pub open spec fn open_arguments(app_path: Seq<char>, codex_home: Seq<char>) -> Seq<Seq<char>> {
    seq!["--env"@, "CODEX_HOME="@ + codex_home, app_path]
}

/// The arguments with which the application is opened.
pub fn open_application_arguments(app_path: &str, codex_home: &str) -> (res: Vec<String>)
    ensures
        res.deep_view() == open_arguments(app_path@, codex_home@),
{
    let mut assignment = "CODEX_HOME=".to_string();
    assignment.append(codex_home);
    let mut out: Vec<String> = Vec::new();
    out.push("--env".to_string());
    out.push(assignment);
    out.push(app_path.to_string());
    assert(out.deep_view() =~= open_arguments(app_path@, codex_home@));
    out
}

/// The arguments with which the application is opened on the state directory, if the system is
/// recent enough for it.
pub fn launch_workspace(
    app: &Option<String>,
    minimum: &CommandOutput,
    current_version: &str,
    codex_home: &str,
) -> (res: Result<Vec<String>, DesktopError>)
    ensures
        match res {
            Ok(arguments) => compatibility_fault(
                text::opt_view(*app),
                minimum.deep_view(),
                current_version@,
            ) is None && app is Some && arguments.deep_view() == open_arguments(
                app->0@,
                codex_home@,
            ),
            Err(error) => compatibility_fault(
                text::opt_view(*app),
                minimum.deep_view(),
                current_version@,
            ) == Some(error.deep_view()),
        },
{
    verify_system_compatibility(app, minimum, current_version)?;
    match app {
        Some(path) => Ok(open_application_arguments(path.as_str(), codex_home)),
        None => Err(DesktopError::NotInstalled),
    }
}

} // verus!
