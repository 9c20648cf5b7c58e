//! Switching to another workspace: what is done after what, and what is taken back after a failure.
//! The user-level setting of the state directory is no part of it: nothing here reads or changes it.
use crate::desktop::DesktopSwitch;
use vstd::prelude::*;

verus! {

/// The operating system.
#[derive(Debug, Clone, Copy, PartialEq, Eq, Structural)]
pub enum Platform {
    /// macOS.
    Macos,
    /// Windows.
    Windows,
    /// Any other.
    Other,
}

/// How far a switch is.
#[derive(Debug)]
pub enum SwitchPhase {
    /// The workspaces are looked up.
    ReadingWorkspaces,
    /// The desktop application is stopped; the state directory before.
    StoppingDesktop(String),
    /// The workspace is put in effect; what was stopped for it, and the state directory before.
    Activating(Option<DesktopSwitch>, String),
    /// The desktop application is opened again; the message of the failure so far.
    Restarting(String),
    /// Nothing more is to be done.
    Ended,
}

/// The view of `SwitchPhase`: the same values with their texts as characters.
pub enum SwitchPhaseView {
    ReadingWorkspaces,
    StoppingDesktop(Seq<char>),
    Activating(Option<DesktopSwitch>, Seq<char>),
    Restarting(Seq<char>),
    Ended,
}

impl DeepView for SwitchPhase {
    type V = SwitchPhaseView;

    open spec fn deep_view(&self) -> SwitchPhaseView {
        match self {
            SwitchPhase::ReadingWorkspaces => SwitchPhaseView::ReadingWorkspaces,
            SwitchPhase::StoppingDesktop(a) => SwitchPhaseView::StoppingDesktop(a@),
            SwitchPhase::Activating(a, b) => SwitchPhaseView::Activating(*a, b@),
            SwitchPhase::Restarting(a) => SwitchPhaseView::Restarting(a@),
            SwitchPhase::Ended => SwitchPhaseView::Ended,
        }
    }
}

/// What came of what was to be done.
#[derive(Debug)]
pub enum SwitchEvent {
    /// Both workspaces are there; the state directory of the one in effect.
    WorkspacesRead(String),
    /// The desktop application is stopped.
    DesktopStopped(DesktopSwitch),
    /// The workspace is in effect.
    Activated,
    /// The desktop application is open again.
    DesktopRestarted,
    /// It could not be done.
    Failed(String),
}

/// The view of `SwitchEvent`: the same values with their texts as characters.
pub enum SwitchEventView {
    WorkspacesRead(Seq<char>),
    DesktopStopped(DesktopSwitch),
    Activated,
    DesktopRestarted,
    Failed(Seq<char>),
}

impl DeepView for SwitchEvent {
    type V = SwitchEventView;

    open spec fn deep_view(&self) -> SwitchEventView {
        match self {
            SwitchEvent::WorkspacesRead(a) => SwitchEventView::WorkspacesRead(a@),
            SwitchEvent::DesktopStopped(a) => SwitchEventView::DesktopStopped(*a),
            SwitchEvent::Activated => SwitchEventView::Activated,
            SwitchEvent::DesktopRestarted => SwitchEventView::DesktopRestarted,
            SwitchEvent::Failed(a) => SwitchEventView::Failed(a@),
        }
    }
}

/// What is to be done.
#[derive(Debug)]
pub enum SwitchAction {
    /// To look up the workspace in effect and the wanted one.
    ReadWorkspaces(String),
    /// To stop the desktop application.
    StopDesktop,
    /// To put the workspace in effect.
    Activate(String),
    /// To open the desktop application on the state directory.
    RestartDesktop(String),
    /// Nothing; the switch is done.
    Finish,
    /// Nothing; the switch failed.
    Fail(String),
    /// Nothing; this was not waited for.
    Ignore,
}

/// The view of `SwitchAction`: the same values with their texts as characters.
pub enum SwitchActionView {
    ReadWorkspaces(Seq<char>),
    StopDesktop,
    Activate(Seq<char>),
    RestartDesktop(Seq<char>),
    Finish,
    Fail(Seq<char>),
    Ignore,
}

impl DeepView for SwitchAction {
    type V = SwitchActionView;

    open spec fn deep_view(&self) -> SwitchActionView {
        match self {
            SwitchAction::ReadWorkspaces(a) => SwitchActionView::ReadWorkspaces(a@),
            SwitchAction::StopDesktop => SwitchActionView::StopDesktop,
            SwitchAction::Activate(a) => SwitchActionView::Activate(a@),
            SwitchAction::RestartDesktop(a) => SwitchActionView::RestartDesktop(a@),
            SwitchAction::Finish => SwitchActionView::Finish,
            SwitchAction::Fail(a) => SwitchActionView::Fail(a@),
            SwitchAction::Ignore => SwitchActionView::Ignore,
        }
    }
}

/// A switch.
#[derive(Debug)]
pub struct WorkspaceSwitch {
    /// The operating system.
    pub platform: Platform,
    /// Whether the desktop application is stopped for the switch.
    pub manage_desktop: bool,
    /// The wanted workspace.
    pub workspace_id: String,
    /// How far the switch is.
    pub phase: SwitchPhase,
}

/// The view of `WorkspaceSwitch`.
pub struct WorkspaceSwitchView {
    pub platform: Platform,
    pub manage_desktop: bool,
    pub workspace_id: Seq<char>,
    pub phase: SwitchPhaseView,
}

impl DeepView for WorkspaceSwitch {
    type V = WorkspaceSwitchView;

    open spec fn deep_view(&self) -> WorkspaceSwitchView {
        WorkspaceSwitchView {
            platform: self.platform,
            manage_desktop: self.manage_desktop,
            workspace_id: self.workspace_id@,
            phase: self.phase.deep_view(),
        }
    }
}

/// What follows when the switch has failed and only the desktop application is to be opened again:
/// on the state directory before, where it was running.
pub open spec fn given_up(
    stopped: Option<DesktopSwitch>,
    previous: Seq<char>,
    message: Seq<char>,
) -> (SwitchPhaseView, SwitchActionView) {
    if stopped is Some && stopped->0.was_running {
        (SwitchPhaseView::Restarting(message), SwitchActionView::RestartDesktop(previous))
    } else {
        (SwitchPhaseView::Ended, SwitchActionView::Fail(message))
    }
}

/// Whether the desktop application is stopped for the switch.
pub open spec fn managed(s: WorkspaceSwitchView) -> bool {
    s.manage_desktop && s.platform != Platform::Other
}

/// What follows in each phase.
pub open spec fn switched(s: WorkspaceSwitchView, event: SwitchEventView) -> (
    SwitchPhaseView,
    SwitchActionView,
) {
    let activate = SwitchActionView::Activate(s.workspace_id);
    match (s.phase, event) {
        (SwitchPhaseView::ReadingWorkspaces, SwitchEventView::WorkspacesRead(previous)) => if managed(
            s,
        ) {
            (SwitchPhaseView::StoppingDesktop(previous), SwitchActionView::StopDesktop)
        } else {
            (SwitchPhaseView::Activating(None, previous), activate)
        },
        (SwitchPhaseView::ReadingWorkspaces, SwitchEventView::Failed(error)) => (
            SwitchPhaseView::Ended,
            SwitchActionView::Fail(error),
        ),
        (
            SwitchPhaseView::StoppingDesktop(previous),
            SwitchEventView::DesktopStopped(stopped),
        ) => (SwitchPhaseView::Activating(Some(stopped), previous), activate),
        (SwitchPhaseView::StoppingDesktop(_), SwitchEventView::Failed(error)) => (
            SwitchPhaseView::Ended,
            SwitchActionView::Fail(error),
        ),
        (SwitchPhaseView::Activating(_, _), SwitchEventView::Activated) => (
            SwitchPhaseView::Ended,
            SwitchActionView::Finish,
        ),
        (SwitchPhaseView::Activating(stopped, previous), SwitchEventView::Failed(error)) => given_up(
            stopped,
            previous,
            "切换 Codex 工作区目录失败："@ + error,
        ),
        (SwitchPhaseView::Restarting(message), SwitchEventView::DesktopRestarted) => (
            SwitchPhaseView::Ended,
            SwitchActionView::Fail(message),
        ),
        (SwitchPhaseView::Restarting(message), SwitchEventView::Failed(error)) => (
            SwitchPhaseView::Ended,
            SwitchActionView::Fail(message + "；恢复原工作区桌面进程失败："@ + error),
        ),
        (_, _) => (s.phase, SwitchActionView::Ignore),
    }
}

/// What follows when the switch has failed and only the desktop application is to be opened again.
fn give_up(stopped: Option<DesktopSwitch>, previous: String, message: String) -> (res: (
    SwitchPhase,
    SwitchAction,
))
    ensures
        (res.0.deep_view(), res.1.deep_view()) == given_up(stopped, previous@, message@),
{
    let home = match stopped {
        Some(stopped) => stopped.restart_workspace_if_needed(previous.as_str()),
        None => None,
    };
    match home {
        Some(home) => (SwitchPhase::Restarting(message), SwitchAction::RestartDesktop(home)),
        None => (SwitchPhase::Ended, SwitchAction::Fail(message)),
    }
}

/// Three texts in one.
fn joined3(first: &str, second: &str, third: &str) -> (res: String)
    ensures
        res@ == first@ + second@ + third@,
{
    let mut out = first.to_string();
    out.append(second);
    out.append(third);
    out
}

/// Begins a switch to the workspace.
pub fn start(platform: Platform, manage_desktop: bool, workspace_id: &str) -> (res: (
    WorkspaceSwitch,
    SwitchAction,
))
    ensures
        res.0.deep_view() == (WorkspaceSwitchView {
            platform,
            manage_desktop,
            workspace_id: workspace_id@,
            phase: SwitchPhaseView::ReadingWorkspaces,
        }),
        res.1.deep_view() == SwitchActionView::ReadWorkspaces(workspace_id@),
{
    (
        WorkspaceSwitch {
            platform,
            manage_desktop,
            workspace_id: workspace_id.to_string(),
            phase: SwitchPhase::ReadingWorkspaces,
        },
        SwitchAction::ReadWorkspaces(workspace_id.to_string()),
    )
}

/// Takes what came of what was to be done, and says what is to be done next.
pub fn switch(state: WorkspaceSwitch, event: SwitchEvent) -> (res: (WorkspaceSwitch, SwitchAction))
    ensures
        (res.0.deep_view().phase, res.1.deep_view()) == switched(
            state.deep_view(),
            event.deep_view(),
        ),
        res.0.deep_view() == (WorkspaceSwitchView {
            phase: res.0.deep_view().phase,
            ..state.deep_view()
        }),
{
    let platform = state.platform;
    let manage_desktop: bool = state.manage_desktop;
    let workspace_id = state.workspace_id;
    let (phase, action) = match (state.phase, event) {
        (SwitchPhase::ReadingWorkspaces, SwitchEvent::WorkspacesRead(previous)) => {
            if manage_desktop && platform != Platform::Other {
                (SwitchPhase::StoppingDesktop(previous), SwitchAction::StopDesktop)
            } else {
                (
                    SwitchPhase::Activating(None, previous),
                    SwitchAction::Activate(workspace_id.clone()),
                )
            }
        },
        (SwitchPhase::ReadingWorkspaces, SwitchEvent::Failed(error)) => (
            SwitchPhase::Ended,
            SwitchAction::Fail(error),
        ),
        (SwitchPhase::StoppingDesktop(previous), SwitchEvent::DesktopStopped(stopped)) => (
            SwitchPhase::Activating(Some(stopped), previous),
            SwitchAction::Activate(workspace_id.clone()),
        ),
        (SwitchPhase::StoppingDesktop(_), SwitchEvent::Failed(error)) => (
            SwitchPhase::Ended,
            SwitchAction::Fail(error),
        ),
        (SwitchPhase::Activating(_, _), SwitchEvent::Activated) => (
            SwitchPhase::Ended,
            SwitchAction::Finish,
        ),
        (SwitchPhase::Activating(stopped, previous), SwitchEvent::Failed(error)) => {
            let mut message = "切换 Codex 工作区目录失败：".to_string();
            message.append(error.as_str());
            give_up(stopped, previous, message)
        },
        (SwitchPhase::Restarting(message), SwitchEvent::DesktopRestarted) => (
            SwitchPhase::Ended,
            SwitchAction::Fail(message),
        ),
        (SwitchPhase::Restarting(message), SwitchEvent::Failed(error)) => (
            SwitchPhase::Ended,
            SwitchAction::Fail(
                joined3(message.as_str(), "；恢复原工作区桌面进程失败：", error.as_str()),
            ),
        ),
        (phase, _) => (phase, SwitchAction::Ignore),
    };
    (WorkspaceSwitch { platform, manage_desktop, workspace_id, phase }, action)
}

/// What was stopped for the switch and is not open again yet: the application and the state
/// directory that it was open on.
pub open spec fn owed_restart(phase: SwitchPhaseView) -> Option<Seq<char>> {
    match phase {
        SwitchPhaseView::Activating(stopped, previous) => if stopped is Some
            && stopped->0.was_running {
            Some(previous)
        } else {
            None
        },
        _ => None,
    }
}

/// A switch does not end in failure before the desktop application that it stopped was opened again
/// on the state directory that it was open on: the restart stays owed until it is to be done.
pub proof fn stopped_application_is_opened_again(s: WorkspaceSwitchView, event: SwitchEventView)
    ensures
        owed_restart(s.phase) matches Some(previous) ==> {
            let (next, action) = switched(s, event);
            ||| owed_restart(next) == Some(previous)
            ||| action == SwitchActionView::RestartDesktop(previous)
            ||| action == SwitchActionView::Finish
        },
        switched(s, event).1 is RestartDesktop ==> owed_restart(s.phase) == Some(
            switched(s, event).1->RestartDesktop_0,
        ),
{
}

/// Where a switch is after these events, and everything that was to be done on the way.
pub open spec fn run(
    platform: Platform,
    manage_desktop: bool,
    workspace_id: Seq<char>,
    events: Seq<SwitchEventView>,
) -> (SwitchPhaseView, Seq<SwitchActionView>)
    decreases events.len(),
{
    if events.len() == 0 {
        (
            SwitchPhaseView::ReadingWorkspaces,
            seq![SwitchActionView::ReadWorkspaces(workspace_id)],
        )
    } else {
        let (phase, actions) = run(platform, manage_desktop, workspace_id, events.drop_last());
        let (next, action) = switched(
            WorkspaceSwitchView { platform, manage_desktop, workspace_id, phase },
            events.last(),
        );
        (next, actions.push(action))
    }
}

/// Whether an action is one that a switch may ask for: it looks the workspaces up, stops and opens
/// the desktop application where that is managed, puts the wanted workspace in effect, or ends. None
/// of these reads or changes the user-level setting of the state directory.
pub open spec fn is_of_a_switch(
    platform: Platform,
    manage_desktop: bool,
    workspace_id: Seq<char>,
    action: SwitchActionView,
) -> bool {
    let desktop = manage_desktop && platform != Platform::Other;
    match action {
        SwitchActionView::ReadWorkspaces(id) => id == workspace_id,
        SwitchActionView::StopDesktop => desktop,
        SwitchActionView::Activate(id) => id == workspace_id,
        SwitchActionView::RestartDesktop(_) => desktop,
        SwitchActionView::Finish | SwitchActionView::Fail(_) | SwitchActionView::Ignore => true,
    }
}

/// What holds of a switch in each phase.
pub open spec fn consistent(
    desktop: bool,
    phase: SwitchPhaseView,
    actions: Seq<SwitchActionView>,
    events: Seq<SwitchEventView>,
) -> bool {
    match phase {
        SwitchPhaseView::ReadingWorkspaces => true,
        SwitchPhaseView::StoppingDesktop(_) => desktop,
        SwitchPhaseView::Activating(stopped, _) => match stopped {
            Some(stopped) => desktop && events.contains(SwitchEventView::DesktopStopped(stopped)),
            None => !desktop,
        },
        SwitchPhaseView::Restarting(_) => desktop,
        SwitchPhaseView::Ended => true,
    }
}

/// Every action of a switch is one that a switch may ask for. The workspace is put in effect only
/// after the desktop application was stopped, where that is managed, and a switch ends well only
/// after the workspace is in effect.
pub proof fn switches_are_sound(
    platform: Platform,
    manage_desktop: bool,
    workspace_id: Seq<char>,
    events: Seq<SwitchEventView>,
)
    ensures
        ({
            let (phase, actions) = run(platform, manage_desktop, workspace_id, events);
            let desktop = manage_desktop && platform != Platform::Other;
            &&& consistent(desktop, phase, actions, events)
            &&& forall|i: int|
                0 <= i < actions.len() ==> is_of_a_switch(
                    platform,
                    manage_desktop,
                    workspace_id,
                    #[trigger] actions[i],
                )
            &&& actions.last() is Activate && desktop ==> exists|i: int|
                0 <= i < events.len() && #[trigger] events[i] is DesktopStopped
            &&& actions.last() is Finish ==> events.contains(SwitchEventView::Activated)
        }),
    decreases events.len(),
{
    let (phase, actions) = run(platform, manage_desktop, workspace_id, events);
    if events.len() > 0 {
        let early = events.drop_last();
        switches_are_sound(platform, manage_desktop, workspace_id, early);
        let (before, done) = run(platform, manage_desktop, workspace_id, early);
        assert(events[events.len() - 1] == events.last());
        assert(events.contains(events.last()));
        assert forall|event: SwitchEventView| early.contains(event) implies #[trigger] events.contains(
            event,
        ) by {
            let i = choose|i: int| 0 <= i < early.len() && early[i] == event;
            assert(events[i] == event);
        }
        assert forall|i: int| 0 <= i < actions.len() implies is_of_a_switch(
            platform,
            manage_desktop,
            workspace_id,
            #[trigger] actions[i],
        ) by {
            if i < done.len() {
                assert(actions[i] == done[i]);
            }
        }
    }
}

/// A workspace that cannot be looked up is refused, and nothing is done: no desktop application is
/// stopped and no workspace is put in effect, whatever comes afterwards.
pub proof fn unknown_workspace_changes_nothing(
    platform: Platform,
    manage_desktop: bool,
    workspace_id: Seq<char>,
    events: Seq<SwitchEventView>,
    error: Seq<char>,
)
    requires
        events.len() > 0,
        events[0] == SwitchEventView::Failed(error),
    ensures
        ({
            let (phase, actions) = run(platform, manage_desktop, workspace_id, events);
            &&& phase == SwitchPhaseView::Ended
            &&& actions[1] == SwitchActionView::Fail(error)
            &&& forall|i: int|
                2 <= i < actions.len() ==> #[trigger] actions[i] == SwitchActionView::Ignore
            &&& actions.len() == events.len() + 1
        }),
    decreases events.len(),
{
    let early = events.drop_last();
    if early.len() > 0 {
        unknown_workspace_changes_nothing(
            platform,
            manage_desktop,
            workspace_id,
            early,
            error,
        );
    } else {
        assert(run(platform, manage_desktop, workspace_id, early).1.len() == 1);
    }
}

} // verus!
