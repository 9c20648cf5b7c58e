//! How a switch to another workspace goes, from its beginning to its end.
use crate::codex_workspace_activation as activation;
use crate::codex_workspace_activation::{Platform, SwitchActionView, SwitchEventView, SwitchPhaseView};
use crate::desktop::DesktopSwitch;
use vstd::prelude::*;

verus! {

/// One event more.
proof fn one_more(
    platform: Platform,
    manage_desktop: bool,
    id: Seq<char>,
    events: Seq<SwitchEventView>,
    event: SwitchEventView,
)
    ensures
        ({
            let (phase, actions) = activation::run(platform, manage_desktop, id, events);
            let (next, action) = activation::switched(
                activation::WorkspaceSwitchView { platform, manage_desktop, workspace_id: id, phase },
                event,
            );
            activation::run(platform, manage_desktop, id, events.push(event)) == (
                next,
                actions.push(action),
            )
        }),
{
    assert(events.push(event).drop_last() =~= events);
}

/// A switch that meets no obstacle goes through: the workspaces are looked up, the desktop application
/// is stopped where it is managed and there is one on the system, the wanted workspace is put in effect,
/// and that is the end. Nothing else is done.
pub proof fn switch_without_obstacle_goes_through(
    platform: Platform,
    manage_desktop: bool,
    id: Seq<char>,
    previous: Seq<char>,
    stopped: DesktopSwitch,
)
    ensures
        manage_desktop && platform != Platform::Other ==> activation::run(
            platform,
            manage_desktop,
            id,
            seq![
                SwitchEventView::WorkspacesRead(previous),
                SwitchEventView::DesktopStopped(stopped),
                SwitchEventView::Activated,
            ],
        ) == (
            SwitchPhaseView::Ended,
            seq![
                SwitchActionView::ReadWorkspaces(id),
                SwitchActionView::StopDesktop,
                SwitchActionView::Activate(id),
                SwitchActionView::Finish,
            ],
        ),
        !manage_desktop || platform == Platform::Other ==> activation::run(
            platform,
            manage_desktop,
            id,
            seq![SwitchEventView::WorkspacesRead(previous), SwitchEventView::Activated],
        ) == (
            SwitchPhaseView::Ended,
            seq![
                SwitchActionView::ReadWorkspaces(id),
                SwitchActionView::Activate(id),
                SwitchActionView::Finish,
            ],
        ),
{
    let a = seq![SwitchEventView::WorkspacesRead(previous)];
    assert(Seq::<SwitchEventView>::empty().push(a[0]) =~= a);
    one_more(platform, manage_desktop, id, seq![], a[0]);
    if manage_desktop && platform != Platform::Other {
        let b = a.push(SwitchEventView::DesktopStopped(stopped));
        one_more(platform, manage_desktop, id, a, SwitchEventView::DesktopStopped(stopped));
        one_more(platform, manage_desktop, id, b, SwitchEventView::Activated);
        assert(b.push(SwitchEventView::Activated) =~= seq![
            SwitchEventView::WorkspacesRead(previous),
            SwitchEventView::DesktopStopped(stopped),
            SwitchEventView::Activated,
        ]);
        assert(activation::run(platform, manage_desktop, id, b.push(SwitchEventView::Activated)).1
            =~= seq![
            SwitchActionView::ReadWorkspaces(id),
            SwitchActionView::StopDesktop,
            SwitchActionView::Activate(id),
            SwitchActionView::Finish,
        ]);
    } else {
        one_more(platform, manage_desktop, id, a, SwitchEventView::Activated);
        assert(a.push(SwitchEventView::Activated) =~= seq![
            SwitchEventView::WorkspacesRead(previous),
            SwitchEventView::Activated,
        ]);
        assert(activation::run(platform, manage_desktop, id, a.push(SwitchEventView::Activated)).1
            =~= seq![
            SwitchActionView::ReadWorkspaces(id),
            SwitchActionView::Activate(id),
            SwitchActionView::Finish,
        ]);
    }
}

/// A workspace that cannot be put in effect, after the desktop application was stopped: where the
/// application was running it is opened again on the state directory before, and then the switch ends
/// with the failure, however that goes; where it was not, the switch ends at once.
pub proof fn failed_switch_opens_what_was_running(
    platform: Platform,
    id: Seq<char>,
    previous: Seq<char>,
    stopped: DesktopSwitch,
    error: Seq<char>,
    later: Seq<char>,
)
    requires
        platform != Platform::Other,
    ensures
        ({
            let events = seq![
                SwitchEventView::WorkspacesRead(previous),
                SwitchEventView::DesktopStopped(stopped),
                SwitchEventView::Failed(error),
            ];
            let (phase, actions) = activation::run(platform, true, id, events);
            let told = "切换 Codex 工作区目录失败："@ + error;
            &&& stopped.was_running ==> actions.last() == SwitchActionView::RestartDesktop(previous)
            &&& stopped.was_running ==> activation::run(
                platform,
                true,
                id,
                events.push(SwitchEventView::DesktopRestarted),
            ).1.last() == SwitchActionView::Fail(told)
            &&& stopped.was_running ==> activation::run(
                platform,
                true,
                id,
                events.push(SwitchEventView::Failed(later)),
            ).1.last() == SwitchActionView::Fail(told + "；恢复原工作区桌面进程失败："@ + later)
            &&& !stopped.was_running ==> phase == SwitchPhaseView::Ended && actions.last()
                == SwitchActionView::Fail(told)
        }),
{
    let a = seq![SwitchEventView::WorkspacesRead(previous)];
    assert(Seq::<SwitchEventView>::empty().push(a[0]) =~= a);
    one_more(platform, true, id, seq![], a[0]);
    let b = a.push(SwitchEventView::DesktopStopped(stopped));
    one_more(platform, true, id, a, SwitchEventView::DesktopStopped(stopped));
    let c = b.push(SwitchEventView::Failed(error));
    one_more(platform, true, id, b, SwitchEventView::Failed(error));
    one_more(platform, true, id, c, SwitchEventView::DesktopRestarted);
    one_more(platform, true, id, c, SwitchEventView::Failed(later));
    assert(c =~= seq![
        SwitchEventView::WorkspacesRead(previous),
        SwitchEventView::DesktopStopped(stopped),
        SwitchEventView::Failed(error),
    ]);
}

/// A desktop application that cannot be stopped, and a workspace that cannot be put in effect where
/// nothing was stopped, end the switch with that failure; nothing is opened.
pub proof fn other_failures_end_the_switch(
    platform: Platform,
    manage_desktop: bool,
    id: Seq<char>,
    previous: Seq<char>,
    error: Seq<char>,
)
    ensures
        ({
            let events = seq![
                SwitchEventView::WorkspacesRead(previous),
                SwitchEventView::Failed(error),
            ];
            let (phase, actions) = activation::run(platform, manage_desktop, id, events);
            &&& phase == SwitchPhaseView::Ended
            &&& actions.last() == SwitchActionView::Fail(
                if manage_desktop && platform != Platform::Other {
                    error
                } else {
                    "切换 Codex 工作区目录失败："@ + error
                },
            )
        }),
{
    let a = seq![SwitchEventView::WorkspacesRead(previous)];
    assert(Seq::<SwitchEventView>::empty().push(a[0]) =~= a);
    one_more(platform, manage_desktop, id, seq![], a[0]);
    one_more(platform, manage_desktop, id, a, SwitchEventView::Failed(error));
    assert(a.push(SwitchEventView::Failed(error)) =~= seq![
        SwitchEventView::WorkspacesRead(previous),
        SwitchEventView::Failed(error),
    ]);
}

/// What was not waited for changes nothing, and nothing follows the end.
pub proof fn unexpected_events_are_ignored(
    s: activation::WorkspaceSwitchView,
    event: SwitchEventView,
)
    requires
        match s.phase {
            SwitchPhaseView::ReadingWorkspaces => !(event is WorkspacesRead || event is Failed),
            SwitchPhaseView::StoppingDesktop(_) => !(event is DesktopStopped || event is Failed),
            SwitchPhaseView::Activating(_, _) => !(event is Activated || event is Failed),
            SwitchPhaseView::Restarting(_) => !(event is DesktopRestarted || event is Failed),
            SwitchPhaseView::Ended => true,
        },
    ensures
        activation::switched(s, event) == (s.phase, SwitchActionView::Ignore),
{
}

} // verus!
