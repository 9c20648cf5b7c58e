//! What holds of every installation on macOS.
use super::contract;
use super::contract::{InstallerStatusView, InstallerStepState};
use super::macos;
use super::macos::{
    DownloadTargetView, MacosActionView, MacosEventView, MacosInstallerView, MacosPhaseView,
};
use super::source::UpstreamArtifactSourceV2View;
use super::{SetupCompletionView, SetupFailureView};
use crate::codex_path::CodexPathView;
use vstd::prelude::*;

verus! {

/// Whether the first steps have ended well or were not needed.
pub open spec fn settled_through(status: InstallerStatusView, count: int) -> bool {
    forall|i: int|
        0 <= i < count ==> {
            let state = (#[trigger] status.steps[i]).state;
            state == InstallerStepState::Completed || state == InstallerStepState::Skipped
        }
}

/// How many steps have been settled in the phase.
pub open spec fn settled_in(phase: MacosPhaseView) -> int {
    match phase {
        MacosPhaseView::Locating => 0,
        MacosPhaseView::Checking(_, fresh) | MacosPhaseView::Inspecting(_, fresh) => if fresh {
            3
        } else {
            0
        },
        MacosPhaseView::Connecting(target) | MacosPhaseView::Receiving(target, _, _) => match target {
            DownloadTargetView::Manifest => 1,
            DownloadTargetView::Archive(_) => 2,
        },
        MacosPhaseView::ReadingManifest | MacosPhaseView::ReadingVersion(_) => 2,
        MacosPhaseView::Installing => 3,
        MacosPhaseView::Deciding | MacosPhaseView::Initializing(_) => 4,
        MacosPhaseView::Finalizing(_, _)
        | MacosPhaseView::CheckingReadiness(_, _)
        | MacosPhaseView::ReadingState(_, _)
        | MacosPhaseView::Launching(_) => 6,
        MacosPhaseView::Finished => 7,
        MacosPhaseView::Failed => 0,
    }
}

/// What holds of an installation in each phase: the earlier steps are settled, and the result says
/// whether it ended well.
pub open spec fn on_track(m: MacosInstallerView) -> bool {
    &&& m.well_formed()
    &&& settled_through(m.status, settled_in(m.phase))
    &&& m.result.ok == (m.phase is Finished)
    &&& m.phase is Failed || m.result.errors.len() == 0
    &&& m.phase is Failed ==> no_step_open(m.status)
}

/// Whether no step is left that has not begun, and the step of the last news is not running.
pub open spec fn no_step_open(status: InstallerStatusView) -> bool {
    &&& forall|i: int|
        0 <= i < status.steps.len() ==> (#[trigger] status.steps[i]).state
            != InstallerStepState::Pending
    &&& status.current_step == 0 || status.steps[status.current_step - 1].state
        == InstallerStepState::Failed
}

/// The progress stays one of seven steps when a step is told of.
proof fn telling_keeps_steps(
    m: MacosInstallerView,
    index: usize,
    state: InstallerStepState,
    detail: Seq<char>,
    downloaded: Option<u64>,
    total: Option<u64>,
    now: Seq<char>,
)
    requires
        m.well_formed(),
        1 <= index <= 7,
    ensures
        m.told(index, state, detail, downloaded, total, now).well_formed(),
{
    let after = m.told(index, state, detail, downloaded, total, now);
    assert(macos::has_all_steps(after.status)) by {
        assert forall|i: int| 0 <= i < 7 implies (#[trigger] after.status.steps[i]).index == i + 1 by {
            assert(m.status.steps[i].index == i + 1);
        }
    }
    assert forall|i: int| 0 <= i < after.saves.len() implies macos::has_all_steps(
        #[trigger] after.saves[i],
    ) by {
        if i < m.saves.len() {
            assert(after.saves[i] == m.saves[i]);
        }
    }
}

/// The progress stays one of seven steps when the open ones are ended.
proof fn settling_keeps_steps(m: MacosInstallerView, detail: Seq<char>, now: Seq<char>)
    requires
        m.well_formed(),
    ensures
        m.settled(detail, now).well_formed(),
{
    let after = m.settled(detail, now);
    assert(macos::has_all_steps(after.status)) by {
        assert forall|i: int| 0 <= i < 7 implies (#[trigger] after.status.steps[i]).index == i + 1 by {
            assert(m.status.steps[i].index == i + 1);
        }
    }
    assert forall|i: int| 0 <= i < after.saves.len() implies macos::has_all_steps(
        #[trigger] after.saves[i],
    ) by {
        if i < m.saves.len() {
            assert(after.saves[i] == m.saves[i]);
        }
    }
}

/// A failure is told where it happened: the step of the last news has failed with the message, no
/// step is left that has not begun, and the result has the message as its only error.
pub proof fn failures_are_told(m: MacosInstallerView, failure: SetupFailureView, now: Seq<char>)
    requires
        m.well_formed(),
    ensures
        ({
            let (after, action) = macos::failed(m, failure, now);
            let told = macos::told_failure(failure);
            &&& after.well_formed()
            &&& after.phase is Failed
            &&& action == MacosActionView::Fail(told)
            &&& !after.result.ok
            &&& after.result.errors == seq![told.message]
            &&& no_step_open(after.status)
            &&& m.status.current_step > 0 ==> after.status.steps[m.status.current_step
                - 1].detail == told.message
            &&& after.saves.len() > 0 && after.saves.last() == after.status
        }),
{
    let told = macos::told_failure(failure);
    let index = m.status.current_step;
    let marked = if index == 0 {
        m
    } else {
        let step = m.status.steps[index - 1];
        m.told(
            index,
            InstallerStepState::Failed,
            told.message,
            step.downloaded_bytes,
            step.total_bytes,
            now,
        )
    };
    if index != 0 {
        let step = m.status.steps[index - 1];
        telling_keeps_steps(
            m,
            index,
            InstallerStepState::Failed,
            told.message,
            step.downloaded_bytes,
            step.total_bytes,
            now,
        );
    }
    settling_keeps_steps(marked, "安装已停止"@, now);
}

/// A step that is told of as settled joins those that were settled before.
proof fn settling_one_more(
    m: MacosInstallerView,
    index: usize,
    state: InstallerStepState,
    detail: Seq<char>,
    downloaded: Option<u64>,
    total: Option<u64>,
    now: Seq<char>,
    count: int,
)
    requires
        m.well_formed(),
        1 <= index <= 7,
        settled_through(m.status, count),
        0 <= count <= 7,
    ensures
        ({
            let after = m.told(index, state, detail, downloaded, total, now);
            let good = state == InstallerStepState::Completed || state
                == InstallerStepState::Skipped;
            &&& after.well_formed()
            &&& good && index == count + 1 ==> settled_through(after.status, count + 1)
            &&& good || index > count ==> settled_through(after.status, count)
        }),
{
    telling_keeps_steps(m, index, state, detail, downloaded, total, now);
    let after = m.told(index, state, detail, downloaded, total, now);
    assert forall|i: int| 0 <= i < 7 && i != index - 1 implies after.status.steps[i]
        == m.status.steps[i] by {}
}

/// The application is there: its steps are settled.
proof fn app_stays_on_track(m: MacosInstallerView, fresh: bool, now: Seq<char>)
    requires
        m.well_formed(),
        fresh ==> settled_through(m.status, 3),
        !m.result.ok,
        m.result.errors.len() == 0,
    ensures
        on_track(macos::with_app(m, fresh, now).0),
{
    let done = InstallerStepState::Completed;
    let skipped = InstallerStepState::Skipped;
    let text = "ChatGPT 桌面应用已安装"@;
    if fresh {
        settling_one_more(m, 4, done, text, None, None, now, 3);
        let a = m.step(4, done, text, now);
        settling_one_more(
            a,
            5,
            InstallerStepState::Running,
            "正在创建百积木 LLM 凭证并写入 Codex 配置"@,
            None,
            None,
            now,
            4,
        );
    } else {
        settling_one_more(m, 1, done, text, None, None, now, 0);
        let a = m.step(1, done, text, now);
        settling_one_more(a, 2, skipped, "无需读取应用安装包清单"@, None, None, now, 1);
        let b = a.step(2, skipped, "无需读取应用安装包清单"@, now);
        settling_one_more(b, 3, skipped, "无需下载应用安装包"@, None, None, now, 2);
        let c = b.step(3, skipped, "无需下载应用安装包"@, now);
        settling_one_more(c, 4, skipped, "无需重新安装应用"@, None, None, now, 3);
        let d = c.step(4, skipped, "无需重新安装应用"@, now);
        settling_one_more(
            d,
            5,
            InstallerStepState::Running,
            "正在创建百积木 LLM 凭证并写入 Codex 配置"@,
            None,
            None,
            now,
            4,
        );
    }
}

/// An installation stays on track until its application is there.
proof fn preparing_stays_on_track(m: MacosInstallerView, event: MacosEventView, now: Seq<char>)
    requires
        on_track(m),
        macos::prepares_app(m.phase),
    ensures
        on_track(macos::advanced_app(m, event, now).0),
{
    assert forall|failure: SetupFailureView| on_track(#[trigger] macos::failed(m, failure, now).0) by {
        failures_are_told(m, failure, now);
    }
    match (m.phase, event) {
        (MacosPhaseView::Locating, MacosEventView::AppLocated(None)) => {
            let detail = "未安装 ChatGPT 桌面应用，正在准备安装"@;
            settling_one_more(m, 1, InstallerStepState::Completed, detail, None, None, now, 0);
            let told = m.step(1, InstallerStepState::Completed, detail, now);
            assert forall|failure: SetupFailureView|
                on_track(#[trigger] macos::failed(told, failure, now).0) by {
                failures_are_told(told, failure, now);
            }
        },
        (
            MacosPhaseView::Inspecting(path, fresh),
            MacosEventView::AppInspected(directory, version, bundle_id),
        ) => {
            app_stays_on_track(
                macos::captured(m, path, fresh, version, bundle_id),
                fresh,
                now,
            );
        },
        (MacosPhaseView::Connecting(target), MacosEventView::DownloadOpened(length)) => {
            settling_one_more(
                m,
                macos::download_step(target),
                InstallerStepState::Running,
                macos::download_detail(target),
                Some(0),
                macos::download_total(target, length),
                now,
                settled_in(m.phase),
            );
        },
        (
            MacosPhaseView::Receiving(target, total, count),
            MacosEventView::Received(more, waited),
        ) => {
            settling_one_more(
                m,
                macos::download_step(target),
                InstallerStepState::Running,
                macos::download_detail(target),
                Some(macos::counted(count, more)),
                total,
                now,
                settled_in(m.phase),
            );
        },
        (MacosPhaseView::Receiving(target, total, count), MacosEventView::DownloadClosed) => {
            settling_one_more(
                m,
                macos::download_step(target),
                InstallerStepState::Completed,
                macos::download_detail(target),
                Some(count),
                total,
                now,
                settled_in(m.phase),
            );
            if target is Archive {
                let told = m.told(
                    3,
                    InstallerStepState::Completed,
                    macos::download_detail(target),
                    Some(count),
                    total,
                    now,
                );
                settling_one_more(
                    told,
                    4,
                    InstallerStepState::Running,
                    "正在校验并安装 ChatGPT 桌面应用"@,
                    None,
                    None,
                    now,
                    3,
                );
            }
        },
        (MacosPhaseView::ReadingVersion(asset), MacosEventView::VersionRead(version)) => {
            settling_one_more(
                m,
                2,
                InstallerStepState::Completed,
                "已找到制品 "@ + asset.name,
                None,
                None,
                now,
                2,
            );
        },
        _ => {},
    }
}

/// The profile is ready: its steps are settled.
proof fn profile_stays_on_track(
    m: MacosInstallerView,
    auto_activate: bool,
    prepared: crate::credential::contract::PreparedWorkspaceProfileView,
    home: CodexPathView,
    now: Seq<char>,
)
    requires
        on_track(m),
        m.phase is Initializing,
    ensures
        on_track(macos::with_profile(m, auto_activate, prepared, home, now).0),
{
    let noted = MacosInstallerView {
        result: contract::MacosInstallerResultView {
            codex_home: home.text,
            llm_credential_created: true,
            config_written: true,
            auth_written: true,
            ..m.result
        },
        ..m
    };
    let done = InstallerStepState::Completed;
    let first = "已使用百积木 LLM 凭证写入 Codex 配置"@;
    let second = "安装完成后由桌面管理器在后台验证百积木路由"@;
    settling_one_more(noted, 5, done, first, None, None, now, 4);
    let a = noted.step(5, done, first, now);
    settling_one_more(a, 6, InstallerStepState::Skipped, second, None, None, now, 5);
    let b = a.step(6, InstallerStepState::Skipped, second, now);
    settling_one_more(
        b,
        7,
        InstallerStepState::Running,
        "正在提交工作区档案并启动桌面应用"@,
        None,
        None,
        now,
        6,
    );
}

/// The end is reached with every step settled.
proof fn end_stays_on_track(
    m: MacosInstallerView,
    credential: Seq<char>,
    completion: SetupCompletionView,
    now: Seq<char>,
)
    requires
        m.well_formed(),
        settled_through(m.status, 6),
        m.result.errors.len() == 0,
    ensures
        on_track(macos::finished(m, credential, completion, now).0),
{
    let after = macos::finished(m, credential, completion, now).0;
    let noted = MacosInstallerView { result: after.result, ..m };
    settling_one_more(
        noted,
        7,
        InstallerStepState::Completed,
        completion.text(),
        None,
        None,
        now,
        6,
    );
    let told = noted.step(7, InstallerStepState::Completed, completion.text(), now);
    settling_keeps_steps(told, "安装已完成"@, now);
    assert(after == told.settled("安装已完成"@, now).at(MacosPhaseView::Finished));
    assert forall|i: int| 0 <= i < 7 implies {
        let state = (#[trigger] after.status.steps[i]).state;
        state == InstallerStepState::Completed || state == InstallerStepState::Skipped
    } by {
        assert(after.status.steps[i] == contract::settled_step(
            told.status.steps[i],
            InstallerStepState::Skipped,
            "安装已完成"@,
        ));
    }
}

/// An installation stays on track once its application is there.
proof fn setting_up_stays_on_track(m: MacosInstallerView, event: MacosEventView, now: Seq<char>)
    requires
        on_track(m),
        !macos::prepares_app(m.phase),
        !(m.phase is Failed),
        !(m.phase is Finished),
    ensures
        on_track(macos::advanced_profile(m, event, now).0),
{
    assert forall|failure: SetupFailureView| on_track(#[trigger] macos::failed(m, failure, now).0) by {
        failures_are_told(m, failure, now);
    }
    match (m.phase, event) {
        (
            MacosPhaseView::Initializing(auto_activate),
            MacosEventView::ProfileReady(prepared, home),
        ) => {
            profile_stays_on_track(m, auto_activate, prepared, home, now);
        },
        (
            MacosPhaseView::ReadingState(credential, home),
            MacosEventView::StateRead(mode, active, active_home),
        ) => {
            end_stays_on_track(m, credential, SetupCompletionView::NotRequested, now);
        },
        (MacosPhaseView::Launching(credential), MacosEventView::DesktopLaunched(error)) => {
            end_stays_on_track(m, credential, super::after_launch(error), now);
        },
        _ => {},
    }
}

/// Whatever comes, an installation stays on track.
proof fn everything_stays_on_track(m: MacosInstallerView, event: MacosEventView, now: Seq<char>)
    requires
        on_track(m),
    ensures
        on_track(macos::advanced(m, event, now).0),
{
    let kept = m.kept();
    assert(on_track(kept));
    match (m.phase, event) {
        (MacosPhaseView::Failed, _) => {},
        (_, MacosEventView::SaveFailed(place, failure)) => {
            if place < m.saves.len() {
                let earlier = MacosInstallerView { status: m.saves[place as int], ..kept };
                failures_are_told(earlier, failure, now);
            } else {
                failures_are_told(kept, failure, now);
            }
        },
        (MacosPhaseView::Finished, _) => {},
        (_, MacosEventView::Failed(failure)) => {
            failures_are_told(kept, failure, now);
        },
        _ => {
            if macos::prepares_app(m.phase) {
                preparing_stays_on_track(kept, event, now);
            } else {
                setting_up_stays_on_track(kept, event, now);
            }
        },
    }
}

/// An event and when it came.
pub struct TimedEvent {
    pub event: MacosEventView,
    pub now: Seq<char>,
}

/// Where an installation is after these events.
pub open spec fn run(start: MacosInstallerView, events: Seq<TimedEvent>) -> MacosInstallerView
    decreases events.len(),
{
    if events.len() == 0 {
        start
    } else {
        let last = events.last();
        macos::advanced(run(start, events.drop_last()), last.event, last.now).0
    }
}

/// Whether the event came.
pub open spec fn came(events: Seq<TimedEvent>, event: MacosEventView) -> bool {
    exists|i: int| 0 <= i < events.len() && (#[trigger] events[i]).event == event
}

/// What came before, came.
proof fn came_before(events: Seq<TimedEvent>, event: MacosEventView)
    requires
        events.len() > 0,
    ensures
        came(events.drop_last(), event) ==> came(events, event),
        events.last().event == event ==> came(events, event),
{
    let early = events.drop_last();
    assert(events[events.len() - 1] == events.last());
    if came(early, event) {
        let i = choose|i: int| 0 <= i < early.len() && (#[trigger] early[i]).event == event;
        assert(events[i] == early[i]);
    }
}

/// A new installation is on track.
proof fn beginning_is_on_track(
    workspace_id: u64,
    arch: Seq<char>,
    source: UpstreamArtifactSourceV2View,
    model: Seq<char>,
    status_path: Seq<char>,
    result_path: Seq<char>,
    now: Seq<char>,
)
    ensures
        on_track(
            macos::begun(workspace_id, arch, source, model, status_path, result_path, now),
        ),
{
    let status = contract::macos_status(now, status_path, result_path);
    assert(contract::macos_steps().len() == 7);
    assert(macos::has_all_steps(status));
    let before = MacosInstallerView {
        workspace_id,
        arch,
        source,
        status,
        saves: seq![status],
        result: contract::pending_result(now, Seq::empty(), workspace_id, model),
        phase: MacosPhaseView::Locating,
    };
    telling_keeps_steps(
        before,
        1,
        InstallerStepState::Running,
        "正在检查 ChatGPT 桌面应用"@,
        None,
        None,
        now,
    );
}

/// Whatever events come, the result of an installation says that it ended well exactly if it did,
/// and then every step was completed or skipped and there is no error; after a failure no step is
/// left that has not begun.
pub proof fn results_tell_the_end(
    workspace_id: u64,
    arch: Seq<char>,
    source: UpstreamArtifactSourceV2View,
    model: Seq<char>,
    status_path: Seq<char>,
    result_path: Seq<char>,
    now: Seq<char>,
    events: Seq<TimedEvent>,
)
    ensures
        ({
            let end = run(
                macos::begun(workspace_id, arch, source, model, status_path, result_path, now),
                events,
            );
            &&& on_track(end)
            &&& end.result.ok == (end.phase is Finished)
            &&& end.phase is Finished ==> settled_through(end.status, 7) && end.result.errors.len()
                == 0
            &&& end.phase is Failed ==> no_step_open(end.status)
        }),
    decreases events.len(),
{
    if events.len() == 0 {
        beginning_is_on_track(workspace_id, arch, source, model, status_path, result_path, now);
    } else {
        let early = events.drop_last();
        results_tell_the_end(
            workspace_id,
            arch,
            source,
            model,
            status_path,
            result_path,
            now,
            early,
        );
        let start = macos::begun(workspace_id, arch, source, model, status_path, result_path, now);
        everything_stays_on_track(run(start, early), events.last().event, events.last().now);
    }
}

/// What came on the way to each phase.
pub open spec fn way(phase: MacosPhaseView, events: Seq<TimedEvent>) -> bool {
    let finalized = came(events, MacosEventView::SetupFinalized);
    let ready = came(events, MacosEventView::ReadinessChecked(true));
    match phase {
        MacosPhaseView::CheckingReadiness(_, _) => finalized,
        MacosPhaseView::ReadingState(_, _)
        | MacosPhaseView::Launching(_)
        | MacosPhaseView::Finished => finalized && ready,
        _ => true,
    }
}

/// Every installation went its way.
proof fn runs_go_their_way(start: MacosInstallerView, events: Seq<TimedEvent>)
    requires
        start.phase is Locating,
    ensures
        way(run(start, events).phase, events),
    decreases events.len(),
{
    if events.len() > 0 {
        let early = events.drop_last();
        runs_go_their_way(start, early);
        came_before(events, MacosEventView::SetupFinalized);
        came_before(events, MacosEventView::ReadinessChecked(true));
    }
}

/// An installation ends well, and opens the desktop application, only after the profile was put on
/// record and the workspace was found ready; and it opens it only on a home that is in effect for
/// the workspace.
pub proof fn only_a_ready_workspace_ends_well(
    start: MacosInstallerView,
    events: Seq<TimedEvent>,
    event: MacosEventView,
    now: Seq<char>,
)
    requires
        start.phase is Locating,
    ensures
        ({
            let before = run(start, events);
            let action = macos::advanced(before, event, now).1;
            &&& action is Finish || action is LaunchDesktop ==> came(
                events,
                MacosEventView::SetupFinalized,
            ) && came(events, MacosEventView::ReadinessChecked(true))
            &&& action matches MacosActionView::LaunchDesktop(home) ==> {
                &&& event matches MacosEventView::StateRead(mode, active, active_home)
                &&& super::windows::profile_is_active(
                    mode,
                    active,
                    active_home,
                    before.workspace_id,
                    home,
                )
            }
        }),
{
    runs_go_their_way(start, events);
}

/// After a failure nothing more is done; after a good end only a progress that could not be kept
/// matters.
pub proof fn nothing_follows_the_end(m: MacosInstallerView, event: MacosEventView, now: Seq<char>)
    requires
        m.phase is Failed || m.phase is Finished && !(event is SaveFailed),
    ensures
        macos::advanced(m, event, now) == (m.kept(), MacosActionView::Ignore),
{
}

} // verus!
