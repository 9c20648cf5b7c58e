//! How an installation on Windows goes, from its beginning to its end.
use crate::codex_path::CodexPathView;
use crate::credential::contract::{AuthMode, PreparedWorkspaceProfileView};
use crate::environment::EnvironmentVariableView;
use crate::setup::windows;
use crate::setup::windows::{
    InstallerRunView, WindowsActionView, WindowsEventView, WindowsPhaseView,
};
use crate::setup::{SetupCompletionView, SetupFailureView};
use crate::text;
use vstd::prelude::*;

verus! {

/// One event more.
proof fn one_more(workspace_id: u64, events: Seq<WindowsEventView>, event: WindowsEventView)
    ensures
        ({
            let (phase, actions) = windows::run(workspace_id, events);
            let (next, action) = windows::advanced(workspace_id, phase, event);
            windows::run(workspace_id, events.push(event)) == (next, actions.push(action))
        }),
{
    assert(events.push(event).drop_last() =~= events);
}

/// Whether the script ended well: the program did, and it reports that it did.
pub open spec fn ended_well(run: InstallerRunView) -> bool {
    run.end.success && run.result is Some && run.result->0.ok
}

/// A script is accepted exactly where it ended well.
pub proof fn script_is_judged_by_its_report(run: InstallerRunView)
    ensures
        windows::run_fault(run) is None <==> ended_well(run),
        run.result is Some && !ended_well(run) && run.result->0.errors.len() > 0 ==> windows::run_fault(
            run,
        ) == Some(
            "官方安装脚本执行失败: "@ + text::compacted(
                text::joined(run.result->0.errors, "；"@),
                1000,
            ),
        ),
        run.result is Some && !ended_well(run) && run.result->0.errors.len() == 0
            ==> windows::run_fault(run) == Some(
            "官方安装脚本执行失败: "@ + text::compacted(run.end.stderr, 1000),
        ),
{
}

/// The events of an installation that meets no obstacle until the state is read.
pub open spec fn good_events(
    auto: bool,
    prepared: PreparedWorkspaceProfileView,
    home: CodexPathView,
    run: InstallerRunView,
    mode: AuthMode,
    active: Option<u64>,
    active_home: CodexPathView,
) -> Seq<WindowsEventView> {
    seq![
        WindowsEventView::ActivationDecided(auto),
        WindowsEventView::ProfilePrepared(prepared, home),
        WindowsEventView::InstallerEnded(run),
        WindowsEventView::SetupFinalized,
        WindowsEventView::StateRead(mode, active, active_home),
        WindowsEventView::FilesRemoved,
    ]
}

/// An installation that meets no obstacle goes through: the profile is prepared for the workspace, the
/// script runs for it, the profile is put on record, and in effect where that was decided, what is in
/// effect is read, the files are removed and the workspace is checked. A ready workspace that is in
/// effect with the same home has the desktop application opened on it, and how that went is the end;
/// one that is not in effect is the end as it is; and one that is not ready is a failure.
pub proof fn installation_without_obstacle_goes_through(
    workspace_id: u64,
    auto: bool,
    prepared: PreparedWorkspaceProfileView,
    home: CodexPathView,
    run: InstallerRunView,
    mode: AuthMode,
    active: Option<u64>,
    active_home: CodexPathView,
    launch: Option<Seq<char>>,
)
    requires
        ended_well(run),
    ensures
        ({
            let events = good_events(auto, prepared, home, run, mode, active, active_home);
            let (phase, actions) = windows::run(workspace_id, events);
            let in_effect = mode == AuthMode::Baijimu && active == Some(workspace_id)
                && active_home.components == home.components;
            let ready = windows::run(
                workspace_id,
                events.push(WindowsEventView::ReadinessChecked(true)),
            );
            let unready = windows::run(
                workspace_id,
                events.push(WindowsEventView::ReadinessChecked(false)),
            );
            let opened = windows::run(
                workspace_id,
                events.push(WindowsEventView::ReadinessChecked(true)).push(
                    WindowsEventView::DesktopLaunched(launch),
                ),
            );
            &&& actions == seq![
                WindowsActionView::DecideActivation,
                WindowsActionView::PrepareProfile(workspace_id),
                WindowsActionView::RunInstaller(prepared),
                WindowsActionView::FinalizeSetup(prepared.profile, auto),
                WindowsActionView::ReadState,
                WindowsActionView::RemoveFiles,
                WindowsActionView::CheckReadiness(workspace_id),
            ]
            &&& in_effect ==> ready.1.last() == WindowsActionView::LaunchDesktop(home)
            &&& !in_effect ==> ready.1.last() == WindowsActionView::Finish(
                SetupCompletionView::NotRequested,
            ) && ready.0 == WindowsPhaseView::Ended
            &&& in_effect && launch is None ==> opened.1.last() == WindowsActionView::Finish(
                SetupCompletionView::Verified,
            )
            &&& in_effect && launch is Some ==> (opened.1.last() matches WindowsActionView::Finish(done)
                && done is Warning)
            &&& unready.1.last() is Fail && unready.0 == WindowsPhaseView::Ended
        }),
{
    let e0 = Seq::<WindowsEventView>::empty();
    let a = WindowsEventView::ActivationDecided(auto);
    let b = WindowsEventView::ProfilePrepared(prepared, home);
    let c = WindowsEventView::InstallerEnded(run);
    let d = WindowsEventView::SetupFinalized;
    let e = WindowsEventView::StateRead(mode, active, active_home);
    let f = WindowsEventView::FilesRemoved;
    one_more(workspace_id, e0, a);
    one_more(workspace_id, e0.push(a), b);
    one_more(workspace_id, e0.push(a).push(b), c);
    one_more(workspace_id, e0.push(a).push(b).push(c), d);
    one_more(workspace_id, e0.push(a).push(b).push(c).push(d), e);
    let most = e0.push(a).push(b).push(c).push(d).push(e);
    one_more(workspace_id, most, f);
    let events = good_events(auto, prepared, home, run, mode, active, active_home);
    assert(events =~= most.push(f));
    assert(windows::run(workspace_id, events).1 =~= seq![
        WindowsActionView::DecideActivation,
        WindowsActionView::PrepareProfile(workspace_id),
        WindowsActionView::RunInstaller(prepared),
        WindowsActionView::FinalizeSetup(prepared.profile, auto),
        WindowsActionView::ReadState,
        WindowsActionView::RemoveFiles,
        WindowsActionView::CheckReadiness(workspace_id),
    ]);
    one_more(workspace_id, events, WindowsEventView::ReadinessChecked(true));
    one_more(workspace_id, events, WindowsEventView::ReadinessChecked(false));
    one_more(
        workspace_id,
        events.push(WindowsEventView::ReadinessChecked(true)),
        WindowsEventView::DesktopLaunched(launch),
    );
}

/// A failure ends the installation with that failure: at once where nothing was begun, and after the
/// files were removed where the profile was being prepared or later, until they are removed anyway.
pub proof fn failures_end_the_installation(
    workspace_id: u64,
    phase: WindowsPhaseView,
    failure: SetupFailureView,
)
    ensures
        ({
            let (next, action) = windows::advanced(
                workspace_id,
                phase,
                WindowsEventView::Failed(failure),
            );
            let (end, last) = windows::advanced(workspace_id, next, WindowsEventView::FilesRemoved);
            &&& phase is Deciding ==> next == WindowsPhaseView::Ended && action
                == WindowsActionView::Fail(failure)
            &&& phase is Preparing || phase is Installing || phase is Finalizing
                || phase is ReadingState ==> action == WindowsActionView::RemoveFiles && end
                == WindowsPhaseView::Ended && last == WindowsActionView::Fail(failure)
        }),
{
}

/// A script that did not end well ends the installation with what it reported, after the files were
/// removed; the profile is not put on record.
pub proof fn failed_script_ends_the_installation(
    workspace_id: u64,
    auto: bool,
    prepared: PreparedWorkspaceProfileView,
    home: CodexPathView,
    run: InstallerRunView,
)
    requires
        !ended_well(run),
    ensures
        ({
            let phase = WindowsPhaseView::Installing(auto, prepared, home);
            let (next, action) = windows::advanced(
                workspace_id,
                phase,
                WindowsEventView::InstallerEnded(run),
            );
            let (end, last) = windows::advanced(workspace_id, next, WindowsEventView::FilesRemoved);
            &&& action == WindowsActionView::RemoveFiles
            &&& last is Fail
            &&& windows::run_fault(run) == Some(last->Fail_0.message)
            &&& !last->Fail_0.unsupported_os
        }),
{
}

/// Whether the environment gives the variable this value, and no other.
pub open spec fn gives(
    environment: Seq<EnvironmentVariableView>,
    name: Seq<char>,
    value: Seq<char>,
) -> bool {
    &&& exists|i: int| 0 <= i < environment.len() && (#[trigger] environment[i]).name == name
    &&& forall|i: int|
        0 <= i < environment.len() && (#[trigger] environment[i]).name == name
            ==> environment[i].value == value
}

/// What the script is told, each under its name.
pub proof fn script_is_told_of_the_workspace(
    workspace_id: u64,
    manifest_url: Seq<char>,
    credential_file: Seq<char>,
    state_dir: Seq<char>,
    ui_locale: Seq<char>,
    protocol: Seq<char>,
    publishers: Seq<Seq<char>>,
    codex_home: Seq<char>,
)
    ensures
        ({
            let told = windows::script_environment(
                workspace_id,
                manifest_url,
                credential_file,
                state_dir,
                ui_locale,
                protocol,
                publishers,
                codex_home,
            );
            &&& gives(told, "CODEX_WORKSPACE_ID"@, text::decimal(workspace_id as nat))
            &&& gives(told, "CODEX_ARTIFACT_MANIFEST_URL"@, manifest_url)
            &&& gives(told, "CODEX_LLM_CREDENTIAL_FILE"@, credential_file)
            &&& gives(told, "CODEX_INSTALL_STATE_DIR"@, state_dir)
            &&& gives(told, "CODEX_UI_LOCALE"@, ui_locale)
            &&& gives(told, "CODEX_DESKTOP_PROTOCOL"@, protocol)
            &&& gives(told, "CODEX_HOME"@, codex_home)
            &&& gives(told, "CODEX_DESKTOP_TRUSTED_PUBLISHERS"@, text::joined(publishers, "\n"@))
        }),
{
    reveal_strlit("CODEX_WORKSPACE_ID");
    reveal_strlit("CODEX_ARTIFACT_MANIFEST_URL");
    reveal_strlit("CODEX_LLM_CREDENTIAL_FILE");
    reveal_strlit("CODEX_INSTALL_STATE_DIR");
    reveal_strlit("CODEX_INSTALL_QUIET");
    reveal_strlit("CODEX_UI_LOCALE");
    reveal_strlit("CODEX_DESKTOP_PROTOCOL");
    reveal_strlit("CODEX_DESKTOP_TRUSTED_PUBLISHERS");
    reveal_strlit("CODEX_HOME");
    let told = windows::script_environment(
        workspace_id,
        manifest_url,
        credential_file,
        state_dir,
        ui_locale,
        protocol,
        publishers,
        codex_home,
    );
    assert(told.len() == 9);
    assert("CODEX_WORKSPACE_ID"@.len() == 18);
    assert("CODEX_ARTIFACT_MANIFEST_URL"@.len() == 27);
    assert("CODEX_LLM_CREDENTIAL_FILE"@.len() == 25);
    assert("CODEX_INSTALL_STATE_DIR"@.len() == 23);
    assert("CODEX_INSTALL_QUIET"@.len() == 19);
    assert("CODEX_UI_LOCALE"@.len() == 15);
    assert("CODEX_DESKTOP_PROTOCOL"@.len() == 22);
    assert("CODEX_DESKTOP_TRUSTED_PUBLISHERS"@.len() == 32);
    assert("CODEX_HOME"@.len() == 10);
    assert(told[0].name == "CODEX_WORKSPACE_ID"@);
    assert(told[1].name == "CODEX_ARTIFACT_MANIFEST_URL"@);
    assert(told[2].name == "CODEX_LLM_CREDENTIAL_FILE"@);
    assert(told[3].name == "CODEX_INSTALL_STATE_DIR"@);
    assert(told[4].name == "CODEX_INSTALL_QUIET"@);
    assert(told[5].name == "CODEX_UI_LOCALE"@);
    assert(told[6].name == "CODEX_DESKTOP_PROTOCOL"@);
    assert(told[7].name == "CODEX_DESKTOP_TRUSTED_PUBLISHERS"@);
    assert(told[8].name == "CODEX_HOME"@);
}

} // verus!
