//! How an installation on macOS goes, from its beginning to its end.
use crate::codex_path::CodexPathView;
use crate::credential::contract::{AuthMode, PreparedWorkspaceProfileView};
use crate::setup::contract;
use crate::setup::contract::InstallerStepState;
use crate::setup::macos;
use crate::setup::macos::{
    DownloadTargetView, MacosActionView, MacosEventView, MacosInstallerView, MacosPhaseView,
};
use crate::setup::manifest;
use crate::setup::manifest::{UpstreamAssetV4View, UpstreamManifestV4View};
use crate::setup::manifest_laws;
use crate::setup::process::ProcessEndView;
use crate::setup::source;
use crate::setup::source::UpstreamArtifactSourceV2View;
use crate::setup::{SetupCompletionView, SetupFailureView};
use crate::system_compatibility as system;
use crate::text;
use crate::text_laws;
use vstd::prelude::*;

verus! {

/// Where an installation is after these events, and what was to be done after each of them.
pub open spec fn go(m: MacosInstallerView, events: Seq<MacosEventView>, now: Seq<char>) -> (
    MacosInstallerView,
    Seq<MacosActionView>,
)
    decreases events.len(),
{
    if events.len() == 0 {
        (m, Seq::empty())
    } else {
        let (before, actions) = go(m, events.drop_last(), now);
        let (next, action) = macos::advanced(before, events.last(), now);
        (next, actions.push(action))
    }
}

/// One event more.
proof fn one_more(
    m: MacosInstallerView,
    events: Seq<MacosEventView>,
    event: MacosEventView,
    now: Seq<char>,
)
    ensures
        ({
            let (before, actions) = go(m, events, now);
            let (next, action) = macos::advanced(before, event, now);
            go(m, events.push(event), now) == (next, actions.push(action))
        }),
{
    assert(events.push(event).drop_last() =~= events);
}

/// An application that is there is not installed again: where it was found and the system can run it, it
/// is looked at, and the profile is next. What was found of it is in the result.
pub proof fn installed_application_is_used(
    m: MacosInstallerView,
    path: Seq<char>,
    version: Seq<char>,
    bundle_id: Seq<char>,
    now: Seq<char>,
)
    requires
        m.phase is Locating,
    ensures
        ({
            let events = seq![
                MacosEventView::AppLocated(Some(path)),
                MacosEventView::Compatible,
                MacosEventView::AppInspected(true, version, bundle_id),
            ];
            let (after, actions) = go(m, events, now);
            &&& actions == seq![
                MacosActionView::CheckCompatibility(path),
                MacosActionView::InspectApp(path),
                MacosActionView::DecideActivation,
            ]
            &&& after.phase == MacosPhaseView::Deciding
            &&& after.result.app_installed
            &&& after.result.app_path == path
            &&& after.result.version == version
            &&& after.result.bundle_id == bundle_id
            &&& after.result.app_install_method == "already-installed"@
            &&& after.workspace_id == m.workspace_id
        }),
{
    let e0 = Seq::<MacosEventView>::empty();
    let a = MacosEventView::AppLocated(Some(path));
    let b = MacosEventView::Compatible;
    let c = MacosEventView::AppInspected(true, version, bundle_id);
    one_more(m, e0, a, now);
    one_more(m, e0.push(a), b, now);
    one_more(m, e0.push(a).push(b), c, now);
    let events = seq![a, b, c];
    assert(events =~= e0.push(a).push(b).push(c));
    assert(go(m, events, now).1 =~= seq![
        MacosActionView::CheckCompatibility(path),
        MacosActionView::InspectApp(path),
        MacosActionView::DecideActivation,
    ]);
}

/// An application that is not there is installed: the list is downloaded from the address that the
/// source names; from a sound list the only package for the machine is taken; where the system is recent
/// enough for it, it is downloaded from its address under its name and installed by its digest; and what
/// the installing program wrote as the path is checked and looked at like one that was there.
pub proof fn missing_application_is_installed(
    m: MacosInstallerView,
    length: Option<u64>,
    list: UpstreamManifestV4View,
    at: int,
    version: Seq<char>,
    size: Option<u64>,
    end: ProcessEndView,
    output: Seq<char>,
    now: Seq<char>,
)
    requires
        m.phase is Locating,
        source::address(m.source) is Ok,
        manifest::manifest_fault(list) is None,
        0 <= at < list.assets.len(),
        manifest_laws::is_for(list.assets[at], "codex_desktop_app"@, m.arch),
        forall|i: int|
            0 <= i < list.assets.len() && i != at ==> !manifest_laws::is_for(
                #[trigger] list.assets[i],
                "codex_desktop_app"@,
                m.arch,
            ),
        system::fault(
            "macOS"@,
            version,
            list.assets[at].host_requirements->0.minimum_os_version,
            "ChatGPT/Codex"@,
        ) is None,
        end.success,
        macos::app_path_valid(text::trimmed(output)),
    ensures
        ({
            let asset = list.assets[at];
            let events = seq![
                MacosEventView::AppLocated(None),
                MacosEventView::DownloadOpened(length),
                MacosEventView::DownloadClosed,
                MacosEventView::ManifestRead(list),
                MacosEventView::VersionRead(version),
                MacosEventView::DownloadOpened(size),
                MacosEventView::DownloadClosed,
                MacosEventView::AppInstalled(end, Some(output)),
            ];
            let (after, actions) = go(m, events, now);
            &&& actions.len() == 8
            &&& actions[0] is Download
            &&& actions[0]->Download_0.url == source::address(m.source)->Ok_0
            &&& actions[1] is Receive
            &&& actions[2] == MacosActionView::ReadManifest
            &&& actions[3] == MacosActionView::ReadVersion
            &&& actions[4] is Download
            &&& actions[4]->Download_0.url == asset.mirror_url
            &&& actions[4]->Download_0.file_name == asset.name
            &&& actions[5] is Receive
            &&& actions[6] == MacosActionView::InstallApp(asset.name, asset.sha256)
            &&& actions[7] == MacosActionView::CheckCompatibility(text::trimmed(output))
            &&& after.phase == MacosPhaseView::Checking(text::trimmed(output), true)
            &&& after.workspace_id == m.workspace_id
        }),
{
    let asset = list.assets[at];
    manifest_laws::sound_manifests_are_accepted(list);
    assert(manifest_laws::is_described(asset));
    manifest_laws::only_package_is_chosen(list.assets, "codex_desktop_app"@, m.arch, at);
    let first = seq![
        MacosEventView::AppLocated(None),
        MacosEventView::DownloadOpened(length),
        MacosEventView::DownloadClosed,
        MacosEventView::ManifestRead(list),
    ];
    let second = seq![
        MacosEventView::VersionRead(version),
        MacosEventView::DownloadOpened(size),
        MacosEventView::DownloadClosed,
        MacosEventView::AppInstalled(end, Some(output)),
    ];
    package_is_found(m, length, list, asset, now);
    let middle = go(m, first, now).0;
    package_is_installed(middle, asset, version, size, end, output, now);
    go_goes_on(m, first, second, now);
    assert(first + second =~= seq![
        MacosEventView::AppLocated(None),
        MacosEventView::DownloadOpened(length),
        MacosEventView::DownloadClosed,
        MacosEventView::ManifestRead(list),
        MacosEventView::VersionRead(version),
        MacosEventView::DownloadOpened(size),
        MacosEventView::DownloadClosed,
        MacosEventView::AppInstalled(end, Some(output)),
    ]);
}

/// What follows some events follows them as if it began there.
proof fn go_goes_on(
    m: MacosInstallerView,
    first: Seq<MacosEventView>,
    second: Seq<MacosEventView>,
    now: Seq<char>,
)
    ensures
        ({
            let (middle, early) = go(m, first, now);
            let (end, late) = go(middle, second, now);
            go(m, first + second, now) == (end, early + late)
        }),
    decreases second.len(),
{
    let (middle, early) = go(m, first, now);
    if second.len() == 0 {
        assert(first + second =~= first);
        assert(early + Seq::<MacosActionView>::empty() =~= early);
    } else {
        let front = second.drop_last();
        go_goes_on(m, first, front, now);
        assert((first + second).drop_last() =~= first + front);
        assert((first + second).last() == second.last());
        let late = go(middle, front, now).1;
        let action = macos::advanced(go(middle, front, now).0, second.last(), now).1;
        assert((early + late).push(action) =~= early + late.push(action));
    }
}

/// The package is found in the list.
#[verifier::rlimit(50)]
proof fn package_is_found(
    m: MacosInstallerView,
    length: Option<u64>,
    list: UpstreamManifestV4View,
    asset: UpstreamAssetV4View,
    now: Seq<char>,
)
    requires
        m.phase is Locating,
        source::address(m.source) is Ok,
        manifest::manifest_fault(list) is None,
        manifest::selected(list.assets, "codex_desktop_app"@, m.arch) is Ok,
        manifest::selected(list.assets, "codex_desktop_app"@, m.arch)->Ok_0 == asset,
    ensures
        ({
            let events = seq![
                MacosEventView::AppLocated(None),
                MacosEventView::DownloadOpened(length),
                MacosEventView::DownloadClosed,
                MacosEventView::ManifestRead(list),
            ];
            let (after, actions) = go(m, events, now);
            &&& after.phase == MacosPhaseView::ReadingVersion(asset)
            &&& after.workspace_id == m.workspace_id
            &&& actions.len() == 4
            &&& actions[0] is Download
            &&& actions[0]->Download_0.url == source::address(m.source)->Ok_0
            &&& actions[1] is Receive
            &&& actions[2] == MacosActionView::ReadManifest
            &&& actions[3] == MacosActionView::ReadVersion
        }),
{
    let e0 = Seq::<MacosEventView>::empty();
    let a = MacosEventView::AppLocated(None);
    let b = MacosEventView::DownloadOpened(length);
    let c = MacosEventView::DownloadClosed;
    let d = MacosEventView::ManifestRead(list);
    let e1 = e0.push(a);
    let e2 = e1.push(b);
    let e3 = e2.push(c);
    one_more(m, e0, a, now);
    assert(go(m, e1, now).0.phase == MacosPhaseView::Connecting(DownloadTargetView::Manifest));
    one_more(m, e1, b, now);
    assert(go(m, e2, now).0.phase is Receiving);
    one_more(m, e2, c, now);
    assert(go(m, e3, now).0.phase is ReadingManifest);
    one_more(m, e3, d, now);
    assert(e3.push(d) =~= seq![a, b, c, d]);
}

/// The package is downloaded and installed.
#[verifier::rlimit(50)]
proof fn package_is_installed(
    m: MacosInstallerView,
    asset: UpstreamAssetV4View,
    version: Seq<char>,
    size: Option<u64>,
    end: ProcessEndView,
    output: Seq<char>,
    now: Seq<char>,
)
    requires
        m.phase == MacosPhaseView::ReadingVersion(asset),
        asset.host_requirements is Some,
        system::fault(
            "macOS"@,
            version,
            asset.host_requirements->0.minimum_os_version,
            "ChatGPT/Codex"@,
        ) is None,
        end.success,
        macos::app_path_valid(text::trimmed(output)),
    ensures
        ({
            let events = seq![
                MacosEventView::VersionRead(version),
                MacosEventView::DownloadOpened(size),
                MacosEventView::DownloadClosed,
                MacosEventView::AppInstalled(end, Some(output)),
            ];
            let (after, actions) = go(m, events, now);
            &&& actions.len() == 4
            &&& actions[0] is Download
            &&& actions[0]->Download_0.url == asset.mirror_url
            &&& actions[0]->Download_0.file_name == asset.name
            &&& actions[1] is Receive
            &&& actions[2] == MacosActionView::InstallApp(asset.name, asset.sha256)
            &&& actions[3] == MacosActionView::CheckCompatibility(text::trimmed(output))
            &&& after.phase == MacosPhaseView::Checking(text::trimmed(output), true)
            &&& after.workspace_id == m.workspace_id
        }),
{
    let e0 = Seq::<MacosEventView>::empty();
    let e = MacosEventView::VersionRead(version);
    let f = MacosEventView::DownloadOpened(size);
    let g = MacosEventView::DownloadClosed;
    let h = MacosEventView::AppInstalled(end, Some(output));
    let e1 = e0.push(e);
    let e2 = e1.push(f);
    let e3 = e2.push(g);
    one_more(m, e0, e, now);
    assert(go(m, e1, now).0.phase == MacosPhaseView::Connecting(DownloadTargetView::Archive(asset)));
    one_more(m, e1, f, now);
    assert(go(m, e2, now).0.phase is Receiving);
    one_more(m, e2, g, now);
    assert(go(m, e3, now).0.phase is Installing);
    one_more(m, e3, h, now);
    assert(e3.push(h) =~= seq![e, f, g, h]);
}

/// Once the application is there, a setup that meets no obstacle goes through: the profile of the
/// workspace is prepared and put on record, and in effect where that was decided; the workspace is
/// checked; and where it is in effect with the home of the profile the desktop application is opened on
/// that. It ends well, with the credential of the profile, and says how the opening went.
pub proof fn setup_without_obstacle_goes_through(
    m: MacosInstallerView,
    auto: bool,
    prepared: PreparedWorkspaceProfileView,
    home: CodexPathView,
    mode: AuthMode,
    active: Option<u64>,
    active_home: CodexPathView,
    launch: Option<Seq<char>>,
    now: Seq<char>,
)
    requires
        m.phase is Deciding,
    ensures
        ({
            let events = seq![
                MacosEventView::ActivationDecided(auto),
                MacosEventView::ProfileReady(prepared, home),
                MacosEventView::SetupFinalized,
                MacosEventView::ReadinessChecked(true),
                MacosEventView::StateRead(mode, active, active_home),
            ];
            let (after, actions) = go(m, events, now);
            let (end, last) = macos::advanced(after, MacosEventView::DesktopLaunched(launch), now);
            let in_effect = mode == AuthMode::Baijimu && active == Some(m.workspace_id)
                && active_home.components == home.components;
            &&& actions.len() == 5
            &&& actions[0] == MacosActionView::InitializeProfile(m.workspace_id)
            &&& actions[1] == MacosActionView::FinalizeSetup(prepared.profile, auto)
            &&& actions[2] == MacosActionView::CheckReadiness(m.workspace_id)
            &&& actions[3] == MacosActionView::ReadState
            &&& in_effect ==> actions[4] == MacosActionView::LaunchDesktop(home)
            &&& in_effect ==> last is Finish && last->Finish_0.router_credential
                == prepared.credential && end.result.ok && end.phase is Finished
            &&& in_effect ==> (last->Finish_0.completion == SetupCompletionView::Verified
                <==> launch is None)
            &&& in_effect && launch is None ==> end.result.warnings == m.result.warnings
            &&& in_effect && launch is Some ==> last->Finish_0.completion is Warning
                && end.result.warnings == m.result.warnings.push(
                last->Finish_0.completion->Warning_0,
            )
            &&& !in_effect ==> after.result.warnings == m.result.warnings
            &&& !in_effect ==> actions[4] is Finish && actions[4]->Finish_0.router_credential
                == prepared.credential && actions[4]->Finish_0.completion
                == SetupCompletionView::NotRequested && after.result.ok && after.phase is Finished
            &&& after.result.codex_home == home.text
            &&& after.result.llm_credential_created && after.result.config_written
                && after.result.auth_written
        }),
{
    let first = seq![
        MacosEventView::ActivationDecided(auto),
        MacosEventView::ProfileReady(prepared, home),
        MacosEventView::SetupFinalized,
    ];
    let second = seq![
        MacosEventView::ReadinessChecked(true),
        MacosEventView::StateRead(mode, active, active_home),
    ];
    profile_is_put_on_record(m, auto, prepared, home, now);
    let middle = go(m, first, now).0;
    ready_workspace_is_opened(
        middle,
        prepared.credential,
        home,
        mode,
        active,
        active_home,
        launch,
        now,
    );
    go_goes_on(m, first, second, now);
    assert(first + second =~= seq![
        MacosEventView::ActivationDecided(auto),
        MacosEventView::ProfileReady(prepared, home),
        MacosEventView::SetupFinalized,
        MacosEventView::ReadinessChecked(true),
        MacosEventView::StateRead(mode, active, active_home),
    ]);
}

/// The profile is prepared and put on record.
proof fn profile_is_put_on_record(
    m: MacosInstallerView,
    auto: bool,
    prepared: PreparedWorkspaceProfileView,
    home: CodexPathView,
    now: Seq<char>,
)
    requires
        m.phase is Deciding,
    ensures
        ({
            let events = seq![
                MacosEventView::ActivationDecided(auto),
                MacosEventView::ProfileReady(prepared, home),
                MacosEventView::SetupFinalized,
            ];
            let (after, actions) = go(m, events, now);
            &&& after.phase == MacosPhaseView::CheckingReadiness(prepared.credential, home)
            &&& after.workspace_id == m.workspace_id
            &&& after.result.warnings == m.result.warnings
            &&& after.result.codex_home == home.text
            &&& after.result.llm_credential_created && after.result.config_written
                && after.result.auth_written
            &&& actions.len() == 3
            &&& actions[0] == MacosActionView::InitializeProfile(m.workspace_id)
            &&& actions[1] == MacosActionView::FinalizeSetup(prepared.profile, auto)
            &&& actions[2] == MacosActionView::CheckReadiness(m.workspace_id)
        }),
{
    let e0 = Seq::<MacosEventView>::empty();
    let a = MacosEventView::ActivationDecided(auto);
    let b = MacosEventView::ProfileReady(prepared, home);
    let c = MacosEventView::SetupFinalized;
    let e1 = e0.push(a);
    let e2 = e1.push(b);
    one_more(m, e0, a, now);
    assert(go(m, e1, now).0.phase == MacosPhaseView::Initializing(auto));
    one_more(m, e1, b, now);
    assert(go(m, e2, now).0.phase == MacosPhaseView::Finalizing(prepared.credential, home));
    one_more(m, e2, c, now);
    assert(e2.push(c) =~= seq![a, b, c]);
}

/// A ready workspace that is in effect has the desktop application opened on it.
proof fn ready_workspace_is_opened(
    m: MacosInstallerView,
    credential: Seq<char>,
    home: CodexPathView,
    mode: AuthMode,
    active: Option<u64>,
    active_home: CodexPathView,
    launch: Option<Seq<char>>,
    now: Seq<char>,
)
    requires
        m.phase == MacosPhaseView::CheckingReadiness(credential, home),
    ensures
        ({
            let events = seq![
                MacosEventView::ReadinessChecked(true),
                MacosEventView::StateRead(mode, active, active_home),
            ];
            let (after, actions) = go(m, events, now);
            let (end, last) = macos::advanced(after, MacosEventView::DesktopLaunched(launch), now);
            let in_effect = mode == AuthMode::Baijimu && active == Some(m.workspace_id)
                && active_home.components == home.components;
            &&& actions.len() == 2
            &&& actions[0] == MacosActionView::ReadState
            &&& in_effect ==> actions[1] == MacosActionView::LaunchDesktop(home)
            &&& in_effect ==> last is Finish && last->Finish_0.router_credential == credential
                && end.result.ok && end.phase is Finished
            &&& in_effect ==> (last->Finish_0.completion == SetupCompletionView::Verified
                <==> launch is None)
            &&& in_effect && launch is None ==> end.result.warnings == m.result.warnings
            &&& in_effect && launch is Some ==> last->Finish_0.completion is Warning
                && end.result.warnings == m.result.warnings.push(
                last->Finish_0.completion->Warning_0,
            )
            &&& !in_effect ==> after.result.warnings == m.result.warnings
            &&& !in_effect ==> actions[1] is Finish && actions[1]->Finish_0.router_credential
                == credential && actions[1]->Finish_0.completion == SetupCompletionView::NotRequested
                && after.result.ok && after.phase is Finished
            &&& after.result.codex_home == m.result.codex_home
            &&& after.result.llm_credential_created == m.result.llm_credential_created
            &&& after.result.config_written == m.result.config_written
            &&& after.result.auth_written == m.result.auth_written
        }),
{
    let e0 = Seq::<MacosEventView>::empty();
    let d = MacosEventView::ReadinessChecked(true);
    let e = MacosEventView::StateRead(mode, active, active_home);
    let e1 = e0.push(d);
    one_more(m, e0, d, now);
    assert(go(m, e1, now).0.phase == MacosPhaseView::ReadingState(credential, home));
    one_more(m, e1, e, now);
    assert(e1.push(e) =~= seq![d, e]);
}

/// A workspace that is not ready, an application whose path is no directory, and an installing program
/// that failed, said nothing readable or named no application, end the installation with a failure.
pub proof fn obstacles_end_the_installation(
    m: MacosInstallerView,
    version: Seq<char>,
    bundle_id: Seq<char>,
    end: ProcessEndView,
    output: Option<Seq<char>>,
    now: Seq<char>,
)
    ensures
        m.phase is CheckingReadiness ==> macos::advanced(
            m,
            MacosEventView::ReadinessChecked(false),
            now,
        ).1 is Fail,
        m.phase is Inspecting ==> macos::advanced(
            m,
            MacosEventView::AppInspected(false, version, bundle_id),
            now,
        ).1 is Fail,
        m.phase is Installing && !(end.success && output is Some && macos::app_path_valid(
            text::trimmed(output->0),
        )) ==> macos::advanced(m, MacosEventView::AppInstalled(end, output), now).1 is Fail,
{
}

/// A list that cannot be relied on, or holds no package for the machine or more than one, and a system
/// that is not recent enough, end the installation with a failure; only the last is one of the system.
pub proof fn unsuitable_packages_are_not_installed(
    m: MacosInstallerView,
    list: UpstreamManifestV4View,
    asset: UpstreamAssetV4View,
    version: Seq<char>,
    now: Seq<char>,
)
    ensures
        m.phase is ReadingManifest && (manifest::manifest_fault(list) is Some || manifest::selected(
            list.assets,
            "codex_desktop_app"@,
            m.arch,
        ) is Err) ==> ({
            let action = macos::advanced(m, MacosEventView::ManifestRead(list), now).1;
            action is Fail && !action->Fail_0.unsupported_os
        }),
        m.phase == MacosPhaseView::ReadingVersion(asset) && asset.host_requirements is Some
            && system::parsed(version) is Ok && system::parsed(
            asset.host_requirements->0.minimum_os_version,
        ) is Ok && system::older(
            system::parsed(version)->Ok_0,
            system::parsed(asset.host_requirements->0.minimum_os_version)->Ok_0,
        ) ==> ({
            let action = macos::advanced(m, MacosEventView::VersionRead(version), now).1;
            action is Fail && action->Fail_0.unsupported_os
        }),
{
}

/// What is received is counted: the sum is what was there before and what came, and where the last news
/// is a second old it is told in the step of the download.
pub proof fn received_bytes_are_counted(
    m: MacosInstallerView,
    target: DownloadTargetView,
    total: Option<u64>,
    count: u64,
    more: u64,
    waited: u64,
    now: Seq<char>,
)
    requires
        m.phase == MacosPhaseView::Receiving(target, total, count),
        m.well_formed(),
        count + more <= u64::MAX,
    ensures
        ({
            let (after, action) = macos::advanced(m, MacosEventView::Received(more, waited), now);
            let step: int = if target is Manifest {
                1
            } else {
                2
            };
            &&& after.phase == MacosPhaseView::Receiving(target, total, (count + more) as u64)
            &&& action == MacosActionView::Receive(waited >= 1000)
            &&& waited >= 1000 ==> after.status.steps[step].downloaded_bytes == Some(
                (count + more) as u64,
            ) && after.status.steps[step].total_bytes == total && after.status.steps[step].state
                == InstallerStepState::Running && after.saves.len() == 1 && after.saves[0]
                == after.status
            &&& waited < 1000 ==> after.status == m.status && after.saves.len() == 0
        }),
{
}

/// The address of the list is what the source names, without the white space around it, where the source
/// has the known version and the address is one of JSON behind HTTPS.
pub proof fn list_is_kept_behind_https(s: UpstreamArtifactSourceV2View)
    ensures
        ({
            let result = source::address(s);
            let url = text::trimmed(s.manifest_url);
            &&& result is Ok <==> s.schema_version == 2 && url.len() >= 8 && url.take(8)
                == "https://"@ && url.len() >= 5 && url.skip(url.len() - 5) == ".json"@
            &&& result is Ok ==> result->Ok_0 == url
        }),
{
    reveal_strlit("https://");
    reveal_strlit(".json");
}

/// News of a step are news of that step: its state, its detail and its counts become those, at that time,
/// and it is the current one.
pub proof fn news_are_of_the_step(
    status: contract::InstallerStatusView,
    index: usize,
    state: InstallerStepState,
    detail: Seq<char>,
    downloaded: Option<u64>,
    total: Option<u64>,
    now: Seq<char>,
)
    requires
        1 <= index <= status.steps.len(),
    ensures
        ({
            let after = contract::with_step(status, index, state, detail, downloaded, total, now);
            let step = after.steps[index - 1];
            &&& after.current_step == index
            &&& after.updated_at == now
            &&& step.state == state
            &&& step.detail == detail
            &&& step.downloaded_bytes == downloaded
            &&& step.total_bytes == total
            &&& step.index == status.steps[index - 1].index
        }),
{
}

/// Ending the steps that have not begun leaves every other step as it was.
pub proof fn begun_steps_stay(
    status: contract::InstallerStatusView,
    state: InstallerStepState,
    detail: Seq<char>,
    now: Seq<char>,
    i: int,
)
    requires
        0 <= i < status.steps.len(),
    ensures
        ({
            let after = contract::with_pending_settled(status, state, detail, now);
            &&& status.steps[i].state != InstallerStepState::Pending ==> after.steps[i]
                == status.steps[i]
            &&& status.steps[i].state == InstallerStepState::Pending ==> after.steps[i].state == state
                && after.steps[i].detail == detail && after.steps[i].name == status.steps[i].name
                && after.steps[i].index == status.steps[i].index
            &&& after.current_step == status.current_step
            &&& after.updated_at == now
        }),
{
}

/// What is known of an application is what the index says, unless that is nothing, and else what its own
/// list says.
pub proof fn index_comes_first(indexed: Option<Seq<char>>, listed: Option<Seq<char>>)
    ensures
        ({
            let known = macos::app_metadata(indexed, listed);
            let silent = indexed is None || text::blank(indexed->0) || text::trimmed(indexed->0)
                == "(null)"@;
            &&& !silent ==> known == text::trimmed(indexed->0)
            &&& silent && listed is Some ==> known == text::trimmed(listed->0)
            &&& silent && listed is None ==> known.len() == 0
        }),
{
}

/// A failure is told in one line of at most a thousand characters, and stays one of the system.
pub proof fn failures_are_told_in_one_line(failure: SetupFailureView)
    ensures
        macos::told_failure(failure).message == text::compacted(failure.message, 1000),
        macos::told_failure(failure).message.len() <= 1000,
        macos::told_failure(failure).unsupported_os == failure.unsupported_os,
{
}

/// An installation begins with looking for the application: nothing is installed or written yet, nothing
/// went wrong, and both the progress before the first step and that with it running are kept.
pub proof fn installation_begins_with_nothing(
    workspace_id: u64,
    arch: Seq<char>,
    from: UpstreamArtifactSourceV2View,
    model: Seq<char>,
    status_path: Seq<char>,
    result_path: Seq<char>,
    now: Seq<char>,
)
    ensures
        ({
            let m = macos::begun(workspace_id, arch, from, model, status_path, result_path, now);
            &&& m.phase is Locating
            &&& m.workspace_id == workspace_id && m.arch == arch && m.source == from
            &&& !m.result.ok && !m.result.app_installed && !m.result.llm_credential_created
                && !m.result.config_written && !m.result.auth_written
            &&& m.result.workspace_id == workspace_id && m.result.model == model
                && m.result.started_at == now
            &&& m.result.warnings.len() == 0 && m.result.errors.len() == 0
            &&& m.status.status_path == status_path && m.status.result_path == result_path
                && m.status.started_at == now
            &&& m.status.steps.len() == 7 && m.status.current_step == 1
            &&& m.status.steps[0].state == InstallerStepState::Running
            &&& forall|i: int|
                1 <= i < 7 ==> (#[trigger] m.status.steps[i]).state == InstallerStepState::Pending
            &&& m.saves.len() == 2 && m.saves[1] == m.status && m.saves[0].current_step == 0
        }),
{
    assert(contract::macos_steps().len() == 7);
}

/// How much there is to download: of a package what the list says, whatever the server says; and of the
/// list itself what the server says. Nothing of it has come when the download begins, which is told in the
/// step of the download.
pub proof fn packages_have_the_listed_size(
    m: MacosInstallerView,
    target: DownloadTargetView,
    length: Option<u64>,
    now: Seq<char>,
)
    requires
        m.phase == MacosPhaseView::Connecting(target),
        m.well_formed(),
    ensures
        ({
            let (after, action) = macos::advanced(m, MacosEventView::DownloadOpened(length), now);
            let total = match target {
                DownloadTargetView::Manifest => length,
                DownloadTargetView::Archive(asset) => Some(asset.size_bytes),
            };
            let step: int = if target is Manifest {
                1
            } else {
                2
            };
            &&& after.phase == MacosPhaseView::Receiving(target, total, 0)
            &&& action == MacosActionView::Receive(true)
            &&& after.status.steps[step].total_bytes == total
            &&& after.status.steps[step].downloaded_bytes == Some(0u64)
            &&& after.status.steps[step].state == InstallerStepState::Running
        }),
{
}

/// Which paths are those of an application: they begin at the root, and their last piece ends with the
/// ending of applications and is more than that.
pub proof fn applications_are_known_by_their_ending(a: Seq<char>, name: Seq<char>)
    requires
        text_laws::lacks(name, '/'),
        name.len() > 0,
        name != "."@,
    ensures
        macos::app_path_valid(a.push('/') + name) <==> (a.len() == 0 || a[0] == '/') && name.len() > 4
            && name.skip(name.len() - 4) == ".app"@,
{
    reveal(Seq::filter);
    reveal_strlit("/");
    reveal_strlit(".app");
    let path = a.push('/') + name;
    let some = |piece: Seq<char>| manifest::leads(piece);
    text_laws::pieces_follow_separators(a, name, '/');
    let before = text::split_on(a, '/');
    assert(before.push(name).drop_last() =~= before);
    assert(manifest::leading_pieces(path) == before.filter(some).push(name));
    assert("/"@ =~= seq!['/']);
    assert(path.len() >= 1);
    assert(path[0] == if a.len() == 0 {
        '/'
    } else {
        a[0]
    });
    assert(path.take(1) =~= seq![path[0]]);
    assert(path.take(1)[0] == path[0]);
    assert(seq!['/'][0] == '/');
}

} // verus!
