//! How the desktop application is found, stopped and opened.
use crate::desktop::macos;
use crate::desktop::macos::{StopActionView, StopEventView, StopPhaseView};
use crate::desktop::{CommandOutputView, DesktopErrorView, DesktopSwitch};
use crate::system_compatibility as system;
use crate::text;
use crate::text_laws;
use vstd::prelude::*;

verus! {

/// Whether a line tells the number of a process: it begins with that, behind white space perhaps, and
/// does not say that there is none.
pub open spec fn tells_process(line: Seq<char>) -> bool {
    &&& exists|at: int|
        #[trigger] text::stands_at(line, "\"pid\"="@, at) && (forall|i: int|
            0 <= i < at ==> text::white_space(#[trigger] line[i]))
    &&& !(exists|at: int| #[trigger] text::stands_at(line, "[ NULL ]"@, at))
}

/// A line tells of a running application exactly where it tells the number of a process.
pub proof fn running_lines_tell_a_process(line: Seq<char>)
    ensures
        macos::running_line(line) <==> tells_process(line),
{
    reveal_strlit("\"pid\"=");
    let mark = "\"pid\"="@;
    let plain = text::trimmed(line);
    let from = text::trimming_takes_white_space_only(line);
    assert(mark[0] == '"');
    assert(mark[5] == '=');
    assert(mark.len() == 6);
    if text::has_prefix(plain, mark) {
        assert(line.subrange(from, from + 6) =~= plain.take(6));
        assert(text::stands_at(line, mark, from));
    }
    if exists|at: int|
        #[trigger] text::stands_at(line, mark, at) && (forall|i: int|
            0 <= i < at ==> text::white_space(#[trigger] line[i])) {
        let at = choose|at: int|
            #[trigger] text::stands_at(line, mark, at) && (forall|i: int|
                0 <= i < at ==> text::white_space(#[trigger] line[i]));
        assert(line.subrange(at, at + 6)[0] == mark[0]);
        assert(line[at] == '"');
        assert(line.subrange(at, at + 6)[5] == mark[5]);
        assert(line[at + 5] == '=');
        assert(!text::white_space(line[at]));
        assert(!text::white_space(line[at + 5]));
        text::blank_is_white(line);
        assert(plain.len() > 0);
        assert(plain[0] == line[from]);
        assert(at == from) by {
            if at < from {
                assert(text::white_space(line[at]));
            }
            if from < at {
                assert(text::white_space(line[from]));
            }
        }
        assert(at + 6 <= from + plain.len()) by {
            if at + 6 > from + plain.len() {
                assert(text::white_space(line[at + 5]));
            }
        }
        assert(plain.take(6) =~= line.subrange(at, at + 6));
    }
}

/// The application is running where any line of what was written tells a process; one more line matters
/// by what it tells.
pub proof fn any_line_can_tell(a: Seq<char>, line: Seq<char>)
    requires
        text_laws::lacks(line, '\n'),
    ensures
        macos::running(line) <==> tells_process(line),
        macos::running(a.push('\n') + line) <==> macos::running(a) || tells_process(line),
{
    running_lines_tell_a_process(line);
    text_laws::pieces_follow_separators(a, line, '\n');
    let before = text::split_on(a, '\n');
    let after = text::split_on(a.push('\n') + line, '\n');
    assert(after == before.push(line));
    let single = text::split_on(line, '\n');
    assert(single[0] == line);
    if macos::running(a) {
        let i = choose|i: int| 0 <= i < before.len() && macos::running_line(#[trigger] before[i]);
        assert(macos::running_line(after[i]));
    }
    if tells_process(line) {
        assert(macos::running_line(after[before.len() as int]));
        assert(macos::running_line(single[0]));
    }
    if macos::running(a.push('\n') + line) {
        let i = choose|i: int| 0 <= i < after.len() && macos::running_line(#[trigger] after[i]);
        if i < before.len() {
            assert(macos::running_line(before[i]));
        }
    }
    if macos::running(line) {
        let i = choose|i: int| 0 <= i < single.len() && macos::running_line(#[trigger] single[i]);
        assert(i == 0);
    }
}

/// Whether a command told what it was asked for.
pub open spec fn told(output: CommandOutputView) -> bool {
    output.success && exists|i: int|
        0 <= i < output.stdout.len() && !text::white_space(#[trigger] output.stdout[i])
}

/// What a command tells of the application is what it wrote, without the white space around it, where it
/// ended well and wrote anything.
pub proof fn description_is_what_was_written(key: Seq<char>, output: CommandOutputView)
    ensures
        ({
            let result = macos::described(key, output);
            &&& result is Ok <==> told(output)
            &&& result is Ok ==> result->Ok_0 == text::trimmed(output.stdout)
            &&& !output.success ==> result is Err && result->Err_0 is MetadataFailed
            &&& output.success && result is Err ==> result->Err_0
                == DesktopErrorView::MetadataEmpty(key)
        }),
{
    text::blank_is_white(output.stdout);
}

/// How the application is stopped. One that is not installed, or is not running, is stopped as it is.
/// One that is running is told to quit by the bundle that it names itself by, and then it is asked again
/// whether it runs; as soon as it does not, it is stopped, and it counts as one that was running.
pub proof fn running_application_is_told_to_quit(
    path: Seq<char>,
    bundle: CommandOutputView,
    first: Seq<char>,
    quit: CommandOutputView,
    second: Seq<char>,
)
    requires
        told(bundle),
        quit.success,
    ensures
        ({
            let id = text::trimmed(bundle.stdout);
            let (p1, a1) = macos::stopping(
                StopPhaseView::Locating,
                StopEventView::AppLocated(Some(path)),
            );
            let (p2, a2) = macos::stopping(p1, StopEventView::BundleRead(bundle));
            let (p3, a3) = macos::stopping(p2, StopEventView::RunningAsked(first));
            let (p4, a4) = macos::stopping(p3, StopEventView::QuitEnded(quit));
            let (p5, a5) = macos::stopping(p4, StopEventView::RunningAsked(second));
            &&& macos::stopping(StopPhaseView::Locating, StopEventView::AppLocated(None)).1
                == StopActionView::Stopped(DesktopSwitch { was_running: false })
            &&& a1 == StopActionView::ReadBundle(path)
            &&& a2 == StopActionView::AskRunning(id)
            &&& !macos::running(first) ==> a3 == StopActionView::Stopped(
                DesktopSwitch { was_running: false },
            ) && p3 is Ended
            &&& macos::running(first) ==> {
                &&& a3 == StopActionView::Quit("tell application id \""@ + id + "\" to quit"@)
                &&& a4 == StopActionView::AskRunning(id)
                &&& !macos::running(second) ==> a5 == StopActionView::Stopped(
                    DesktopSwitch { was_running: true },
                ) && p5 is Ended
                &&& macos::running(second) ==> a5 == StopActionView::Wait(500) && p5 == p4
            }
        }),
{
    description_is_what_was_written("CFBundleIdentifier"@, bundle);
}

/// While the application is waited for, it is asked again until fifteen seconds have passed; then it is
/// a failure that it still runs.
pub proof fn waiting_ends(bundle_id: Seq<char>, elapsed: u64)
    ensures
        ({
            let (phase, action) = macos::stopping(
                StopPhaseView::Waiting(bundle_id),
                StopEventView::Waited(elapsed),
            );
            &&& elapsed < 15000 ==> phase == StopPhaseView::Waiting(bundle_id) && action
                == StopActionView::AskRunning(bundle_id)
            &&& elapsed >= 15000 ==> phase is Ended && action == StopActionView::Fail(
                DesktopErrorView::StillRunning,
            )
        }),
{
}

/// A bundle that cannot be read, and a command to quit that fails, end it with that failure.
pub proof fn stopping_fails_with_its_commands(
    bundle_id: Seq<char>,
    output: CommandOutputView,
)
    ensures
        !told(output) ==> macos::stopping(
            StopPhaseView::ReadingBundle,
            StopEventView::BundleRead(output),
        ).1 is Fail,
        !output.success ==> macos::stopping(
            StopPhaseView::Quitting(bundle_id),
            StopEventView::QuitEnded(output),
        ).1 is Fail,
{
    description_is_what_was_written("CFBundleIdentifier"@, output);
}

/// Which place of the application counts: the first where it is there, else the second.
pub proof fn first_place_counts(first: bool, second: bool)
    ensures
        macos::installed_at(first, second) is Some <==> first || second,
        first ==> macos::installed_at(first, second) == Some("/Applications/ChatGPT.app"@),
        !first && second ==> macos::installed_at(first, second) == Some("/Applications/Codex.app"@),
{
}

/// When the application may be opened: it is installed, it says which system it needs, and the system is
/// not older. Then nothing but the state directory is passed to it.
pub proof fn application_is_opened_where_it_can_run(
    app: Option<Seq<char>>,
    minimum: CommandOutputView,
    current: Seq<char>,
)
    ensures
        ({
            let fault = macos::compatibility_fault(app, minimum, current);
            let wanted = text::trimmed(minimum.stdout);
            &&& fault is None <==> app is Some && told(minimum) && system::parsed(current) is Ok
                && system::parsed(wanted) is Ok && !system::older(
                system::parsed(current)->Ok_0,
                system::parsed(wanted)->Ok_0,
            )
            &&& app is None ==> fault == Some(DesktopErrorView::NotInstalled)
        }),
{
    description_is_what_was_written("LSMinimumSystemVersion"@, minimum);
}

/// Why a command failed is what it wrote as errors, without the white space around it, or its status where
/// it wrote nothing.
pub proof fn commands_say_why_they_failed(output: CommandOutputView)
    ensures
        ({
            let wrote = exists|i: int|
                0 <= i < output.stderr.len() && !text::white_space(#[trigger] output.stderr[i]);
            &&& wrote ==> macos::reason(output) == text::trimmed(output.stderr)
            &&& !wrote ==> macos::reason(output) == "exit="@ + output.status
        }),
{
    text::blank_is_white(output.stderr);
}

} // verus!
