//! When a setup begins, what its record says, and what becomes of it.
use crate::setup;
use crate::setup::{
    SetupCompletionView, SetupFailureView, SetupStartError, SetupStartView, SetupStatusView,
};
use crate::system_compatibility::ERROR_CODE_UNSUPPORTED_OS_VERSION;
use crate::text;
use vstd::prelude::*;

verus! {

/// When a setup begins. Without a number of a workspace it never does. While one is running, only the
/// wish for the same workspace is answered, with the record as it is. Otherwise the record stays only
/// where nothing is forced, it is that of a setup of the same workspace that went well, and the
/// workspace is still ready; in every other case the setup begins, for that workspace.
pub proof fn setup_begins_unless_it_is_done(
    status: SetupStatusView,
    workspace_id: u64,
    force: bool,
    ready: bool,
    process: u32,
    now: u64,
)
    ensures
        ({
            let outcome = setup::start_outcome(status, workspace_id, force, ready, process, now);
            let running = status.status == "running"@;
            let same = status.workspace_id == Some(workspace_id);
            let done = !force && status.status == "succeeded"@ && same && ready;
            &&& workspace_id == 0 ==> outcome == Err::<SetupStartView, SetupStartError>(
                SetupStartError::InvalidWorkspace,
            )
            &&& workspace_id > 0 && running && !same ==> outcome == Err::<
                SetupStartView,
                SetupStartError,
            >(SetupStartError::AnotherRunning)
            &&& workspace_id > 0 && (running && same || !running && done) ==> outcome == Ok::<
                SetupStartView,
                SetupStartError,
            >(SetupStartView::Unchanged(status))
            &&& workspace_id > 0 && !running && !done ==> (outcome matches Ok(
                SetupStartView::Begun(begun),
            ) && begun.workspace_id == Some(workspace_id) && begun.status == "running"@)
        }),
{
}

/// What the record of a setup that begins says: that it is running, for which workspace, since now,
/// with this version; nothing of an earlier attempt, but for how often it was interrupted, which a
/// forced one forgets.
pub proof fn begun_setup_starts_afresh(
    status: SetupStatusView,
    workspace_id: u64,
    force: bool,
    ready: bool,
    process: u32,
    now: u64,
)
    ensures
        setup::start_outcome(status, workspace_id, force, ready, process, now) matches Ok(
            SetupStartView::Begun(begun),
        ) ==> {
            &&& begun.schema_version == setup::SETUP_STATUS_SCHEMA_VERSION
            &&& begun.connector_version == Some(setup::CONNECTOR_VERSION@)
            &&& begun.status == "running"@
            &&& begun.workspace_id == Some(workspace_id)
            &&& begun.error is None
            &&& begun.last_error is None
            &&& begun.error_code is None
            &&& !begun.retryable
            &&& begun.automatic_retry_count == if force {
                0
            } else {
                status.automatic_retry_count
            }
            &&& begun.started_at_epoch_seconds == Some(now)
            &&& begun.completed_at_epoch_seconds is None
            &&& begun.installer_status is None
            &&& begun.attempt_id is Some
        },
{
}

/// Whether the workspace is still ready matters for a start exactly where it is asked for.
pub proof fn readiness_matters_where_it_is_asked(
    status: SetupStatusView,
    workspace_id: u64,
    force: bool,
    process: u32,
    now: u64,
)
    ensures
        (workspace_id != 0 && setup::finished_before(status, workspace_id, force)) <==> setup::start_outcome(
            status,
            workspace_id,
            force,
            true,
            process,
            now,
        ) != setup::start_outcome(status, workspace_id, force, false, process, now),
{
    setup::states_differ();
}

/// Attempts of different processes, or of one process at different times, have different names.
pub proof fn attempts_have_different_names(
    process: u32,
    now: u64,
    other_process: u32,
    other_now: u64,
)
    requires
        setup::attempt_name(process, now) == setup::attempt_name(other_process, other_now),
    ensures
        process == other_process,
        now == other_now,
{
    reveal_strlit("-");
    let version = setup::CONNECTOR_VERSION@ + "-"@;
    let a = text::decimal(process as nat);
    let b = text::decimal(other_process as nat);
    let x = text::decimal(now as nat);
    let y = text::decimal(other_now as nat);
    text::decimal_denotes(process as nat);
    text::decimal_denotes(other_process as nat);
    text::decimal_denotes(now as nat);
    text::decimal_denotes(other_now as nat);
    let s = a + "-"@ + x;
    let t = b + "-"@ + y;
    assert(setup::attempt_name(process, now) =~= version + s);
    assert(setup::attempt_name(other_process, other_now) =~= version + t);
    assert(s =~= (version + s).skip(version.len() as int));
    assert(t =~= (version + t).skip(version.len() as int));
    assert(s == t);
    assert(s[a.len() as int] == '-');
    assert(t[b.len() as int] == '-');
    if a.len() < b.len() {
        assert(t[a.len() as int] == b[a.len() as int]);
        assert(text::digit(b[a.len() as int]));
    }
    if b.len() < a.len() {
        assert(s[b.len() as int] == a[b.len() as int]);
        assert(text::digit(a[b.len() as int]));
    }
    assert(a =~= s.take(a.len() as int));
    assert(b =~= t.take(b.len() as int));
    assert(x =~= s.skip((a.len() + 1) as int));
    assert(y =~= t.skip((b.len() + 1) as int));
}

/// What the record of an attempt that ended says: well or badly, since when and until now, of which
/// attempt and workspace; an error exactly where it failed, shortened to one line; and after a failure
/// whether another attempt makes sense.
pub proof fn ended_setup_says_how(
    attempt: SetupStatusView,
    completion: SetupCompletionView,
    failure: SetupFailureView,
    now: u64,
)
    ensures
        ({
            let good = setup::succeeded_status(attempt, completion, now);
            let bad = setup::failed_status(attempt, failure, now);
            let error = text::compacted(failure.message, setup::ERROR_LIMIT as nat);
            &&& good.status == "succeeded"@
            &&& bad.status == "failed"@
            &&& good.attempt_id == attempt.attempt_id && bad.attempt_id == attempt.attempt_id
            &&& good.workspace_id == attempt.workspace_id && bad.workspace_id
                == attempt.workspace_id
            &&& good.started_at_epoch_seconds == attempt.started_at_epoch_seconds
                && bad.started_at_epoch_seconds == attempt.started_at_epoch_seconds
            &&& good.automatic_retry_count == attempt.automatic_retry_count
                && bad.automatic_retry_count == attempt.automatic_retry_count
            &&& good.completed_at_epoch_seconds == Some(now) && bad.completed_at_epoch_seconds
                == Some(now)
            &&& good.connector_version == Some(setup::CONNECTOR_VERSION@) && bad.connector_version
                == Some(setup::CONNECTOR_VERSION@)
            &&& good.schema_version == setup::SETUP_STATUS_SCHEMA_VERSION && bad.schema_version
                == setup::SETUP_STATUS_SCHEMA_VERSION
            &&& good.error is None && good.last_error is None && good.error_code is None
            &&& !good.retryable
            &&& bad.error == Some(error) && bad.last_error == Some(error)
            &&& bad.retryable <==> !failure.unsupported_os && !text::holds(
                failure.message,
                ERROR_CODE_UNSUPPORTED_OS_VERSION@,
            )
            &&& bad.error_code == Some(
                if bad.retryable {
                    setup::ERROR_CODE_FAILED@
                } else {
                    ERROR_CODE_UNSUPPORTED_OS_VERSION@
                },
            )
            &&& completion matches SetupCompletionView::Warning(warning) ==> good.message == warning
        }),
{
}

/// What a new process makes of the record that was kept: one of a running attempt is interrupted, and
/// that is counted; one that failed under another version is to be tried again; any other stays as
/// it is. Which attempt it was, for which workspace and since when is kept, and so is the error.
pub proof fn kept_record_is_taken_over(status: SetupStatusView, now: u64)
    ensures
        ({
            let after = setup::recovered(status, now);
            let running = status.status == "running"@;
            let elsewhere = status.status == "failed"@ && status.connector_version != Some(
                setup::CONNECTOR_VERSION@,
            );
            &&& setup::needs_recovery(status) <==> running || elsewhere
            &&& !running && !elsewhere ==> after == status
            &&& running ==> after.status == "interrupted"@ && after.automatic_retry_count == (if status.automatic_retry_count
                == u32::MAX {
                u32::MAX as int
            } else {
                status.automatic_retry_count + 1
            }) && after.completed_at_epoch_seconds == Some(now) && after.error_code == Some(
                setup::ERROR_CODE_INTERRUPTED@,
            )
            &&& !running && elsewhere ==> after.status == "needs_retry"@
                && after.automatic_retry_count == status.automatic_retry_count
                && after.completed_at_epoch_seconds == status.completed_at_epoch_seconds
                && after.error_code == Some(setup::ERROR_CODE_RETRY_AFTER_UPGRADE@)
            &&& running || elsewhere ==> after.retryable && after.error is None && after.last_error
                == (if status.error is Some {
                status.error
            } else {
                status.last_error
            }) && after.schema_version == setup::SETUP_STATUS_SCHEMA_VERSION
            &&& after.attempt_id == status.attempt_id
            &&& after.workspace_id == status.workspace_id
            &&& after.connector_version == status.connector_version
            &&& after.started_at_epoch_seconds == status.started_at_epoch_seconds
            &&& after.installer_status == status.installer_status
        }),
{
}

/// An interrupted setup, one to be tried again, and one that failed begin again when they are wished
/// for, whatever was ready.
pub proof fn unfinished_setups_begin_again(
    status: SetupStatusView,
    workspace_id: u64,
    force: bool,
    ready: bool,
    process: u32,
    now: u64,
    later: u64,
)
    requires
        workspace_id > 0,
        status.status != "succeeded"@,
    ensures
        setup::start_outcome(
            setup::recovered(status, now),
            workspace_id,
            force,
            ready,
            process,
            later,
        ) matches Ok(SetupStartView::Begun(_)),
{
    setup::states_differ();
    reveal_strlit("succeeded");
    reveal_strlit("needs_retry");
    reveal_strlit("interrupted");
    assert("succeeded"@[0] == 's');
    assert("needs_retry"@[0] == 'n');
    assert("interrupted"@[0] == 'i');
}

/// The progress of an installation is shown with the record of an attempt that runs or ended, and
/// not with one that never began or is to be tried again.
pub proof fn progress_is_shown_with_an_attempt(status: Seq<char>)
    ensures
        setup::shows_installer(status) <==> status == "running"@ || status == "failed"@ || status
            == "interrupted"@ || status == "succeeded"@,
        !setup::shows_installer("pending"@),
        !setup::shows_installer("needs_retry"@),
{
    setup::states_differ();
    reveal_strlit("pending");
    reveal_strlit("needs_retry");
    reveal_strlit("running");
    reveal_strlit("failed");
    reveal_strlit("interrupted");
    reveal_strlit("succeeded");
    assert("pending"@[0] == 'p');
    assert("needs_retry"@[0] == 'n');
    assert("running"@[0] == 'r');
    assert("failed"@[0] == 'f');
    assert("interrupted"@[0] == 'i');
    assert("succeeded"@[0] == 's');
}

/// How a setup ends after the desktop application was to be opened: it was verified exactly where
/// there was no error, and an error is told, shortened, as a warning.
pub proof fn launch_error_is_a_warning(error: Option<Seq<char>>)
    ensures
        error is None <==> setup::after_launch(error) == SetupCompletionView::Verified,
        error matches Some(why) ==> (setup::after_launch(error) matches SetupCompletionView::Warning(
            warning,
        ) && ({
            let told = text::compacted(why, setup::ERROR_LIMIT as nat);
            told.len() <= warning.len() && warning.skip(warning.len() - told.len()) == told
        })),
{
    if let Some(why) = error {
        let told = text::compacted(why, setup::ERROR_LIMIT as nat);
        let warning = setup::after_launch(error)->Warning_0;
        assert(warning.skip(warning.len() - told.len()) =~= told);
    }
}

} // verus!
