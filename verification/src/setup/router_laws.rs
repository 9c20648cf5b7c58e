//! How the router is tried.
use crate::setup::router;
use crate::setup::router::{ProbeOutcomeView, RouteProgressView, RouteVerificationView};
use vstd::prelude::*;

verus! {

/// What each answer is worth: only success passes; a server that is busy or broken is tried again, a
/// request that it cannot serve leads to the next model, and everything else is final. No answer is
/// worth both.
pub proof fn answers_are_classed(status: u16)
    ensures
        ({
            let outcome = router::answer(status);
            &&& outcome == ProbeOutcomeView::Passed(status) <==> status == 200
            &&& outcome is Failed <==> status != 200
            &&& outcome matches ProbeOutcomeView::Failed(failure) ==> failure.http_status == Some(status)
            &&& outcome matches ProbeOutcomeView::Failed(failure) ==> !(failure.retryable
                && failure.try_next_model)
            &&& outcome matches ProbeOutcomeView::Failed(failure) ==> (failure.retryable <==> 500
                <= status < 600 || status == 429 || status == 408 || status == 425)
            &&& outcome matches ProbeOutcomeView::Failed(failure) ==> (failure.try_next_model
                <==> status == 400 || status == 404 || status == 422)
        }),
{
}

/// What follows a try that is to be made: success ends it; a failure that may pass is tried again with
/// the same model, after a pause of as many seconds as there were tries of it, as long as there are
/// tries left; else one that the model causes leads to the first try of the next model, if there is
/// one; and else it is the end.
pub proof fn each_try_decides_the_next(
    models: nat,
    max_attempts: nat,
    outcomes: Seq<ProbeOutcomeView>,
    last: ProbeOutcomeView,
)
    requires
        router::progress(models, max_attempts, outcomes) is Probe,
    ensures
        ({
            let model = router::progress(models, max_attempts, outcomes)->model;
            let attempt = router::progress(models, max_attempts, outcomes)->attempt;
            let next = router::progress(models, max_attempts, outcomes.push(last));
            &&& last matches ProbeOutcomeView::Passed(status) ==> next == RouteProgressView::Finished(
                (RouteVerificationView {
                    attempts: (outcomes.len() + 1) as u32,
                    http_status: Some(status),
                    failure: None,
                }),
            )
            &&& last matches ProbeOutcomeView::Failed(failure) ==> ({
                &&& failure.retryable && attempt < max_attempts ==> next == (
                RouteProgressView::Probe { model, attempt: attempt + 1, pause: Some(attempt) })
                &&& !(failure.retryable && attempt < max_attempts) && failure.try_next_model && model
                    + 1 < models ==> next == (RouteProgressView::Probe {
                    model: model + 1,
                    attempt: 1,
                    pause: None,
                })
                &&& !(failure.retryable && attempt < max_attempts) && !(failure.try_next_model && model
                    + 1 < models) ==> next == RouteProgressView::Finished(
                    (RouteVerificationView {
                        attempts: (outcomes.len() + 1) as u32,
                        http_status: failure.http_status,
                        failure: Some(failure.message),
                    }),
                )
            })
        }),
{
    assert(outcomes.push(last).drop_last() =~= outcomes);
}

/// The first model is tried first, without a pause. While its failures may pass, it is tried as often as
/// allowed, and then it is the end.
pub proof fn busy_routers_are_tried_as_often_as_allowed(
    models: nat,
    max_attempts: nat,
    outcomes: Seq<ProbeOutcomeView>,
)
    requires
        models > 0,
        max_attempts > 0,
        outcomes.len() <= max_attempts,
        forall|i: int|
            0 <= i < outcomes.len() ==> (#[trigger] outcomes[i] matches ProbeOutcomeView::Failed(
                failure,
            ) && failure.retryable && !failure.try_next_model),
    ensures
        ({
            let next = router::progress(models, max_attempts, outcomes);
            &&& outcomes.len() == 0 ==> next == (RouteProgressView::Probe {
                model: 0,
                attempt: 1,
                pause: None,
            })
            &&& 0 < outcomes.len() < max_attempts ==> next == (RouteProgressView::Probe {
                model: 0,
                attempt: outcomes.len() + 1,
                pause: Some(outcomes.len()),
            })
            &&& outcomes.len() == max_attempts ==> next is Finished
                && next->Finished_0.failure is Some
        }),
    decreases outcomes.len(),
{
    if outcomes.len() > 0 {
        let front = outcomes.drop_last();
        assert forall|i: int| 0 <= i < front.len() implies (
        #[trigger] front[i] matches ProbeOutcomeView::Failed(failure) && failure.retryable
            && !failure.try_next_model) by {
            assert(front[i] == outcomes[i]);
        }
        busy_routers_are_tried_as_often_as_allowed(models, max_attempts, front);
        assert(outcomes[outcomes.len() - 1] == outcomes.last());
    }
}

/// Models that are not to be had are passed over one by one, in their order, and the last one's failure
/// is the end.
pub proof fn refused_models_are_passed_over(
    models: nat,
    max_attempts: nat,
    outcomes: Seq<ProbeOutcomeView>,
)
    requires
        models > 0,
        max_attempts > 0,
        outcomes.len() <= models,
        forall|i: int|
            0 <= i < outcomes.len() ==> (#[trigger] outcomes[i] matches ProbeOutcomeView::Failed(
                failure,
            ) && !failure.retryable && failure.try_next_model),
    ensures
        ({
            let next = router::progress(models, max_attempts, outcomes);
            &&& outcomes.len() < models ==> next == (RouteProgressView::Probe {
                model: outcomes.len(),
                attempt: 1,
                pause: None,
            })
            &&& outcomes.len() == models ==> next is Finished && next->Finished_0.failure is Some
        }),
    decreases outcomes.len(),
{
    if outcomes.len() > 0 {
        let front = outcomes.drop_last();
        assert forall|i: int| 0 <= i < front.len() implies (
        #[trigger] front[i] matches ProbeOutcomeView::Failed(failure) && !failure.retryable
            && failure.try_next_model) by {
            assert(front[i] == outcomes[i]);
        }
        refused_models_are_passed_over(models, max_attempts, front);
        assert(outcomes[outcomes.len() - 1] == outcomes.last());
    }
}

/// An address loses the slashes at its end and nothing else.
pub proof fn only_trailing_slashes_go(s: Seq<char>)
    ensures
        ({
            let kept = router::without_slashes(s);
            &&& kept.len() <= s.len()
            &&& kept == s.take(kept.len() as int)
            &&& kept.len() > 0 ==> kept.last() != '/'
            &&& forall|i: int| kept.len() <= i < s.len() ==> #[trigger] s[i] == '/'
        }),
    decreases s.len(),
{
    if s.len() > 0 && s.last() == '/' {
        let front = s.drop_last();
        only_trailing_slashes_go(front);
        let kept = router::without_slashes(s);
        assert(front.take(kept.len() as int) =~= s.take(kept.len() as int));
        assert forall|i: int| kept.len() <= i < s.len() implies #[trigger] s[i] == '/' by {
            if i < front.len() {
                assert(front[i] == s[i]);
            }
        }
    } else {
        assert(s.take(s.len() as int) =~= s);
    }
}

} // verus!
