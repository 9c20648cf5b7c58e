//! Whether the router takes the credential of a workspace.
use crate::duplicate::Duplicate;
use crate::text;
use vstd::prelude::*;

verus! {

/// How often a model is tried.
pub const ROUTER_PROBE_ATTEMPTS: u32 = 3;

/// How long a connection may take, in seconds.
pub const ROUTER_CONNECT_TIMEOUT_SECONDS: u64 = 15;

/// How long a request may take, in seconds.
pub const ROUTER_REQUEST_TIMEOUT_SECONDS: u64 = 60;

/// What the model is asked.
pub const ROUTER_PROBE_INPUT: &'static str = "Reply with exactly OK";

/// What came of asking the router.
#[derive(Debug)]
pub struct RouteVerification {
    /// How often it was asked.
    pub attempts: u32,
    /// The status of the last answer, where there was one.
    pub http_status: Option<u16>,
    /// What went wrong, where it did.
    pub failure: Option<String>,
}

/// The view of `RouteVerification`: the same fields with their texts as characters.
pub struct RouteVerificationView {
    pub attempts: u32,
    pub http_status: Option<u16>,
    pub failure: Option<Seq<char>>,
}

impl DeepView for RouteVerification {
    type V = RouteVerificationView;

    open spec fn deep_view(&self) -> RouteVerificationView {
        RouteVerificationView {
            attempts: self.attempts,
            http_status: self.http_status.deep_view(),
            failure: self.failure.deep_view(),
        }
    }
}

impl Duplicate for RouteVerification {
    fn duplicate(&self) -> (res: Self) {
        RouteVerification {
            attempts: self.attempts,
            http_status: self.http_status.duplicate(),
            failure: self.failure.duplicate(),
        }
    }
}

/// Why a try failed.
#[derive(Debug)]
pub struct ProbeFailure {
    /// What went wrong.
    pub message: String,
    /// The status of the answer, where there was one.
    pub http_status: Option<u16>,
    /// Whether the same model may be tried again.
    pub retryable: bool,
    /// Whether the next model may be tried.
    pub try_next_model: bool,
}

/// The view of `ProbeFailure`: the same fields with their texts as characters.
pub struct ProbeFailureView {
    pub message: Seq<char>,
    pub http_status: Option<u16>,
    pub retryable: bool,
    pub try_next_model: bool,
}

impl DeepView for ProbeFailure {
    type V = ProbeFailureView;

    open spec fn deep_view(&self) -> ProbeFailureView {
        ProbeFailureView {
            message: self.message@,
            http_status: self.http_status.deep_view(),
            retryable: self.retryable,
            try_next_model: self.try_next_model,
        }
    }
}

impl Duplicate for ProbeFailure {
    fn duplicate(&self) -> (res: Self) {
        ProbeFailure {
            message: self.message.duplicate(),
            http_status: self.http_status.duplicate(),
            retryable: self.retryable,
            try_next_model: self.try_next_model,
        }
    }
}

/// What came of one try.
#[derive(Debug)]
pub enum ProbeOutcome {
    /// The router took the request; the status of its answer.
    Passed(u16),
    /// The try failed.
    Failed(ProbeFailure),
}

/// The view of `ProbeOutcome`.
pub enum ProbeOutcomeView {
    Passed(u16),
    Failed(ProbeFailureView),
}

impl DeepView for ProbeOutcome {
    type V = ProbeOutcomeView;

    open spec fn deep_view(&self) -> ProbeOutcomeView {
        match self {
            ProbeOutcome::Passed(status) => ProbeOutcomeView::Passed(*status),
            ProbeOutcome::Failed(failure) => ProbeOutcomeView::Failed(failure.deep_view()),
        }
    }
}

impl RouteVerification {
    /// Whether the router took the credential.
    pub fn passed(&self) -> (res: bool)
        ensures
            res == (self.deep_view().failure is None),
    {
        self.failure.is_none()
    }

    /// How often it was asked.
    pub fn attempts(&self) -> (res: u32)
        ensures
            res == self.deep_view().attempts,
    {
        self.attempts
    }

    /// What went wrong, where it did.
    pub fn failure_message(&self) -> (res: Option<&str>)
        ensures
            match res {
                Some(message) => self.deep_view().failure == Some(message@),
                None => self.deep_view().failure is None,
            },
    {
        match &self.failure {
            Some(message) => Some(message.as_str()),
            None => None,
        }
    }

    /// The router could not be asked at all.
    pub fn without_client(error: &str) -> (res: Self)
        ensures
            res.deep_view() == (RouteVerificationView {
                attempts: 0,
                http_status: None,
                failure: Some("创建百积木路由验证客户端失败："@ + error@),
            }),
    {
        let mut message = "创建百积木路由验证客户端失败：".to_string();
        message.append(error);
        RouteVerification { attempts: 0, http_status: None, failure: Some(message) }
    }
}

/// A text without the slashes at its end.
pub open spec fn without_slashes(s: Seq<char>) -> Seq<char>
    decreases s.len(),
{
    if s.len() > 0 && s.last() == '/' {
        without_slashes(s.drop_last())
    } else {
        s
    }
}

/// The address at which the router is asked.
pub fn responses_endpoint(router_base_url: &str) -> (res: String)
    ensures
        res@ == without_slashes(router_base_url@) + "/responses"@,
{
    let chars = text::chars_of(router_base_url);
    let mut end: usize = chars.len();
    assert(chars@.take(end as int) =~= chars@);
    while end > 0 && chars[end - 1] == '/'
        invariant
            end <= chars.len(),
            chars@ == router_base_url@,
            without_slashes(chars@.take(end as int)) == without_slashes(router_base_url@),
        decreases end,
    {
        assert(chars@.take(end as int).drop_last() =~= chars@.take(end - 1));
        end = end - 1;
    }
    assert(without_slashes(chars@.take(end as int)) == chars@.take(end as int));
    let mut out = text::text_of(&chars, 0, end);
    assert(out@ =~= chars@.take(end as int));
    out.append("/responses");
    out
}

/// Whether the status asks for another try.
pub open spec fn transient_status(status: u16) -> bool {
    status == 408 || status == 425 || status == 429 || 500 <= status <= 599
}

/// Whether the status says that the model is not to be had.
pub open spec fn model_refused(status: u16) -> bool {
    status == 400 || status == 404 || status == 422
}

/// What an answer of the router comes to.
pub open spec fn answer(status: u16) -> ProbeOutcomeView {
    if status == 200 {
        ProbeOutcomeView::Passed(status)
    } else {
        ProbeOutcomeView::Failed(
            ProbeFailureView {
                message: "路由 /responses 健康检查失败：HTTP "@ + text::decimal(status as nat),
                http_status: Some(status),
                retryable: transient_status(status),
                try_next_model: model_refused(status),
            },
        )
    }
}

/// What an answer of the router comes to.
pub fn probe_answered(status: u16) -> (res: ProbeOutcome)
    ensures
        res.deep_view() == answer(status),
{
    if status == 200 {
        return ProbeOutcome::Passed(status);
    }
    let mut message = "路由 /responses 健康检查失败：HTTP ".to_string();
    message.append(text::decimal_text(status as u64).as_str());
    ProbeOutcome::Failed(
        ProbeFailure {
            message,
            http_status: Some(status),
            retryable: status == 408 || status == 425 || status == 429 || (500 <= status && status
                <= 599),
            try_next_model: status == 400 || status == 404 || status == 422,
        },
    )
}

/// What it comes to when the router gave no answer: worth another try where the time ran out, or
/// the connection or the sending failed.
pub fn probe_unanswered(error: &str, timeout: bool, connect: bool, request: bool) -> (res:
    ProbeOutcome)
    ensures
        res.deep_view() == ProbeOutcomeView::Failed(
            (ProbeFailureView {
                message: "路由 /responses 健康检查请求失败："@ + error@,
                http_status: None,
                retryable: timeout || connect || request,
                try_next_model: false,
            }),
        ),
{
    let mut message = "路由 /responses 健康检查请求失败：".to_string();
    message.append(error);
    ProbeOutcome::Failed(
        ProbeFailure {
            message,
            http_status: None,
            retryable: timeout || connect || request,
            try_next_model: false,
        },
    )
}

/// What is to be done next.
#[derive(Debug)]
pub enum RouteProgress {
    /// A model is to be tried.
    Probe {
        /// The place of the model in the list.
        model: usize,
        /// Which try of this model it is, from one.
        attempt: u32,
        /// How many seconds to wait before it.
        pause: Option<u32>,
    },
    /// Nothing; this came of it.
    Finished(RouteVerification),
}

/// The view of `RouteProgress`.
pub enum RouteProgressView {
    Probe { model: nat, attempt: nat, pause: Option<nat> },
    Finished(RouteVerificationView),
}

impl DeepView for RouteProgress {
    type V = RouteProgressView;

    open spec fn deep_view(&self) -> RouteProgressView {
        match self {
            RouteProgress::Probe { model, attempt, pause } => RouteProgressView::Probe {
                model: *model as nat,
                attempt: *attempt as nat,
                pause: match pause {
                    Some(seconds) => Some(*seconds as nat),
                    None => None,
                },
            },
            RouteProgress::Finished(verification) => RouteProgressView::Finished(
                verification.deep_view(),
            ),
        }
    }
}

/// The end after a failure.
pub open spec fn failed_after(attempts: nat, failure: ProbeFailureView) -> RouteProgressView {
    RouteProgressView::Finished(
        RouteVerificationView {
            attempts: attempts as u32,
            http_status: failure.http_status,
            failure: Some(failure.message),
        },
    )
}

/// What follows the outcome of the given try of the given model, the last of `attempts` tries.
pub open spec fn after_try(
    models: nat,
    max_attempts: nat,
    model: nat,
    attempt: nat,
    attempts: nat,
    outcome: ProbeOutcomeView,
) -> RouteProgressView {
    match outcome {
        ProbeOutcomeView::Passed(status) => RouteProgressView::Finished(
            RouteVerificationView {
                attempts: attempts as u32,
                http_status: Some(status),
                failure: None,
            },
        ),
        ProbeOutcomeView::Failed(failure) => if failure.retryable && attempt < max_attempts {
            RouteProgressView::Probe { model, attempt: attempt + 1, pause: Some(attempt) }
        } else if failure.try_next_model && model + 1 < models {
            RouteProgressView::Probe { model: model + 1, attempt: 1, pause: None }
        } else {
            failed_after(attempts, failure)
        },
    }
}

/// What is to be done after these outcomes.
pub open spec fn progress(
    models: nat,
    max_attempts: nat,
    outcomes: Seq<ProbeOutcomeView>,
) -> RouteProgressView
    decreases outcomes.len(),
{
    if outcomes.len() == 0 {
        RouteProgressView::Probe { model: 0, attempt: 1, pause: None }
    } else {
        match progress(models, max_attempts, outcomes.drop_last()) {
            RouteProgressView::Finished(verification) => RouteProgressView::Finished(verification),
            RouteProgressView::Probe { model, attempt, .. } => after_try(
                models,
                max_attempts,
                model,
                attempt,
                outcomes.len(),
                outcomes.last(),
            ),
        }
    }
}

/// Outcomes after the end change nothing.
proof fn finished_stays(models: nat, max_attempts: nat, outcomes: Seq<ProbeOutcomeView>, count: int)
    requires
        0 <= count <= outcomes.len(),
        progress(models, max_attempts, outcomes.take(count)) is Finished,
    ensures
        progress(models, max_attempts, outcomes) == progress(
            models,
            max_attempts,
            outcomes.take(count),
        ),
    decreases outcomes.len(),
{
    if count == outcomes.len() {
        assert(outcomes.take(count) =~= outcomes);
    } else {
        assert(outcomes.drop_last().take(count) =~= outcomes.take(count));
        finished_stays(models, max_attempts, outcomes.drop_last(), count);
    }
}

/// Decides from the outcomes so far what is to be done next: each model of the list is tried until
/// the router takes it, a failure is final, or it was tried as often as allowed.
pub fn verify_models_with(
    models: &Vec<String>,
    max_attempts: u32,
    outcomes: &Vec<ProbeOutcome>,
) -> (res: RouteProgress)
    requires
        models.len() > 0,
        max_attempts > 0,
        outcomes.len() <= u32::MAX,
    ensures
        res.deep_view() == progress(models@.len(), max_attempts as nat, outcomes.deep_view()),
{
    let ghost all = outcomes.deep_view();
    let ghost count = models@.len();
    let mut model: usize = 0;
    let mut attempt: u32 = 1;
    let mut pause: Option<u32> = None;
    let mut i: usize = 0;
    while i < outcomes.len()
        invariant
            i <= outcomes.len(),
            outcomes.len() <= u32::MAX,
            all == outcomes.deep_view(),
            count == models@.len(),
            model < models.len(),
            1 <= attempt <= max_attempts,
            progress(count, max_attempts as nat, all.take(i as int)) == (RouteProgress::Probe {
                model,
                attempt,
                pause,
            }).deep_view(),
        decreases outcomes.len() - i,
    {
        assert(all.take(i + 1).drop_last() =~= all.take(i as int));
        assert(all.take(i + 1).last() == outcomes@[i as int].deep_view());
        match &outcomes[i] {
            ProbeOutcome::Passed(status) => {
                proof {
                    finished_stays(count, max_attempts as nat, all, i + 1);
                }
                return RouteProgress::Finished(
                    RouteVerification {
                        attempts: (i + 1) as u32,
                        http_status: Some(*status),
                        failure: None,
                    },
                );
            },
            ProbeOutcome::Failed(failure) => {
                if failure.retryable && attempt < max_attempts {
                    pause = Some(attempt);
                    attempt = attempt + 1;
                } else if failure.try_next_model && model + 1 < models.len() {
                    model = model + 1;
                    attempt = 1;
                    pause = None;
                } else {
                    proof {
                        finished_stays(count, max_attempts as nat, all, i + 1);
                    }
                    return RouteProgress::Finished(
                        RouteVerification {
                            attempts: (i + 1) as u32,
                            http_status: failure.http_status,
                            failure: Some(failure.message.clone()),
                        },
                    );
                }
            },
        }
        i = i + 1;
    }
    assert(all.take(i as int) =~= all);
    RouteProgress::Probe { model, attempt, pause }
}

/// Every model is tried at most as often as allowed, models come in order, and a repeated try
/// waits as many seconds as there were tries of the model. So there is an end after at most as
/// many tries as the models have together.
pub proof fn tries_are_bounded(models: nat, max_attempts: nat, outcomes: Seq<ProbeOutcomeView>)
    requires
        models > 0,
        max_attempts > 0,
        outcomes.len() <= u32::MAX,
    ensures
        match progress(models, max_attempts, outcomes) {
            RouteProgressView::Probe { model, attempt, pause } => model < models && 1 <= attempt
                <= max_attempts && outcomes.len() < model * max_attempts + attempt
                && outcomes.len() < models * max_attempts && pause == (if attempt == 1 {
                None
            } else {
                Some((attempt - 1) as nat)
            }),
            RouteProgressView::Finished(verification) => 1 <= verification.attempts
                <= outcomes.len() && verification.attempts <= models * max_attempts,
        },
    decreases outcomes.len(),
{
    if outcomes.len() > 0 {
        tries_are_bounded(models, max_attempts, outcomes.drop_last());
    }
    match progress(models, max_attempts, outcomes) {
        RouteProgressView::Probe { model, attempt, .. } => {
            if outcomes.len() > 0 {
                match progress(models, max_attempts, outcomes.drop_last()) {
                    RouteProgressView::Probe { model: before, attempt: tried, .. } => {
                        assert((before + 1) * max_attempts == before * max_attempts + max_attempts)
                            by (nonlinear_arith);
                    },
                    RouteProgressView::Finished(_) => {},
                }
            }
            assert(model * max_attempts + max_attempts <= models * max_attempts) by (nonlinear_arith)
                requires
                    model + 1 <= models,
            ;
        },
        RouteProgressView::Finished(_) => {},
    }
}

/// The end tells of the last try: the router passed exactly if that try did, and a failure is the
/// failure of that try.
pub proof fn the_last_try_decides(models: nat, max_attempts: nat, outcomes: Seq<ProbeOutcomeView>)
    requires
        models > 0,
        max_attempts > 0,
        outcomes.len() <= u32::MAX,
        progress(models, max_attempts, outcomes) is Finished,
    ensures
        ({
            let end = progress(models, max_attempts, outcomes)->Finished_0;
            let last = outcomes[end.attempts - 1];
            &&& 1 <= end.attempts <= outcomes.len()
            &&& match last {
                ProbeOutcomeView::Passed(status) => end.failure is None && end.http_status == Some(
                    status,
                ),
                ProbeOutcomeView::Failed(failure) => end.failure == Some(failure.message)
                    && end.http_status == failure.http_status,
            }
            &&& forall|i: int|
                0 <= i < end.attempts - 1 ==> (#[trigger] outcomes[i]) is Failed
        }),
    decreases outcomes.len(),
{
    if progress(models, max_attempts, outcomes.drop_last()) is Finished {
        the_last_try_decides(models, max_attempts, outcomes.drop_last());
        let end = progress(models, max_attempts, outcomes)->Finished_0;
        assert(outcomes.drop_last()[end.attempts - 1] == outcomes[end.attempts - 1]);
        assert forall|i: int| 0 <= i < end.attempts - 1 implies (#[trigger] outcomes[i]) is Failed by {
            assert(outcomes.drop_last()[i] == outcomes[i]);
        }
    } else {
        unfinished_tries_failed(models, max_attempts, outcomes.drop_last());
        assert forall|i: int| 0 <= i < outcomes.len() - 1 implies (#[trigger] outcomes[i]) is Failed by {
            assert(outcomes.drop_last()[i] == outcomes[i]);
        }
    }
}

/// While there is no end, every try failed.
proof fn unfinished_tries_failed(models: nat, max_attempts: nat, outcomes: Seq<ProbeOutcomeView>)
    requires
        progress(models, max_attempts, outcomes) is Probe,
    ensures
        forall|i: int| 0 <= i < outcomes.len() ==> (#[trigger] outcomes[i]) is Failed,
    decreases outcomes.len(),
{
    if outcomes.len() > 0 {
        unfinished_tries_failed(models, max_attempts, outcomes.drop_last());
        assert forall|i: int| 0 <= i < outcomes.len() implies (#[trigger] outcomes[i]) is Failed by {
            if i < outcomes.len() - 1 {
                assert(outcomes.drop_last()[i] == outcomes[i]);
            }
        }
    }
}

/// A failure that allows neither another try nor another model is final: it is not tried again.
pub proof fn final_failures_are_not_retried(
    models: nat,
    max_attempts: nat,
    outcomes: Seq<ProbeOutcomeView>,
    failure: ProbeFailureView,
)
    requires
        progress(models, max_attempts, outcomes) is Probe,
        !failure.retryable,
        !failure.try_next_model,
    ensures
        progress(models, max_attempts, outcomes.push(ProbeOutcomeView::Failed(failure)))
            == failed_after(outcomes.len() + 1, failure),
{
    let longer = outcomes.push(ProbeOutcomeView::Failed(failure));
    assert(longer.drop_last() =~= outcomes);
}

} // verus!
