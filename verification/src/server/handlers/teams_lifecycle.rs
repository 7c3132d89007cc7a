//! Notifications of the chat platform about the subscription itself.

use crate::ms_graph_api::subscription::secret_check;
use crate::ms_graph_api::subscription::SecretError;
use crate::ms_graph_api::subscription::Subscription;
use crate::server::handlers::helpers::ValidationTokenQuery;
use crate::server::handlers::teams::echoed;
use crate::text::str_eq;
use vstd::prelude::*;

verus! {

/// The body of a lifecycle request.
pub struct Request {
    pub value: Option<Vec<RequestValue>>,
}

/// One lifecycle notification.
pub struct RequestValue {
    pub lifecycle_event: String,
    pub client_state: String,
    pub subscription_id: String,
}

/// What a lifecycle notification makes the service do.
pub enum LifecycleAction {
    /// Extend the subscription with this id.
    Renew { subscription_id: String },
    /// Register anew, with a new secret; a subscription in the way may be
    /// taken over.
    Reinitialize,
    Nothing,
}

/// The status of an answer that carries a validation token.
pub const STATUS_OK: u16 = 200;

/// The status of an answer that carries none.
pub const STATUS_ACCEPTED: u16 = 202;

/// What the event named `event` calls for.
pub open spec fn lifecycle_action(event: Seq<char>, subscription_id: Seq<char>, action: LifecycleAction) -> bool {
    if event == "reauthorizationRequired"@ {
        action matches LifecycleAction::Renew { subscription_id: id } && id@ == subscription_id
    } else if event == "subscriptionRemoved"@ {
        action is Reinitialize
    } else {
        action is Nothing
    }
}

/// What a lifecycle request answers: the validation token with the status
/// for success where the platform sent one, and an empty acceptance
/// otherwise.
pub fn handler(query: &ValidationTokenQuery) -> (r: (u16, String))
    ensures
        r.0 == (if query.validation_token is Some {
            STATUS_OK
        } else {
            STATUS_ACCEPTED
        }),
        r.1@ == echoed(*query),
{
    match &query.validation_token {
        Some(token) => (STATUS_OK, token.clone()),
        None => (STATUS_ACCEPTED, String::new()),
    }
}

/// Decides what a lifecycle notification calls for. A notification that
/// does not carry the secret of the subscription is rejected. A call for
/// reauthorization extends the subscription; the removal of the
/// subscription has it registered anew; anything else is passed over.
pub fn parse_handler(subscription: &Subscription, value: &RequestValue) -> (r: Result<
    LifecycleAction,
    SecretError,
>)
    ensures
        match secret_check(subscription.subscription_secret, value.client_state@) {
            Err(e) => r == Err::<LifecycleAction, SecretError>(e),
            Ok(_) => r is Ok && lifecycle_action(
                value.lifecycle_event@,
                value.subscription_id@,
                r->Ok_0,
            ),
        },
{
    match subscription.check_client_secret(value.client_state.as_str()) {
        Ok(_) => {},
        Err(e) => { return Err(e); },
    }
    if str_eq(value.lifecycle_event.as_str(), "reauthorizationRequired") {
        Ok(LifecycleAction::Renew { subscription_id: value.subscription_id.clone() })
    } else if str_eq(value.lifecycle_event.as_str(), "subscriptionRemoved") {
        Ok(LifecycleAction::Reinitialize)
    } else {
        Ok(LifecycleAction::Nothing)
    }
}

/// Why the handling of a lifecycle request stopped.
#[derive(Clone, Copy, Debug, PartialEq, Eq, Structural)]
pub enum LifecycleError {
    /// A notification does not carry the secret of the subscription.
    AuthenticityFailure(SecretError),
    /// What a notification called for could not be done.
    UpstreamRequestFailure,
    /// The handling was handed an outcome it had not asked for.
    OutOfOrder,
}

/// What the handling of a lifecycle request asks for next, or its end.
pub enum LifecycleStep {
    /// Do this, then report the outcome.
    Perform(LifecycleAction),
    /// Every notification is dealt with.
    Done,
    Abort(LifecycleError),
}

/// The outcome of what a lifecycle request asked for.
#[derive(Clone, Copy, Debug, PartialEq, Eq, Structural)]
pub enum LifecycleOutcome {
    Performed,
    /// It could not be done.
    Failed,
}

/// The handling of a whole lifecycle request: the notifications that are
/// still to come, in their order, and whether the handling is over.
pub struct LifecycleFlow {
    pub pending: Vec<RequestValue>,
    pub finished: bool,
}

/// The request is over and nothing is to come.
pub open spec fn lifecycle_ended(flow: LifecycleFlow) -> bool {
    flow.finished && flow.pending@.len() == 0
}

/// Going on to the notifications that are still to come. They are taken in
/// their order and checked against the secret that the subscription has at
/// that time. One that fails the check ends the request: those after it are
/// not looked at. One that calls for nothing is passed over. The first one
/// that calls for something has it asked for. Where none is left the request
/// is done.
pub open spec fn lifecycle_moving_on(
    pending: Seq<RequestValue>,
    secret: u128,
    post: LifecycleFlow,
    step: LifecycleStep,
) -> bool
    decreases pending.len(),
{
    if pending.len() == 0 {
        lifecycle_ended(post) && step is Done
    } else {
        match secret_check(secret, pending[0].client_state@) {
            Err(e) => lifecycle_ended(post) && step == LifecycleStep::Abort(
                LifecycleError::AuthenticityFailure(e),
            ),
            Ok(_) => if pending[0].lifecycle_event@ == "reauthorizationRequired"@
                || pending[0].lifecycle_event@ == "subscriptionRemoved"@ {
                &&& !post.finished
                &&& post.pending@ == pending.skip(1)
                &&& step matches LifecycleStep::Perform(action)
                &&& lifecycle_action(
                    pending[0].lifecycle_event@,
                    pending[0].subscription_id@,
                    action,
                )
            } else {
                lifecycle_moving_on(pending.skip(1), secret, post, step)
            },
        }
    }
}

/// The notifications of a request, a request without a list having none.
pub open spec fn values_of(request: Request) -> Seq<RequestValue> {
    match request.value {
        Some(values) => values@,
        None => Seq::empty(),
    }
}

/// What the handling of a lifecycle request does with an outcome. Once it
/// is over it hands out a failure and stays over. Where what was asked for
/// failed, the request is over and the notifications still to come are
/// dropped. Where it was done, the handling goes on to those still to come.
pub open spec fn lifecycle_step(
    pre: LifecycleFlow,
    outcome: LifecycleOutcome,
    secret: u128,
    post: LifecycleFlow,
    step: LifecycleStep,
) -> bool {
    if pre.finished {
        lifecycle_ended(post) && step == LifecycleStep::Abort(LifecycleError::OutOfOrder)
    } else if outcome is Failed {
        lifecycle_ended(post) && step == LifecycleStep::Abort(
            LifecycleError::UpstreamRequestFailure,
        )
    } else {
        lifecycle_moving_on(pre.pending@, secret, post, step)
    }
}

impl LifecycleFlow {
    /// Goes on to the notifications that are still to come.
    fn move_on(pending: Vec<RequestValue>, subscription: &Subscription) -> (r: (
        LifecycleFlow,
        LifecycleStep,
    ))
        ensures
            lifecycle_moving_on(pending@, subscription.subscription_secret, r.0, r.1),
    {
        let ghost secret = subscription.subscription_secret;
        let mut rest = pending;
        while rest.len() > 0
            invariant
                secret == subscription.subscription_secret,
                forall|post: LifecycleFlow, step: LifecycleStep|
                    #[trigger] lifecycle_moving_on(rest@, secret, post, step)
                        ==> lifecycle_moving_on(pending@, secret, post, step),
            decreases rest.len(),
        {
            let ghost before = rest@;
            let value = rest.remove(0);
            assert(rest@ =~= before.skip(1));
            match parse_handler(subscription, &value) {
                Err(e) => {
                    let ended = LifecycleFlow { pending: Vec::new(), finished: true };
                    let step = LifecycleStep::Abort(LifecycleError::AuthenticityFailure(e));
                    assert(lifecycle_moving_on(before, secret, ended, step));
                    return (ended, step);
                },
                Ok(LifecycleAction::Nothing) => {
                    assert forall|post: LifecycleFlow, step: LifecycleStep| #[trigger]
                        lifecycle_moving_on(rest@, secret, post, step) implies lifecycle_moving_on(
                        pending@,
                        secret,
                        post,
                        step,
                    ) by {
                        assert(lifecycle_moving_on(before, secret, post, step));
                    }
                },
                Ok(action) => {
                    let asked = LifecycleFlow { pending: rest, finished: false };
                    let step = LifecycleStep::Perform(action);
                    assert(lifecycle_moving_on(before, secret, asked, step));
                    return (asked, step);
                },
            }
        }
        let done = LifecycleFlow { pending: Vec::new(), finished: true };
        assert(lifecycle_moving_on(rest@, secret, done, LifecycleStep::Done));
        (done, LifecycleStep::Done)
    }

    /// Begins the handling of a lifecycle request with its first
    /// notification.
    pub fn start(request: Request, subscription: &Subscription) -> (r: (
        LifecycleFlow,
        LifecycleStep,
    ))
        ensures
            lifecycle_moving_on(values_of(request), subscription.subscription_secret, r.0, r.1),
    {
        match request.value {
            Some(values) => LifecycleFlow::move_on(values, subscription),
            None => LifecycleFlow::move_on(Vec::new(), subscription),
        }
    }

    /// Takes the outcome of what was asked for last, and asks for the next
    /// thing. `subscription` is the subscription as it stands now: after a
    /// new registration the notifications still to come are checked against
    /// the new secret.
    pub fn step(self, outcome: LifecycleOutcome, subscription: &Subscription) -> (r: (
        LifecycleFlow,
        LifecycleStep,
    ))
        ensures
            lifecycle_step(self, outcome, subscription.subscription_secret, r.0, r.1),
    {
        if self.finished {
            return (
                LifecycleFlow { pending: Vec::new(), finished: true },
                LifecycleStep::Abort(LifecycleError::OutOfOrder),
            );
        }
        match outcome {
            LifecycleOutcome::Failed => (
                LifecycleFlow { pending: Vec::new(), finished: true },
                LifecycleStep::Abort(LifecycleError::UpstreamRequestFailure),
            ),
            LifecycleOutcome::Performed => LifecycleFlow::move_on(self.pending, subscription),
        }
    }
}

/// A failed notification ends the request. Whenever the handling of a
/// lifecycle request hands out a failure or its end, nothing is to come;
/// once it is over it stays over; and a notification that fails the secret
/// check is answered with that failure, whatever comes after it.
pub proof fn lemma_failed_lifecycle_notification_ends_request(
    pending: Seq<RequestValue>,
    secret: u128,
    post: LifecycleFlow,
    step: LifecycleStep,
)
    requires
        lifecycle_moving_on(pending, secret, post, step),
    ensures
        step is Abort || step is Done ==> lifecycle_ended(post),
        step is Perform ==> !post.finished,
        pending.len() > 0 && secret_check(secret, pending[0].client_state@) is Err ==> step
            is Abort && lifecycle_ended(post),
    decreases pending.len(),
{
    if pending.len() > 0 && secret_check(secret, pending[0].client_state@) is Ok && !(
    pending[0].lifecycle_event@ == "reauthorizationRequired"@ || pending[0].lifecycle_event@
        == "subscriptionRemoved"@) {
        lemma_failed_lifecycle_notification_ends_request(pending.skip(1), secret, post, step);
    }
}

} // verus!
