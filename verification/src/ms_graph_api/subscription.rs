//! The standing subscription to the channel's messages: the secret that
//! authenticates its notifications, and the steps of registering it.

use crate::ident::parse_uuid;
use crate::ident::print_uuid;
use crate::ident::random_uuid;
use crate::ident::uuid_parsed;
use crate::ident::uuid_text;
use crate::ms_graph_api::cfg::Config;
use vstd::prelude::*;
use vstd::string::*;

verus! {

/// The registered subscription and the secret that every notification of
/// it carries. Both are zero until a registration has succeeded.
pub struct Subscription {
    pub subscription_id: u128,
    pub subscription_secret: u128,
}

/// Why a notification is not accepted as coming from the subscription.
#[derive(Clone, Copy, Debug, PartialEq, Eq, Structural)]
pub enum SecretError {
    /// The client state is not an identifier.
    Malformed,
    /// The client state is not the secret of the subscription.
    Mismatch,
}

/// Why a registration ended without a subscription.
#[derive(Clone, Copy, Debug, PartialEq, Eq, Structural)]
pub enum InitError {
    /// The platform refused the registration although the subscription in
    /// the way had been dealt with, or no takeover was allowed.
    StillForbidden,
    /// The platform rejected the registration for another reason.
    Rejected,
    /// The platform accepted the registration but its answer held no id.
    MissingId,
    /// A call to the platform failed.
    UpstreamRequestFailure,
    /// The flow was handed an outcome it had not asked for.
    OutOfOrder,
}

/// What is sent to register the subscription.
pub struct NewSubscriptionRequest {
    pub change_type: String,
    pub notification_url: String,
    pub lifecycle_notification_url: String,
    pub resource: String,
    /// When the subscription runs out, in seconds on the caller's clock; kept
    /// in a wider type than the clock, so that no reading leads out of it.
    pub expiration_date_time: u128,
    pub client_state: u128,
}

/// The mail that asks the user to consent.
pub struct ConsentMail {
    pub to: String,
    pub subject: String,
    pub content: String,
    /// The state that the consent address carries: the secret in its
    /// printed form.
    pub state: String,
}

/// A subscription is registered, and renewed, for this many seconds.
pub const SUBSCRIPTION_WINDOW: u64 = 10800;

/// The subject line of the consent mail.
pub const CONSENT_SUBJECT: &'static str = "Jira vs Teams authentication link";

/// Whether `candidate` is the secret `secret`.
pub open spec fn secret_check(secret: u128, candidate: Seq<char>) -> Result<(), SecretError> {
    match uuid_parsed(candidate) {
        None => Err(SecretError::Malformed),
        Some(value) => if value == secret {
            Ok(())
        } else {
            Err(SecretError::Mismatch)
        },
    }
}

/// The resource that the subscription watches.
pub open spec fn channel_messages(group_id: Seq<char>, channel_id: Seq<char>) -> Seq<char> {
    "/teams/"@ + group_id + "/channels/"@ + channel_id + "/messages"@
}

/// The address at which the user consents; `state` comes back with the
/// authorization code.
pub open spec fn consent_url(config: Config, state: Seq<char>) -> Seq<char> {
    "https://login.microsoftonline.com/"@ + config.tenant_id@
        + "/oauth2/v2.0/authorize?client_id="@ + config.client_id@
        + "&scope=offline_access%20ChannelMessage.Send%20ChannelMessage.ReadWrite&response_type=code&redirect_uri="@
        + config.oauth_url@ + "&response_mode=form_post&state="@ + state
}

/// The body of the consent mail for the address `url`.
pub open spec fn consent_content(url: Seq<char>) -> Seq<char> {
    "Please, go to email below<BR><a href=\""@ + url + "\">"@ + url + "</a>"@
}

impl NewSubscriptionRequest {
    /// The request registers for new and changed messages of the configured
    /// channel, for one window from `now`, with `secret` as client state.
    pub open spec fn is_for(self, config: Config, secret: u128, now: u64) -> bool {
        &&& self.change_type@ == "created,updated"@
        &&& self.notification_url@ == config.notification_url@
        &&& self.lifecycle_notification_url@ == config.lifecycle_notification_url@
        &&& self.resource@ == channel_messages(config.group_id@, config.channel_id@)
        &&& self.expiration_date_time == now + SUBSCRIPTION_WINDOW
        &&& self.client_state == secret
    }

    /// The registration request for the configured channel.
    pub fn new(config: &Config, secret: u128, now: u64) -> (r: NewSubscriptionRequest)
        ensures
            r.is_for(*config, secret, now),
    {
        let mut resource = "/teams/".to_string();
        resource.append(config.group_id.as_str());
        resource.append("/channels/");
        resource.append(config.channel_id.as_str());
        resource.append("/messages");
        NewSubscriptionRequest {
            change_type: "created,updated".to_string(),
            notification_url: config.notification_url.clone(),
            lifecycle_notification_url: config.lifecycle_notification_url.clone(),
            resource,
            expiration_date_time: now as u128 + SUBSCRIPTION_WINDOW as u128,
            client_state: secret,
        }
    }
}

impl ConsentMail {
    /// The mail goes to the configured user and holds the consent address
    /// whose state is the printed form of `secret`.
    pub open spec fn is_for(self, config: Config, secret: u128) -> bool {
        &&& self.to@ == config.teams_user@
        &&& self.subject@ == CONSENT_SUBJECT@
        &&& self.content@ == consent_content(consent_url(config, uuid_text(secret)))
        &&& self.state@ == uuid_text(secret)
    }

    /// The consent mail for a subscription whose secret is `secret`. The
    /// state that the mail carries is accepted as that secret when it comes
    /// back with the authorization code.
    pub fn new(config: &Config, secret: u128) -> (r: ConsentMail)
        ensures
            r.is_for(*config, secret),
            secret_check(secret, r.state@) is Ok,
    {
        let state = print_uuid(secret);
        let mut url = "https://login.microsoftonline.com/".to_string();
        url.append(config.tenant_id.as_str());
        url.append("/oauth2/v2.0/authorize?client_id=");
        url.append(config.client_id.as_str());
        url.append(
            "&scope=offline_access%20ChannelMessage.Send%20ChannelMessage.ReadWrite&response_type=code&redirect_uri=",
        );
        url.append(config.oauth_url.as_str());
        url.append("&response_mode=form_post&state=");
        url.append(state.as_str());
        let mut content = "Please, go to email below<BR><a href=\"".to_string();
        content.append(url.as_str());
        content.append("\">");
        content.append(url.as_str());
        content.append("</a>");
        ConsentMail {
            to: config.teams_user.clone(),
            subject: CONSENT_SUBJECT.to_string(),
            content,
            state,
        }
    }
}

impl Subscription {
    /// No subscription yet.
    pub fn new() -> (r: Self)
        ensures
            r.subscription_id == 0,
            r.subscription_secret == 0,
    {
        Subscription { subscription_id: 0, subscription_secret: 0 }
    }

    /// Accepts `secret` exactly when it reads as an identifier and that
    /// identifier is the secret of the subscription.
    pub fn check_client_secret(&self, secret: &str) -> (r: Result<(), SecretError>)
        ensures
            r == secret_check(self.subscription_secret, secret@),
    {
        match parse_uuid(secret) {
            Ok(value) => if value == self.subscription_secret {
                Ok(())
            } else {
                Err(SecretError::Mismatch)
            },
            Err(_) => Err(SecretError::Malformed),
        }
    }

    /// The time until which a renewal at `now` extends the subscription.
    /// The secret stays as it is.
    pub fn renew(&self, now: u64) -> (r: u128)
        ensures
            r == now + SUBSCRIPTION_WINDOW,
    {
        now as u128 + SUBSCRIPTION_WINDOW as u128
    }
}

/// Where a registration stands. Each state but the last waits for the
/// outcome of the action that was handed out on entering it.
#[derive(Clone, Copy, Debug, PartialEq, Eq, Structural)]
pub enum SubscriptionInit {
    /// The registration was sent; `repeated` tells that no takeover is
    /// allowed any more.
    Registering { secret: u128, repeated: bool },
    /// The subscriptions in force are being listed.
    Listing { secret: u128 },
    /// The subscription in the way is being deleted.
    Removing { secret: u128 },
    /// The consent mail is being sent.
    Notifying,
    Finished,
}

/// The outcome of the outside work that a registration asked for.
pub enum InitEvent {
    /// The platform accepted the registration; the id is `None` where its
    /// answer could not be read.
    Accepted(Option<u128>),
    /// The platform answered that the registration is forbidden.
    Forbidden,
    /// The platform rejected the registration for another reason.
    Rejected,
    /// The ids of the subscriptions in force; `None` where the platform
    /// did not answer with a list.
    Listed(Option<Vec<u128>>),
    Removed,
    MailSent,
    /// The work could not be done.
    Failed,
}

/// The outside work that a registration asks for next, or its end.
pub enum InitAction {
    Register(NewSubscriptionRequest),
    /// List the subscriptions in force.
    ListActive,
    /// Delete the subscription with this id.
    Remove(u128),
    SendMail(ConsentMail),
    Done,
    Abort(InitError),
}

/// Leaving for a registration with `secret`.
pub open spec fn registering(
    config: Config,
    secret: u128,
    repeated: bool,
    now: u64,
    post: SubscriptionInit,
    action: InitAction,
) -> bool {
    &&& post == (SubscriptionInit::Registering { secret, repeated })
    &&& action matches InitAction::Register(request)
    &&& request.is_for(config, secret, now)
}

/// What a registration does with an outcome: the state it moves to, the
/// action it hands out, and what becomes of the stored subscription.
pub open spec fn init_step(
    pre: SubscriptionInit,
    event: InitEvent,
    config: Config,
    now: u64,
    before: Subscription,
    post: SubscriptionInit,
    action: InitAction,
    after: Subscription,
) -> bool {
    match (pre, event) {
        (SubscriptionInit::Registering { secret, repeated }, InitEvent::Accepted(id)) => match id {
            Some(id) => {
                &&& after == (Subscription { subscription_id: id, subscription_secret: secret })
                &&& post == SubscriptionInit::Notifying
                &&& action matches InitAction::SendMail(mail)
                &&& mail.is_for(config, secret)
            },
            None => {
                &&& after == before
                &&& post == SubscriptionInit::Finished
                &&& action == InitAction::Abort(InitError::MissingId)
            },
        },
        (SubscriptionInit::Registering { secret, repeated }, InitEvent::Forbidden) => {
            &&& after == before
            &&& if repeated {
                post == SubscriptionInit::Finished && action == InitAction::Abort(
                    InitError::StillForbidden,
                )
            } else {
                post == (SubscriptionInit::Listing { secret }) && action == InitAction::ListActive
            }
        },
        (SubscriptionInit::Registering { .. }, InitEvent::Rejected) => {
            &&& after == before
            &&& post == SubscriptionInit::Finished
            &&& action == InitAction::Abort(InitError::Rejected)
        },
        (SubscriptionInit::Listing { secret }, InitEvent::Listed(active)) => {
            &&& after == before
            &&& if active is Some && active->0@.len() > 0 {
                post == (SubscriptionInit::Removing { secret }) && action == InitAction::Remove(
                    active->0@[0],
                )
            } else {
                registering(config, secret, true, now, post, action)
            }
        },
        (SubscriptionInit::Removing { secret }, InitEvent::Removed) => {
            &&& after == before
            &&& registering(config, secret, true, now, post, action)
        },
        (SubscriptionInit::Notifying, InitEvent::MailSent) => {
            &&& after == before
            &&& post == SubscriptionInit::Finished
            &&& action == InitAction::Done
        },
        (SubscriptionInit::Finished, _) => {
            &&& after == before
            &&& post == SubscriptionInit::Finished
            &&& action == InitAction::Abort(InitError::OutOfOrder)
        },
        (_, InitEvent::Failed) => {
            &&& after == before
            &&& post == SubscriptionInit::Finished
            &&& action == InitAction::Abort(InitError::UpstreamRequestFailure)
        },
        _ => {
            &&& after == before
            &&& post == SubscriptionInit::Finished
            &&& action == InitAction::Abort(InitError::OutOfOrder)
        },
    }
}

impl SubscriptionInit {
    /// Takes the outcome of the action that was handed out last, and hands
    /// out the next one. The stored subscription changes only when a
    /// registration has succeeded, that is, when the platform has accepted
    /// it and its answer held an id: id and secret are then replaced
    /// together. In every other case both stay as they were. A forbidden
    /// registration is answered once by removing the first subscription in
    /// force and registering again.
    pub fn step(
        self,
        event: InitEvent,
        config: &Config,
        now: u64,
        subscription: &mut Subscription,
    ) -> (r: (SubscriptionInit, InitAction))
        ensures
            init_step(
                self,
                event,
                *config,
                now,
                *old(subscription),
                r.0,
                r.1,
                *final(subscription),
            ),
    {
        match (self, event) {
            (
                SubscriptionInit::Registering { secret, repeated },
                InitEvent::Accepted(id),
            ) => {
                match id {
                    Some(id) => {
                        subscription.subscription_secret = secret;
                        subscription.subscription_id = id;
                        (
                            SubscriptionInit::Notifying,
                            InitAction::SendMail(ConsentMail::new(config, secret)),
                        )
                    },
                    None => (SubscriptionInit::Finished, InitAction::Abort(InitError::MissingId)),
                }
            },
            (SubscriptionInit::Registering { secret, repeated }, InitEvent::Forbidden) => {
                if repeated {
                    (SubscriptionInit::Finished, InitAction::Abort(InitError::StillForbidden))
                } else {
                    (SubscriptionInit::Listing { secret }, InitAction::ListActive)
                }
            },
            (SubscriptionInit::Registering { .. }, InitEvent::Rejected) => {
                (SubscriptionInit::Finished, InitAction::Abort(InitError::Rejected))
            },
            (SubscriptionInit::Listing { secret }, InitEvent::Listed(active)) => {
                match active {
                    Some(ids) => {
                        if ids.len() > 0 {
                            (SubscriptionInit::Removing { secret }, InitAction::Remove(ids[0]))
                        } else {
                            Subscription::init_with(config, secret, true, now)
                        }
                    },
                    None => Subscription::init_with(config, secret, true, now),
                }
            },
            (SubscriptionInit::Removing { secret }, InitEvent::Removed) => {
                Subscription::init_with(config, secret, true, now)
            },
            (SubscriptionInit::Notifying, InitEvent::MailSent) => {
                (SubscriptionInit::Finished, InitAction::Done)
            },
            (SubscriptionInit::Finished, _) => (
                SubscriptionInit::Finished,
                InitAction::Abort(InitError::OutOfOrder),
            ),
            (_, InitEvent::Failed) => (
                SubscriptionInit::Finished,
                InitAction::Abort(InitError::UpstreamRequestFailure),
            ),
            _ => (SubscriptionInit::Finished, InitAction::Abort(InitError::OutOfOrder)),
        }
    }
}

impl Subscription {
    /// Begins a registration with the secret `secret`. With `repeated`
    /// set, a subscription that is in the way is not taken over.
    pub fn init_with(config: &Config, secret: u128, repeated: bool, now: u64) -> (r: (
        SubscriptionInit,
        InitAction,
    ))
        ensures
            registering(*config, secret, repeated, now, r.0, r.1),
    {
        (
            SubscriptionInit::Registering { secret, repeated },
            InitAction::Register(NewSubscriptionRequest::new(config, secret, now)),
        )
    }

    /// Begins a registration with a freshly drawn secret.
    pub fn init(config: &Config, repeated: bool, now: u64) -> (r: (SubscriptionInit, InitAction))
        ensures
            exists|secret: u128| registering(*config, secret, repeated, now, r.0, r.1),
    {
        let secret = random_uuid();
        Subscription::init_with(config, secret, repeated, now)
    }
}

/// How many outcomes a registration can still take, at most, before it is
/// over.
pub open spec fn init_steps_left(state: SubscriptionInit) -> nat {
    match state {
        SubscriptionInit::Registering { repeated, .. } => if repeated {
            2
        } else {
            5
        },
        SubscriptionInit::Listing { .. } => 4,
        SubscriptionInit::Removing { .. } => 3,
        SubscriptionInit::Notifying => 1,
        SubscriptionInit::Finished => 0,
    }
}

/// Every registration ends: each outcome brings a registration that is not
/// over strictly nearer to its end. In particular a takeover is never
/// followed by another. And id and secret change together or not at all:
/// the stored subscription is either left as it was, or holds the id that
/// an accepted registration answered with and the secret of that
/// registration.
pub proof fn lemma_registration_ends(
    pre: SubscriptionInit,
    event: InitEvent,
    config: Config,
    now: u64,
    before: Subscription,
    post: SubscriptionInit,
    action: InitAction,
    after: Subscription,
)
    requires
        init_step(pre, event, config, now, before, post, action, after),
    ensures
        !(pre is Finished) ==> init_steps_left(post) < init_steps_left(pre),
        pre is Finished ==> post is Finished,
        post is Finished <==> (action is Done || action is Abort),
        after == before || (pre matches SubscriptionInit::Registering { secret, .. }
            && event matches InitEvent::Accepted(Some(id)) && after == (Subscription {
            subscription_id: id,
            subscription_secret: secret,
        })),
{
}

} // verus!
