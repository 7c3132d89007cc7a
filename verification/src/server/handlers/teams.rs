//! Notifications of the chat platform about messages and replies, and what
//! each of them makes the ticket side do.

use crate::jira_api::cfg::Config;
use crate::jira_api::comment::CommentSyncRequest;
use crate::jira_api::issue::TicketSyncRequest;
use crate::ms_graph_api::message::MsGraphMessage;
use crate::ms_graph_api::subscription::secret_check;
use crate::ms_graph_api::subscription::SecretError;
use crate::ms_graph_api::subscription::Subscription;
use crate::server::handlers::helpers::get_message_id_and_reply_id;
use crate::server::handlers::helpers::message_and_reply_id;
use crate::server::handlers::helpers::ValidationTokenQuery;
use crate::text::before_first;
use crate::text::prefix_before;
use crate::text::str_eq;
use vstd::prelude::*;
use vstd::string::*;

verus! {

/// The body of a notification request.
pub struct Request {
    pub value: Option<Vec<RequestValue>>,
}

/// One notification: the secret of the subscription it belongs to, and the
/// path of the message or reply it is about.
pub struct RequestValue {
    pub client_state: String,
    pub resource: String,
}

/// Why the handling of a notification stopped.
#[derive(Clone, Copy, Debug, PartialEq, Eq, Structural)]
pub enum NotificationError {
    /// The notification does not carry the secret of the subscription.
    AuthenticityFailure(SecretError),
    /// The matching engine refused one of the patterns.
    Pattern,
    /// A call to one of the two systems, or a synchronisation, failed.
    UpstreamRequestFailure,
    /// The flow was handed an outcome it had not asked for.
    OutOfOrder,
}

/// What a notification is about.
pub enum NotificationKind {
    /// A new or changed top-level message.
    MessageCreated { message_id: String },
    /// A new or changed reply to a message.
    ReplyCreated { message_id: String, reply_id: String },
    /// Nothing that is synchronised: the path names no message.
    Unrelated,
}

/// Where the handling of one notification stands.
pub enum NotificationFlow {
    AwaitingMessage { resource: String, message_id: String, reply: Option<String> },
    AwaitingSender {
        resource: String,
        message_id: String,
        reply: Option<String>,
        message: MsGraphMessage,
    },
    AwaitingParent {
        message_id: String,
        reply_id: String,
        message: MsGraphMessage,
        sender: String,
    },
    AwaitingTicket { message_id: String },
    AwaitingComment,
    AwaitingAcknowledgement,
    Finished,
}

/// The outcome of the outside work that a flow asked for.
pub enum NotificationEvent {
    /// The message or reply at the path that was asked for.
    MessageFetched(MsGraphMessage),
    /// The e-mail address of the sender.
    SenderResolved(String),
    /// The ticket of the message, and whether it was there before.
    TicketSynced { key: String, existed: bool },
    CommentSynced,
    Acknowledged,
    /// The work could not be done.
    Failed,
}

/// The outside work that a flow asks for next, or its end.
pub enum NotificationAction {
    /// Read the message or reply at this path.
    FetchMessage(String),
    /// Look up the e-mail address of the user with this id.
    ResolveSender(u128),
    SyncTicket(TicketSyncRequest),
    SyncComment(CommentSyncRequest),
    /// Reply to the message with this text.
    Reply { message_id: String, body: String },
    /// The notification is dealt with.
    Done,
    Abort(NotificationError),
}

/// The reply that tells a thread where its new ticket is.
pub open spec fn ticket_link(base_url: Seq<char>, key: Seq<char>) -> Seq<char> {
    "<a href=\""@ + base_url + "/browse/"@ + key + "\">"@ + base_url + "/browse/"@ + key
        + "</a>"@
}

/// A string that may be missing, a missing one counting as empty.
pub open spec fn or_empty(text: Option<String>) -> Seq<char> {
    match text {
        Some(t) => t@,
        None => Seq::empty(),
    }
}

/// What a request answers: the validation token where the platform sent
/// one, and nothing otherwise.
pub open spec fn echoed(query: ValidationTokenQuery) -> Seq<char> {
    or_empty(query.validation_token)
}

/// The flow starts by authenticating the notification and reading the
/// message it is about.
pub open spec fn notification_start(
    value: RequestValue,
    secret: u128,
    post: NotificationFlow,
    action: NotificationAction,
) -> bool {
    match secret_check(secret, value.client_state@) {
        Err(e) => post is Finished && action == NotificationAction::Abort(
            NotificationError::AuthenticityFailure(e),
        ),
        Ok(_) => match message_and_reply_id(value.resource@) {
            None => post is Finished && action == NotificationAction::Abort(
                NotificationError::Pattern,
            ),
            Some((None, _)) => post is Finished && action == NotificationAction::Done,
            Some((Some(id), reply)) => {
                &&& post matches NotificationFlow::AwaitingMessage {
                    resource,
                    message_id,
                    reply: reply_id,
                }
                &&& resource == value.resource
                &&& message_id@ == id
                &&& reply_id.deep_view() == reply
                &&& action matches NotificationAction::FetchMessage(path)
                &&& path@ == value.resource@
            },
        },
    }
}

/// Going on with a message whose sender has the address `sender`: the
/// integration's own messages are passed over, a reply has its parent
/// message read, and a message is handed to ticket synchronisation.
pub open spec fn sender_known(
    resource: String,
    message_id: String,
    reply_id: Option<String>,
    message: MsGraphMessage,
    sender: Seq<char>,
    teams_user: Seq<char>,
    post: NotificationFlow,
    action: NotificationAction,
) -> bool {
    if sender == teams_user {
        post is Finished && action == NotificationAction::Done
    } else {
        match reply_id {
            Some(reply_id) => {
                &&& post matches NotificationFlow::AwaitingParent {
                    message_id: m,
                    reply_id: r,
                    message: kept,
                    sender: s,
                }
                &&& m == message_id
                &&& r == reply_id
                &&& kept == message
                &&& s@ == sender
                &&& action matches NotificationAction::FetchMessage(path)
                &&& path@ == before_first(resource@, "/replies"@)
            },
            None => {
                &&& post matches NotificationFlow::AwaitingTicket { message_id: kept }
                &&& kept@ == message_id@
                &&& action matches NotificationAction::SyncTicket(request)
                &&& request.summary@ == or_empty(message.subject)
                &&& request.description == message.body.content
                &&& request.reporter_email@ == sender
                &&& request.attachments == message.attachments
                &&& request.message_url@ == or_empty(message.web_url)
                &&& request.message_id == message_id
            },
        }
    }
}

/// What the flow does with an outcome: the state it moves to and the action
/// it hands out.
pub open spec fn notification_step(
    pre: NotificationFlow,
    event: NotificationEvent,
    teams_user: Seq<char>,
    config: Config,
    post: NotificationFlow,
    action: NotificationAction,
) -> bool {
    match (pre, event) {
        (
            NotificationFlow::AwaitingMessage { resource, message_id, reply: reply_id },
            NotificationEvent::MessageFetched(message),
        ) => match message.from.user {
            Some(user) => post == (NotificationFlow::AwaitingSender {
                resource,
                message_id,
                reply: reply_id,
                message,
            }) && action == NotificationAction::ResolveSender(user.id),
            None => sender_known(
                resource,
                message_id,
                reply_id,
                message,
                Seq::empty(),
                teams_user,
                post,
                action,
            ),
        },
        (
            NotificationFlow::AwaitingSender { resource, message_id, reply: reply_id, message },
            NotificationEvent::SenderResolved(sender),
        ) => sender_known(
            resource,
            message_id,
            reply_id,
            message,
            sender@,
            teams_user,
            post,
            action,
        ),
        (
            NotificationFlow::AwaitingParent { message_id, reply_id, message, sender },
            NotificationEvent::MessageFetched(parent),
        ) => {
            &&& post is AwaitingComment
            &&& action matches NotificationAction::SyncComment(request)
            &&& request.description == message.body.content
            &&& request.author_email == sender
            &&& request.attachments == message.attachments
            &&& request.message_url@ == or_empty(parent.web_url)
            &&& request.reply_id == reply_id
            &&& request.message_id == message_id
        },
        (
            NotificationFlow::AwaitingTicket { message_id },
            NotificationEvent::TicketSynced { key, existed },
        ) => if existed {
            post is Finished && action == NotificationAction::Done
        } else {
            &&& post is AwaitingAcknowledgement
            &&& action matches NotificationAction::Reply { message_id: m, body }
            &&& m == message_id
            &&& body@ == ticket_link(config.base_url@, key@)
        },
        (NotificationFlow::AwaitingComment, NotificationEvent::CommentSynced) => post
            is Finished && action == NotificationAction::Done,
        (NotificationFlow::AwaitingAcknowledgement, NotificationEvent::Acknowledged) => post
            is Finished && action == NotificationAction::Done,
        (NotificationFlow::Finished, _) => post is Finished && action
            == NotificationAction::Abort(NotificationError::OutOfOrder),
        (_, NotificationEvent::Failed) => post is Finished && action == NotificationAction::Abort(
            NotificationError::UpstreamRequestFailure,
        ),
        _ => post is Finished && action == NotificationAction::Abort(
            NotificationError::OutOfOrder,
        ),
    }
}

/// What a notification request answers.
pub fn handler(query: &ValidationTokenQuery) -> (r: String)
    ensures
        r@ == echoed(*query),
{
    match &query.validation_token {
        Some(token) => token.clone(),
        None => String::new(),
    }
}

/// What a notification for `resource` is about: a path that names a reply
/// is a reply, any other path that names a message is a message.
pub fn classify(resource: &str) -> (r: Result<NotificationKind, NotificationError>)
    ensures
        match message_and_reply_id(resource@) {
            None => r == Err::<NotificationKind, NotificationError>(NotificationError::Pattern),
            Some((None, _)) => r matches Ok(NotificationKind::Unrelated),
            Some((Some(id), None)) => r matches Ok(NotificationKind::MessageCreated { message_id })
                && message_id@ == id,
            Some((Some(id), Some(reply))) => r matches Ok(
                NotificationKind::ReplyCreated { message_id, reply_id },
            ) && message_id@ == id && reply_id@ == reply,
        },
{
    match get_message_id_and_reply_id(resource) {
        Err(_) => Err(NotificationError::Pattern),
        Ok((None, _)) => Ok(NotificationKind::Unrelated),
        Ok((Some(message_id), None)) => Ok(NotificationKind::MessageCreated { message_id }),
        Ok((Some(message_id), Some(reply_id))) => Ok(
            NotificationKind::ReplyCreated { message_id, reply_id },
        ),
    }
}

/// The reply that tells a thread where its new ticket is.
pub fn ticket_created_reply(base_url: &str, key: &str) -> (r: String)
    ensures
        r@ == ticket_link(base_url@, key@),
{
    let mut url = base_url.to_string();
    url.append("/browse/");
    url.append(key);
    let mut body = "<a href=\"".to_string();
    body.append(url.as_str());
    body.append("\">");
    body.append(url.as_str());
    body.append("</a>");
    body
}

fn text_or_empty(text: Option<String>) -> (r: String)
    ensures
        r@ == or_empty(text),
{
    match text {
        Some(t) => t,
        None => String::new(),
    }
}

impl NotificationFlow {
    /// Goes on with a message whose sender is known.
    fn with_sender(
        resource: String,
        message_id: String,
        reply_id: Option<String>,
        message: MsGraphMessage,
        sender: String,
        teams_user: &str,
    ) -> (r: (NotificationFlow, NotificationAction))
        ensures
            sender_known(resource, message_id, reply_id, message, sender@, teams_user@, r.0, r.1),
    {
        if str_eq(sender.as_str(), teams_user) {
            return (NotificationFlow::Finished, NotificationAction::Done);
        }
        match reply_id {
            Some(reply_id) => {
                let parent = prefix_before(resource.as_str(), "/replies");
                (
                    NotificationFlow::AwaitingParent { message_id, reply_id, message, sender },
                    NotificationAction::FetchMessage(parent),
                )
            },
            None => {
                let kept = message_id.clone();
                let request = TicketSyncRequest {
                    summary: text_or_empty(message.subject),
                    description: message.body.content,
                    reporter_email: sender,
                    attachments: message.attachments,
                    message_url: text_or_empty(message.web_url),
                    message_id,
                };
                (
                    NotificationFlow::AwaitingTicket { message_id: kept },
                    NotificationAction::SyncTicket(request),
                )
            },
        }
    }

    /// Begins the handling of a notification. A notification that does not
    /// carry the secret of the subscription is rejected before anything is
    /// read; one whose path names no message is passed over.
    pub fn start(value: RequestValue, subscription: &Subscription) -> (r: (
        NotificationFlow,
        NotificationAction,
    ))
        ensures
            notification_start(value, subscription.subscription_secret, r.0, r.1),
    {
        match subscription.check_client_secret(value.client_state.as_str()) {
            Ok(_) => {},
            Err(e) => {
                return (
                    NotificationFlow::Finished,
                    NotificationAction::Abort(NotificationError::AuthenticityFailure(e)),
                );
            },
        }
        match get_message_id_and_reply_id(value.resource.as_str()) {
            Err(_) => (
                NotificationFlow::Finished,
                NotificationAction::Abort(NotificationError::Pattern),
            ),
            Ok((None, _)) => (NotificationFlow::Finished, NotificationAction::Done),
            Ok((Some(message_id), reply_id)) => {
                let path = value.resource.clone();
                (
                    NotificationFlow::AwaitingMessage {
                        resource: value.resource,
                        message_id,
                        reply: reply_id,
                    },
                    NotificationAction::FetchMessage(path),
                )
            },
        }
    }

    /// Takes the outcome of the action that was handed out last, and hands
    /// out the next one. `teams_user` is the address the integration writes
    /// as: what it wrote itself is not synchronised. A message that got a
    /// new ticket is answered with the ticket's address.
    pub fn step(self, event: NotificationEvent, teams_user: &str, config: &Config) -> (r: (
        NotificationFlow,
        NotificationAction,
    ))
        ensures
            notification_step(self, event, teams_user@, *config, r.0, r.1),
    {
        match (self, event) {
            (
                NotificationFlow::AwaitingMessage { resource, message_id, reply: reply_id },
                NotificationEvent::MessageFetched(message),
            ) => {
                match message.from.user {
                    Some(user) => (
                        NotificationFlow::AwaitingSender { resource, message_id, reply: reply_id, message },
                        NotificationAction::ResolveSender(user.id),
                    ),
                    None => NotificationFlow::with_sender(
                        resource,
                        message_id,
                        reply_id,
                        message,
                        String::new(),
                        teams_user,
                    ),
                }
            },
            (
                NotificationFlow::AwaitingSender { resource, message_id, reply: reply_id, message },
                NotificationEvent::SenderResolved(sender),
            ) => NotificationFlow::with_sender(
                resource,
                message_id,
                reply_id,
                message,
                sender,
                teams_user,
            ),
            (
                NotificationFlow::AwaitingParent { message_id, reply_id, message, sender },
                NotificationEvent::MessageFetched(parent),
            ) => {
                let request = CommentSyncRequest {
                    description: message.body.content,
                    author_email: sender,
                    attachments: message.attachments,
                    message_url: text_or_empty(parent.web_url),
                    reply_id,
                    message_id,
                };
                (NotificationFlow::AwaitingComment, NotificationAction::SyncComment(request))
            },
            (
                NotificationFlow::AwaitingTicket { message_id },
                NotificationEvent::TicketSynced { key, existed },
            ) => {
                if existed {
                    (NotificationFlow::Finished, NotificationAction::Done)
                } else {
                    let body = ticket_created_reply(config.base_url.as_str(), key.as_str());
                    (
                        NotificationFlow::AwaitingAcknowledgement,
                        NotificationAction::Reply { message_id, body },
                    )
                }
            },
            (NotificationFlow::AwaitingComment, NotificationEvent::CommentSynced) => {
                (NotificationFlow::Finished, NotificationAction::Done)
            },
            (NotificationFlow::AwaitingAcknowledgement, NotificationEvent::Acknowledged) => {
                (NotificationFlow::Finished, NotificationAction::Done)
            },
            (NotificationFlow::Finished, _) => (
                NotificationFlow::Finished,
                NotificationAction::Abort(NotificationError::OutOfOrder),
            ),
            (_, NotificationEvent::Failed) => (
                NotificationFlow::Finished,
                NotificationAction::Abort(NotificationError::UpstreamRequestFailure),
            ),
            _ => (
                NotificationFlow::Finished,
                NotificationAction::Abort(NotificationError::OutOfOrder),
            ),
        }
    }
}

/// How many outcomes a flow can still take, at most, before it is over.
pub open spec fn notification_steps_left(state: NotificationFlow) -> nat {
    match state {
        NotificationFlow::AwaitingMessage { .. } => 5,
        NotificationFlow::AwaitingSender { .. } => 4,
        NotificationFlow::AwaitingParent { .. } => 3,
        NotificationFlow::AwaitingTicket { .. } => 2,
        NotificationFlow::AwaitingComment => 1,
        NotificationFlow::AwaitingAcknowledgement => 1,
        NotificationFlow::Finished => 0,
    }
}

/// Every flow ends: each outcome brings a flow that is not over strictly
/// nearer to its end.
pub proof fn lemma_notification_flow_ends(
    pre: NotificationFlow,
    event: NotificationEvent,
    teams_user: Seq<char>,
    config: Config,
    post: NotificationFlow,
    action: NotificationAction,
)
    requires
        notification_step(pre, event, teams_user, config, post, action),
    ensures
        !(pre is Finished) ==> notification_steps_left(post) < notification_steps_left(pre),
        pre is Finished ==> post is Finished,
        post is Finished <==> (action is Done || action is Abort),
{
}

/// Nothing is synchronised without the secret: a notification that fails
/// the secret check starts no flow at all.
pub proof fn lemma_notification_needs_the_secret(
    value: RequestValue,
    secret: u128,
    started: NotificationFlow,
    first: NotificationAction,
)
    requires
        notification_start(value, secret, started, first),
        secret_check(secret, value.client_state@) is Err,
    ensures
        started is Finished,
        first is Abort,
{
}

/// The handling of a whole request: the notification in hand, and the
/// notifications that are still to come, in their order.
pub struct RequestFlow {
    pub current: NotificationFlow,
    pub pending: Vec<RequestValue>,
}

/// The request is over: no notification is in hand and none is to come.
pub open spec fn request_ended(flow: RequestFlow) -> bool {
    flow.current is Finished && flow.pending@.len() == 0
}

/// Going on to the notifications that are still to come. They are taken in
/// their order. One whose path names no message is passed over. One that
/// fails the secret check, or on whose path the matching engine refuses
/// the pattern, ends the request: those after it are not looked at. The
/// first one that names a message is taken in hand. Where none is left the
/// request is done.
pub open spec fn moving_on(
    pending: Seq<RequestValue>,
    secret: u128,
    post: RequestFlow,
    action: NotificationAction,
) -> bool
    decreases pending.len(),
{
    if pending.len() == 0 {
        request_ended(post) && action == NotificationAction::Done
    } else {
        match secret_check(secret, pending[0].client_state@) {
            Err(e) => request_ended(post) && action == NotificationAction::Abort(
                NotificationError::AuthenticityFailure(e),
            ),
            Ok(_) => match message_and_reply_id(pending[0].resource@) {
                None => request_ended(post) && action == NotificationAction::Abort(
                    NotificationError::Pattern,
                ),
                Some((None, _)) => moving_on(pending.skip(1), secret, post, action),
                Some((Some(_), _)) => post.pending@ == pending.skip(1) && notification_start(
                    pending[0],
                    secret,
                    post.current,
                    action,
                ),
            },
        }
    }
}

/// The notifications of a request, a request without a list having none.
pub open spec fn values_of(request: Request) -> Seq<RequestValue> {
    match request.value {
        Some(values) => values@,
        None => Seq::empty(),
    }
}

/// What the handling of a request does with an outcome. The outcome goes to
/// the notification in hand. Where that notification is dealt with, the
/// handling goes on to those still to come; where it fails, the request is
/// over and those still to come are dropped; otherwise the notification
/// stays in hand and its action is handed out.
pub open spec fn request_step(
    pre: RequestFlow,
    event: NotificationEvent,
    teams_user: Seq<char>,
    config: Config,
    secret: u128,
    post: RequestFlow,
    action: NotificationAction,
) -> bool {
    exists|current: NotificationFlow, handed: NotificationAction|
        {
            &&& #[trigger] notification_step(pre.current, event, teams_user, config, current, handed)
            &&& if handed is Done {
                moving_on(pre.pending@, secret, post, action)
            } else if handed is Abort {
                request_ended(post) && action == handed
            } else {
                post.current == current && post.pending == pre.pending && action == handed
            }
        }
}

impl RequestFlow {
    /// Goes on to the notifications that are still to come.
    fn move_on(pending: Vec<RequestValue>, subscription: &Subscription) -> (r: (
        RequestFlow,
        NotificationAction,
    ))
        ensures
            moving_on(pending@, subscription.subscription_secret, r.0, r.1),
    {
        let ghost secret = subscription.subscription_secret;
        let mut rest = pending;
        while rest.len() > 0
            invariant
                secret == subscription.subscription_secret,
                forall|post: RequestFlow, action: NotificationAction|
                    #[trigger] moving_on(rest@, secret, post, action) ==> moving_on(
                        pending@,
                        secret,
                        post,
                        action,
                    ),
            decreases rest.len(),
        {
            let ghost before = rest@;
            let value = rest.remove(0);
            assert(rest@ =~= before.skip(1));
            let (current, action) = NotificationFlow::start(value, subscription);
            match action {
                NotificationAction::Done => {
                    assert forall|post: RequestFlow, a: NotificationAction| #[trigger]
                        moving_on(rest@, secret, post, a) implies moving_on(
                        pending@,
                        secret,
                        post,
                        a,
                    ) by {
                        assert(moving_on(before, secret, post, a));
                    }
                },
                NotificationAction::Abort(e) => {
                    let ended = RequestFlow { current: NotificationFlow::Finished, pending: Vec::new() };
                    assert(moving_on(before, secret, ended, NotificationAction::Abort(e)));
                    return (ended, NotificationAction::Abort(e));
                },
                _ => {
                    let taken = RequestFlow { current, pending: rest };
                    assert(moving_on(before, secret, taken, action));
                    return (taken, action);
                },
            }
        }
        let done = RequestFlow { current: NotificationFlow::Finished, pending: Vec::new() };
        assert(moving_on(rest@, secret, done, NotificationAction::Done));
        (done, NotificationAction::Done)
    }

    /// Begins the handling of a request with its first notification. Every
    /// notification has to carry the secret of the subscription; the first
    /// that does not ends the request, and nothing is read or written for it
    /// or for those after it.
    pub fn handle_teams_request(request: Request, subscription: &Subscription) -> (r: (
        RequestFlow,
        NotificationAction,
    ))
        ensures
            moving_on(values_of(request), subscription.subscription_secret, r.0, r.1),
    {
        match request.value {
            Some(values) => RequestFlow::move_on(values, subscription),
            None => RequestFlow::move_on(Vec::new(), subscription),
        }
    }

    /// Takes the outcome of the action that was handed out last, and hands
    /// out the next one. Where the notification in hand is dealt with, the
    /// next one is begun; where it fails, the request is over.
    pub fn step(
        self,
        event: NotificationEvent,
        teams_user: &str,
        config: &Config,
        subscription: &Subscription,
    ) -> (r: (RequestFlow, NotificationAction))
        ensures
            request_step(
                self,
                event,
                teams_user@,
                *config,
                subscription.subscription_secret,
                r.0,
                r.1,
            ),
    {
        let (current, handed) = self.current.step(event, teams_user, config);
        assert(notification_step(self.current, event, teams_user@, *config, current, handed));
        match handed {
            NotificationAction::Done => RequestFlow::move_on(self.pending, subscription),
            NotificationAction::Abort(e) => (
                RequestFlow { current: NotificationFlow::Finished, pending: Vec::new() },
                NotificationAction::Abort(e),
            ),
            _ => (RequestFlow { current, pending: self.pending }, handed),
        }
    }
}

/// A failed notification ends the request. Whenever the handling of a
/// request hands out a failure, no notification is in hand and none is to
/// come; and once a request is over, whatever outcome it is handed, it hands
/// out a failure and stays over, so that nothing is read or written for the
/// notifications that came after the failed one.
pub proof fn lemma_failed_notification_ends_request(
    pre: RequestFlow,
    event: NotificationEvent,
    teams_user: Seq<char>,
    config: Config,
    secret: u128,
    post: RequestFlow,
    action: NotificationAction,
)
    requires
        request_step(pre, event, teams_user, config, secret, post, action),
    ensures
        action is Abort ==> request_ended(post),
        action is Done ==> request_ended(post),
        request_ended(pre) ==> action is Abort && request_ended(post),
{
    let (current, handed) = choose|current: NotificationFlow, handed: NotificationAction|
        {
            &&& #[trigger] notification_step(pre.current, event, teams_user, config, current, handed)
            &&& if handed is Done {
                moving_on(pre.pending@, secret, post, action)
            } else if handed is Abort {
                request_ended(post) && action == handed
            } else {
                post.current == current && post.pending == pre.pending && action == handed
            }
        };
    if handed is Done {
        lemma_moving_on_ends(pre.pending@, secret, post, action);
    }
}

/// Going on either takes a notification in hand or ends the request; a
/// notification that fails the secret check ends it with that failure.
pub proof fn lemma_moving_on_ends(
    pending: Seq<RequestValue>,
    secret: u128,
    post: RequestFlow,
    action: NotificationAction,
)
    requires
        moving_on(pending, secret, post, action),
    ensures
        action is Abort || action is Done ==> request_ended(post),
        pending.len() > 0 && secret_check(secret, pending[0].client_state@) is Err ==> action
            is Abort && request_ended(post),
    decreases pending.len(),
{
    if pending.len() > 0 {
        match secret_check(secret, pending[0].client_state@) {
            Err(_) => {},
            Ok(_) => match message_and_reply_id(pending[0].resource@) {
                Some((None, _)) => {
                    lemma_moving_on_ends(pending.skip(1), secret, post, action);
                },
                _ => {},
            },
        }
    }
}

} // verus!
