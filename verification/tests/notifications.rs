use sync_msteams_jira_comments::jira_api::cfg::Config;
use sync_msteams_jira_comments::ms_graph_api::message::MessageBody;
use sync_msteams_jira_comments::ms_graph_api::message::MessageFrom;
use sync_msteams_jira_comments::ms_graph_api::message::MsGraphMessage;
use sync_msteams_jira_comments::ms_graph_api::message::MsGraphUser;
use sync_msteams_jira_comments::ms_graph_api::message::TeamsAttachment;
use sync_msteams_jira_comments::ms_graph_api::subscription::SecretError;
use sync_msteams_jira_comments::ms_graph_api::subscription::Subscription;
use sync_msteams_jira_comments::server::handlers::helpers::ValidationTokenQuery;
use sync_msteams_jira_comments::server::handlers::teams::handler;
use sync_msteams_jira_comments::server::handlers::teams::ticket_created_reply;
use sync_msteams_jira_comments::server::handlers::teams::NotificationAction;
use sync_msteams_jira_comments::server::handlers::teams::NotificationError;
use sync_msteams_jira_comments::server::handlers::teams::NotificationEvent;
use sync_msteams_jira_comments::server::handlers::teams::NotificationFlow;
use sync_msteams_jira_comments::server::handlers::teams::Request;
use sync_msteams_jira_comments::server::handlers::teams::RequestFlow;
use sync_msteams_jira_comments::server::handlers::teams::RequestValue;

const SECRET_TEXT: &str = "67e55044-10b1-426f-9247-bb680e5fe0c8";
const BOT: &str = "bot@example.com";
const THREAD: &str = "https://teams.microsoft.com/l/message/19%3Ac/111?groupId=g";

fn config() -> Config {
    Config {
        user: BOT.to_string(),
        secret: "s".to_string(),
        token: "t".to_string(),
        base_url: "https://tickets.example".to_string(),
        project_key: "SUP".to_string(),
        msteams_link_field_name: "customfield_10100".to_string(),
        msteams_link_field_jql_name: "Teams link".to_string(),
    }
}

fn subscription() -> Subscription {
    Subscription { subscription_id: 1, subscription_secret: 0x67e5504410b1426f9247bb680e5fe0c8 }
}

fn value(resource: &str) -> RequestValue {
    RequestValue { client_state: SECRET_TEXT.to_string(), resource: resource.to_string() }
}

fn message(id: &str, user: Option<u128>, subject: Option<&str>, url: Option<&str>) -> MsGraphMessage {
    MsGraphMessage {
        id: id.to_string(),
        web_url: url.map(|u| u.to_string()),
        from: MessageFrom { user: user.map(|id| MsGraphUser { id }) },
        body: MessageBody { content: "<p>It broke</p>".to_string() },
        attachments: vec![TeamsAttachment {
            content_url: Some("https://files/a.pdf".to_string()),
            name: Some("a.pdf".to_string()),
        }],
        subject: subject.map(|s| s.to_string()),
    }
}

#[test]
fn request_answer_echoes_the_validation_token() {
    assert_eq!(handler(&ValidationTokenQuery { validation_token: Some("abc".to_string()) }), "abc");
    assert_eq!(handler(&ValidationTokenQuery { validation_token: None }), "");
}

#[test]
fn new_ticket_is_acknowledged_with_its_address() {
    assert_eq!(
        ticket_created_reply("https://tickets.example", "SUP-9"),
        "<a href=\"https://tickets.example/browse/SUP-9\">https://tickets.example/browse/SUP-9</a>"
    );
}

#[test]
fn message_becomes_a_ticket_and_is_acknowledged() {
    let cfg = config();
    let resource = "teams('g')/channels('c')/messages('111')";
    let (state, action) = NotificationFlow::start(value(resource), &subscription());
    match action {
        NotificationAction::FetchMessage(path) => assert_eq!(path, resource),
        _ => panic!("expected the message to be read"),
    }
    let (state, action) =
        state.step(NotificationEvent::MessageFetched(message("111", Some(5), None, Some(THREAD))), BOT, &cfg);
    assert!(matches!(action, NotificationAction::ResolveSender(5)));
    let (state, action) = state.step(NotificationEvent::SenderResolved("ann@example.com".to_string()), BOT, &cfg);
    match action {
        NotificationAction::SyncTicket(request) => {
            assert_eq!(request.summary, "");
            assert_eq!(request.description, "<p>It broke</p>");
            assert_eq!(request.reporter_email, "ann@example.com");
            assert_eq!(request.attachments.len(), 1);
            assert_eq!(request.message_url, THREAD);
            assert_eq!(request.message_id, "111");
        }
        _ => panic!("expected ticket synchronisation"),
    }
    let (state, action) =
        state.step(NotificationEvent::TicketSynced { key: "SUP-9".to_string(), existed: false }, BOT, &cfg);
    match action {
        NotificationAction::Reply { message_id, body } => {
            assert_eq!(message_id, "111");
            assert_eq!(
                body,
                "<a href=\"https://tickets.example/browse/SUP-9\">https://tickets.example/browse/SUP-9</a>"
            );
        }
        _ => panic!("expected the acknowledgement"),
    }
    let (state, action) = state.step(NotificationEvent::Acknowledged, BOT, &cfg);
    assert!(matches!(state, NotificationFlow::Finished));
    assert!(matches!(action, NotificationAction::Done));
}

#[test]
fn edited_message_is_not_acknowledged_again() {
    let cfg = config();
    let (state, _) =
        NotificationFlow::start(value("teams('g')/channels('c')/messages('111')"), &subscription());
    let (state, _) =
        state.step(NotificationEvent::MessageFetched(message("111", Some(5), Some("S"), Some(THREAD))), BOT, &cfg);
    let (state, action) = state.step(NotificationEvent::SenderResolved("ann@example.com".to_string()), BOT, &cfg);
    match action {
        NotificationAction::SyncTicket(request) => assert_eq!(request.summary, "S"),
        _ => panic!("expected ticket synchronisation"),
    }
    let (state, action) =
        state.step(NotificationEvent::TicketSynced { key: "SUP-9".to_string(), existed: true }, BOT, &cfg);
    assert!(matches!(state, NotificationFlow::Finished));
    assert!(matches!(action, NotificationAction::Done));
}

#[test]
fn reply_becomes_a_comment_on_the_parent_thread() {
    let cfg = config();
    let resource = "teams('g')/channels('c')/messages('111')/replies('222')";
    let (state, _) = NotificationFlow::start(value(resource), &subscription());
    let (state, _) =
        state.step(NotificationEvent::MessageFetched(message("222", Some(5), None, None)), BOT, &cfg);
    let (state, action) = state.step(NotificationEvent::SenderResolved("ann@example.com".to_string()), BOT, &cfg);
    match action {
        NotificationAction::FetchMessage(path) => assert_eq!(path, "teams('g')/channels('c')/messages('111')"),
        _ => panic!("expected the parent to be read"),
    }
    let (state, action) =
        state.step(NotificationEvent::MessageFetched(message("111", Some(6), Some("S"), Some(THREAD))), BOT, &cfg);
    match action {
        NotificationAction::SyncComment(request) => {
            assert_eq!(request.description, "<p>It broke</p>");
            assert_eq!(request.author_email, "ann@example.com");
            assert_eq!(request.message_url, THREAD);
            assert_eq!(request.reply_id, "222");
            assert_eq!(request.message_id, "111");
            assert_eq!(request.attachments.len(), 1);
        }
        _ => panic!("expected comment synchronisation"),
    }
    let (state, action) = state.step(NotificationEvent::CommentSynced, BOT, &cfg);
    assert!(matches!(state, NotificationFlow::Finished));
    assert!(matches!(action, NotificationAction::Done));
}

#[test]
fn own_messages_are_passed_over() {
    let cfg = config();
    let (state, _) =
        NotificationFlow::start(value("teams('g')/channels('c')/messages('111')"), &subscription());
    let (state, _) =
        state.step(NotificationEvent::MessageFetched(message("111", Some(5), None, Some(THREAD))), BOT, &cfg);
    let (state, action) = state.step(NotificationEvent::SenderResolved(BOT.to_string()), BOT, &cfg);
    assert!(matches!(state, NotificationFlow::Finished));
    assert!(matches!(action, NotificationAction::Done));
}

#[test]
fn sender_address_is_compared_exactly() {
    let cfg = config();
    let (state, _) =
        NotificationFlow::start(value("teams('g')/channels('c')/messages('111')"), &subscription());
    let (state, _) =
        state.step(NotificationEvent::MessageFetched(message("111", Some(5), None, Some(THREAD))), BOT, &cfg);
    let (_, action) = state.step(NotificationEvent::SenderResolved("Bot@example.com".to_string()), BOT, &cfg);
    assert!(matches!(action, NotificationAction::SyncTicket(_)));
}

#[test]
fn message_without_sender_is_synchronised_with_an_empty_address() {
    let cfg = config();
    let (state, _) =
        NotificationFlow::start(value("teams('g')/channels('c')/messages('111')"), &subscription());
    let (_, action) = state.step(NotificationEvent::MessageFetched(message("111", None, None, None)), BOT, &cfg);
    match action {
        NotificationAction::SyncTicket(request) => {
            assert_eq!(request.reporter_email, "");
            assert_eq!(request.message_url, "");
        }
        _ => panic!("expected ticket synchronisation"),
    }
}

#[test]
fn notification_with_a_bad_secret_is_rejected() {
    let mut v = value("teams('g')/channels('c')/messages('111')");
    v.client_state = "00000000-0000-0000-0000-000000000000".to_string();
    let (state, action) = NotificationFlow::start(v, &subscription());
    assert!(matches!(state, NotificationFlow::Finished));
    assert!(matches!(
        action,
        NotificationAction::Abort(NotificationError::AuthenticityFailure(SecretError::Mismatch))
    ));
    let mut v = value("teams('g')/channels('c')/messages('111')");
    v.client_state = "garbage".to_string();
    let (_, action) = NotificationFlow::start(v, &subscription());
    assert!(matches!(
        action,
        NotificationAction::Abort(NotificationError::AuthenticityFailure(SecretError::Malformed))
    ));
}

#[test]
fn notification_about_something_else_is_passed_over() {
    let (state, action) = NotificationFlow::start(value("teams('g')/channels('c')"), &subscription());
    assert!(matches!(state, NotificationFlow::Finished));
    assert!(matches!(action, NotificationAction::Done));
}

#[test]
fn notification_flow_errors() {
    let cfg = config();
    let (state, _) =
        NotificationFlow::start(value("teams('g')/channels('c')/messages('111')"), &subscription());
    let (state, action) = state.step(NotificationEvent::Failed, BOT, &cfg);
    assert!(matches!(action, NotificationAction::Abort(NotificationError::UpstreamRequestFailure)));
    let (_, action) = state.step(NotificationEvent::CommentSynced, BOT, &cfg);
    assert!(matches!(action, NotificationAction::Abort(NotificationError::OutOfOrder)));
    let (state, _) =
        NotificationFlow::start(value("teams('g')/channels('c')/messages('111')"), &subscription());
    let (_, action) = state.step(NotificationEvent::Acknowledged, BOT, &cfg);
    assert!(matches!(action, NotificationAction::Abort(NotificationError::OutOfOrder)));
}

fn request_of(values: Vec<RequestValue>) -> Request {
    Request { value: Some(values) }
}

fn bad(resource: &str) -> RequestValue {
    RequestValue { client_state: "00000000-0000-0000-0000-000000000000".to_string(), resource: resource.to_string() }
}

const FIRST: &str = "teams('g')/channels('c')/messages('111')";
const SECOND: &str = "teams('g')/channels('c')/messages('222')";

/// Answers every action of a request so that all goes well, and lists the paths that were read.
fn run(request: Request) -> (Vec<String>, Result<(), NotificationError>) {
    let cfg = config();
    let sub = subscription();
    let mut read = Vec::new();
    let (mut flow, mut action) = RequestFlow::handle_teams_request(request, &sub);
    loop {
        let event = match action {
            NotificationAction::FetchMessage(path) => {
                read.push(path);
                NotificationEvent::MessageFetched(message("m", None, None, Some(THREAD)))
            }
            NotificationAction::ResolveSender(_) => NotificationEvent::SenderResolved("ann@example.com".to_string()),
            NotificationAction::SyncTicket(_) => {
                NotificationEvent::TicketSynced { key: "SUP-1".to_string(), existed: true }
            }
            NotificationAction::SyncComment(_) => NotificationEvent::CommentSynced,
            NotificationAction::Reply { .. } => NotificationEvent::Acknowledged,
            NotificationAction::Done => return (read, Ok(())),
            NotificationAction::Abort(e) => return (read, Err(e)),
        };
        let next = flow.step(event, BOT, &cfg, &sub);
        flow = next.0;
        action = next.1;
    }
}

#[test]
fn notifications_of_a_request_are_handled_in_their_order() {
    let (read, end) = run(request_of(vec![value(FIRST), value("teams('g')"), value(SECOND)]));
    assert_eq!(read, vec![FIRST, SECOND]);
    assert_eq!(end, Ok(()));
}

#[test]
fn request_without_notifications_is_done_at_once() {
    assert_eq!(run(Request { value: None }), (Vec::new(), Ok(())));
    assert_eq!(run(request_of(Vec::new())), (Vec::new(), Ok(())));
    assert_eq!(run(request_of(vec![value("teams('g')")])), (Vec::new(), Ok(())));
}

#[test]
fn notification_with_a_wrong_secret_ends_the_request() {
    let (read, end) = run(request_of(vec![value(FIRST), bad(SECOND), value(SECOND)]));
    assert_eq!(read, vec![FIRST]);
    assert_eq!(end, Err(NotificationError::AuthenticityFailure(SecretError::Mismatch)));
    let (read, end) = run(request_of(vec![bad(FIRST), value(SECOND)]));
    assert!(read.is_empty());
    assert_eq!(end, Err(NotificationError::AuthenticityFailure(SecretError::Mismatch)));
    // Even a notification that would be passed over has to carry the secret.
    let (read, end) = run(request_of(vec![bad("teams('g')"), value(SECOND)]));
    assert!(read.is_empty());
    assert_eq!(end, Err(NotificationError::AuthenticityFailure(SecretError::Mismatch)));
}

#[test]
fn failed_notification_drops_those_after_it() {
    let cfg = config();
    let sub = subscription();
    let (flow, action) = RequestFlow::handle_teams_request(request_of(vec![value(FIRST), value(SECOND)]), &sub);
    assert!(matches!(action, NotificationAction::FetchMessage(_)));
    assert_eq!(flow.pending.len(), 1);
    let (flow, action) = flow.step(NotificationEvent::Failed, BOT, &cfg, &sub);
    assert!(matches!(action, NotificationAction::Abort(NotificationError::UpstreamRequestFailure)));
    assert!(flow.pending.is_empty());
    assert!(matches!(flow.current, NotificationFlow::Finished));
    let (flow, action) = flow.step(NotificationEvent::CommentSynced, BOT, &cfg, &sub);
    assert!(matches!(action, NotificationAction::Abort(NotificationError::OutOfOrder)));
    assert!(flow.pending.is_empty());
}
