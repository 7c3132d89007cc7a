use sync_msteams_jira_comments::jira_api::attachment::JiraAttachment;
use sync_msteams_jira_comments::jira_api::cfg::Config;
use sync_msteams_jira_comments::jira_api::comment::find_property;
use sync_msteams_jira_comments::jira_api::comment::CommentAction;
use sync_msteams_jira_comments::jira_api::comment::CommentDraft;
use sync_msteams_jira_comments::jira_api::comment::CommentEvent;
use sync_msteams_jira_comments::jira_api::comment::CommentSync;
use sync_msteams_jira_comments::jira_api::comment::CommentSyncRequest;
use sync_msteams_jira_comments::jira_api::comment::JiraComment;
use sync_msteams_jira_comments::jira_api::comment::JiraCommentProperty;
use sync_msteams_jira_comments::jira_api::comment::JiraCommentPropertyValue;
use sync_msteams_jira_comments::jira_api::issue::Issue;
use sync_msteams_jira_comments::jira_api::issue::IssueFields;
use sync_msteams_jira_comments::jira_api::issue::IssueStatus;
use sync_msteams_jira_comments::jira_api::model::SyncError;
use sync_msteams_jira_comments::jira_api::user::JiraUser;

const THREAD: &str = "https://teams.microsoft.com/l/message/19%3Ac/1700000000000?groupId=g";

fn config() -> Config {
    Config {
        user: "bot@example.com".to_string(),
        secret: "s".to_string(),
        token: "t".to_string(),
        base_url: "https://tickets.example".to_string(),
        project_key: "SUP".to_string(),
        msteams_link_field_name: "customfield_10100".to_string(),
        msteams_link_field_jql_name: "Teams link".to_string(),
    }
}

fn author() -> JiraUser {
    JiraUser { account_id: "acc-1".to_string(), display_name: None, email_address: None }
}

fn property(key: &str, teams_id: Option<&str>) -> JiraCommentProperty {
    JiraCommentProperty {
        key: key.to_string(),
        value: teams_id.map(|id| JiraCommentPropertyValue { teams_id: id.to_string() }),
    }
}

fn comment(id: &str, body: &str, properties: Option<Vec<JiraCommentProperty>>) -> JiraComment {
    JiraComment { id: id.to_string(), body: body.to_string(), update_author: author(), properties }
}

fn ticket(status: &str) -> Issue {
    Issue {
        id: "500".to_string(),
        key: "SUP-9".to_string(),
        fields: Some(IssueFields {
            attachment: vec![JiraAttachment { id: "11".into(), filename: "old.png".into() }],
            description: "text".to_string(),
            assignee: None,
            status: IssueStatus { name: status.to_string() },
            teams_link: Some(THREAD.to_string()),
        }),
    }
}

fn request() -> CommentSyncRequest {
    CommentSyncRequest {
        description: "<p>Any news?</p>".to_string(),
        author_email: "ann@example.com".to_string(),
        attachments: Vec::new(),
        message_url: THREAD.to_string(),
        reply_id: "222".to_string(),
        message_id: "1700000000000".to_string(),
    }
}

#[test]
fn reply_id_is_the_value_of_the_first_reply_property() {
    let c = comment(
        "1",
        "",
        Some(vec![property("other", Some("x")), property("teams_id", Some("222")), property("teams_id", Some("333"))]),
    );
    assert_eq!(c.get_reply_id(), Some("222".to_string()));
}

#[test]
fn reply_id_is_missing_without_property_or_value() {
    assert_eq!(comment("1", "", None).get_reply_id(), None);
    assert_eq!(comment("1", "", Some(Vec::new())).get_reply_id(), None);
    assert_eq!(comment("1", "", Some(vec![property("other", Some("x"))])).get_reply_id(), None);
    // The first property with the key decides, even if it has no value.
    let c = comment("1", "", Some(vec![property("teams_id", None), property("teams_id", Some("9"))]));
    assert_eq!(c.get_reply_id(), None);
}

#[test]
fn property_is_found_by_key() {
    let list = vec![property("a", None), property("teams_id", None), property("teams_id", None)];
    assert_eq!(find_property(&list, "teams_id"), Some(1));
    assert_eq!(find_property(&list, "Teams_id"), None);
    assert_eq!(find_property(&Vec::new(), "teams_id"), None);
}

#[test]
fn comment_of_a_reply_is_the_first_with_its_id() {
    let list = vec![
        comment("1", "", Some(vec![property("teams_id", Some("111"))])),
        comment("2", "", Some(vec![property("teams_id", Some("222"))])),
        comment("3", "", Some(vec![property("teams_id", Some("222"))])),
    ];
    assert_eq!(JiraComment::find(list, "222").map(|c| c.id), Some("2".to_string()));
    let list = vec![comment("1", "", Some(vec![property("teams_id", Some("111"))]))];
    assert!(JiraComment::find(list, "222").is_none());
    assert!(JiraComment::find(Vec::new(), "222").is_none());
}

#[test]
fn comment_without_reply_id_answers_to_no_reply() {
    let list = vec![
        comment("1", "", Some(vec![property("teams_id", Some("111"))])),
        comment("2", "", None),
    ];
    assert!(JiraComment::find(list, "").is_none());
    assert!(!comment("1", "", None).is_for_reply(""));
    assert!(!comment("1", "", None).is_for_reply("1"));
    assert!(comment("1", "", Some(vec![property("teams_id", Some(""))])).is_for_reply(""));
}

#[test]
fn comment_body_names_the_author() {
    let d = CommentDraft::new("acc-1", "ann@example.com", "Any news?");
    assert_eq!(d.body, "On behalf of [~accountid:acc-1]:\n\nAny news?");
    let d = CommentDraft::new("", "ann@example.com", "Any news?");
    assert_eq!(d.body, "On behalf of [~accountid:ann@example.com]:\n\nAny news?");
}

fn until_listing(account_id: &str) -> (CommentSync, CommentAction) {
    let cfg = config();
    let (state, action) = JiraComment::create_or_update(request());
    match action {
        CommentAction::ResolveAuthor(email) => assert_eq!(email, "ann@example.com"),
        _ => panic!("expected the author lookup"),
    }
    let (state, action) = state.step(CommentEvent::AuthorResolved(account_id.to_string()), &cfg);
    assert!(matches!(action, CommentAction::FetchImages(_)));
    let (state, action) = state.step(CommentEvent::ImagesFetched(Vec::new()), &cfg);
    match action {
        CommentAction::Search(jql) => {
            assert_eq!(jql, format!("project = \"SUP\" AND \"Teams link\" = \"{}\"", THREAD))
        }
        _ => panic!("expected the search"),
    }
    state.step(CommentEvent::SearchDone(vec![ticket("Open")]), &cfg)
}

#[test]
fn new_reply_creates_a_comment_and_ties_it() {
    let cfg = config();
    let (state, action) = until_listing("acc-1");
    match action {
        CommentAction::ListComments { issue_id } => assert_eq!(issue_id, "500"),
        _ => panic!("expected the listing"),
    }
    let others = vec![comment("1", "x", Some(vec![property("teams_id", Some("111"))]))];
    let (state, action) = state.step(CommentEvent::CommentsListed(others), &cfg);
    match action {
        CommentAction::Create { issue_id, draft } => {
            assert_eq!(issue_id, "500");
            assert_eq!(draft.body, "On behalf of [~accountid:acc-1]:\n\nAny news?");
        }
        _ => panic!("expected a creation"),
    }
    let (state, action) = state.step(CommentEvent::Created(comment("77", "b", None)), &cfg);
    match action {
        CommentAction::Reconcile { issue_id, plan, images } => {
            assert_eq!(issue_id, "500");
            assert!(plan.delete.is_empty());
            assert!(plan.upload.is_empty());
            assert!(images.is_empty());
        }
        _ => panic!("expected reconciliation"),
    }
    let (state, action) = state.step(CommentEvent::Reconciled, &cfg);
    match action {
        CommentAction::WriteMapping { comment_id, reply_id } => {
            assert_eq!(comment_id, "77");
            assert_eq!(reply_id, "222");
        }
        _ => panic!("expected the mapping"),
    }
    let (state, action) = state.step(CommentEvent::MappingWritten, &cfg);
    assert!(matches!(state, CommentSync::Finished));
    match action {
        CommentAction::Done { comment } => assert_eq!(comment.id, "77"),
        _ => panic!("expected the end"),
    }
}

#[test]
fn known_reply_updates_its_comment() {
    let cfg = config();
    let (state, _) = until_listing("");
    let listed = vec![
        comment("1", "x", Some(vec![property("teams_id", Some("111"))])),
        comment("2", "was\n\n!old.png!\n\n", Some(vec![property("teams_id", Some("222"))])),
    ];
    let (state, action) = state.step(CommentEvent::CommentsListed(listed), &cfg);
    match action {
        CommentAction::Update { issue_id, comment_id, draft } => {
            assert_eq!(issue_id, "500");
            assert_eq!(comment_id, "2");
            assert_eq!(draft.body, "On behalf of [~accountid:ann@example.com]:\n\nAny news?");
        }
        _ => panic!("expected an update"),
    }
    let (state, action) = state.step(CommentEvent::Updated, &cfg);
    match action {
        CommentAction::Reconcile { plan, .. } => {
            // The image that the previous text placed is no longer referred to.
            assert_eq!(plan.delete, vec!["11".to_string()]);
            assert!(plan.upload.is_empty());
        }
        _ => panic!("expected reconciliation"),
    }
    let (state, action) = state.step(CommentEvent::Reconciled, &cfg);
    assert!(matches!(state, CommentSync::Finished));
    match action {
        CommentAction::Done { comment } => assert_eq!(comment.id, "2"),
        _ => panic!("expected the end without a mapping"),
    }
}

#[test]
fn reply_without_ticket_is_an_error() {
    let cfg = config();
    let (state, _) = JiraComment::create_or_update(request());
    let (state, _) = state.step(CommentEvent::AuthorResolved(String::new()), &cfg);
    let (state, _) = state.step(CommentEvent::ImagesFetched(Vec::new()), &cfg);
    let (state, action) = state.step(CommentEvent::SearchDone(Vec::new()), &cfg);
    assert!(matches!(action, CommentAction::Abort(SyncError::NotFound)));
    assert!(matches!(state, CommentSync::Finished));
}

#[test]
fn author_without_account_is_named_by_the_address() {
    let cfg = config();
    let (state, _) = JiraComment::create_or_update(request());
    let (state, action) = state.step(CommentEvent::AuthorResolved(String::new()), &cfg);
    assert!(matches!(action, CommentAction::FetchImages(_)));
    let (state, action) = state.step(CommentEvent::ImagesFetched(Vec::new()), &cfg);
    assert!(matches!(action, CommentAction::Search(_)));
    let (state, _) = state.step(CommentEvent::SearchDone(vec![ticket("Open")]), &cfg);
    let (_, action) = state.step(CommentEvent::CommentsListed(Vec::new()), &cfg);
    match action {
        CommentAction::Create { draft, .. } => {
            assert_eq!(draft.body, "On behalf of [~accountid:ann@example.com]:\n\nAny news?")
        }
        _ => panic!("expected a creation"),
    }
}

#[test]
fn failed_author_lookup_ends_the_flow() {
    let cfg = config();
    let (state, _) = JiraComment::create_or_update(request());
    let (state, action) = state.step(CommentEvent::Failed, &cfg);
    assert!(matches!(state, CommentSync::Finished));
    assert!(matches!(action, CommentAction::Abort(SyncError::UpstreamRequestFailure)));
}

#[test]
fn failed_comment_reconciliation_ends_the_flow() {
    let cfg = config();
    let (state, _) = until_listing("acc-1");
    let (state, _) = state.step(CommentEvent::CommentsListed(Vec::new()), &cfg);
    let (state, action) = state.step(CommentEvent::Created(comment("77", "b", None)), &cfg);
    assert!(matches!(action, CommentAction::Reconcile { .. }));
    let (state, action) = state.step(CommentEvent::Failed, &cfg);
    assert!(matches!(state, CommentSync::Finished));
    assert!(matches!(action, CommentAction::Abort(SyncError::UpstreamRequestFailure)));
}

#[test]
fn reply_to_a_closed_ticket_bounces_first() {
    let cfg = config();
    let (state, _) = JiraComment::create_or_update(request());
    let (state, _) = state.step(CommentEvent::AuthorResolved("a".to_string()), &cfg);
    let (state, _) = state.step(CommentEvent::ImagesFetched(Vec::new()), &cfg);
    let (state, action) = state.step(CommentEvent::SearchDone(vec![ticket("Rejected")]), &cfg);
    match action {
        CommentAction::Bounce { message_id, text } => {
            assert_eq!(message_id, "1700000000000");
            assert!(text.starts_with("Извините"));
        }
        _ => panic!("expected the bounce"),
    }
    let (_, action) = state.step(CommentEvent::BounceSent, &cfg);
    assert!(matches!(action, CommentAction::ListComments { .. }));
}

#[test]
fn reply_that_cannot_be_converted_starts_no_flow() {
    let mut req = request();
    req.description = "<blockquote><li>x</li></blockquote>".to_string();
    let (state, action) = JiraComment::create_or_update(req);
    assert!(matches!(state, CommentSync::Finished));
    assert!(matches!(action, CommentAction::Abort(SyncError::Markup)));
    let mut req = request();
    req.description = "<q><li>x</li></q>".to_string();
    let (state, action) =
        CommentSync::AwaitingAuthor { request: req }.step(CommentEvent::AuthorResolved(String::new()), &config());
    assert!(matches!(state, CommentSync::Finished));
    assert!(matches!(action, CommentAction::Abort(SyncError::Markup)));
}

#[test]
fn comment_flow_errors() {
    let cfg = config();
    let (state, _) = JiraComment::create_or_update(request());
    let (state, _) = state.step(CommentEvent::AuthorResolved(String::new()), &cfg);
    let (_, action) = state.step(CommentEvent::Failed, &cfg);
    assert!(matches!(action, CommentAction::Abort(SyncError::UpstreamRequestFailure)));
    let (state, _) = JiraComment::create_or_update(request());
    let (_, action) = state.step(CommentEvent::Updated, &cfg);
    assert!(matches!(action, CommentAction::Abort(SyncError::OutOfOrder)));
    let (_, action) = CommentSync::Finished.step(CommentEvent::Reconciled, &cfg);
    assert!(matches!(action, CommentAction::Abort(SyncError::OutOfOrder)));
}

#[test]
fn synchronising_a_reply_twice_creates_one_comment() {
    let cfg = config();
    // The first flow finds no comment of the reply and creates one.
    let (state, _) = until_listing("acc-1");
    let (state, action) = state.step(CommentEvent::CommentsListed(Vec::new()), &cfg);
    assert!(matches!(action, CommentAction::Create { .. }));
    let (state, _) = state.step(CommentEvent::Created(comment("77", "b", None)), &cfg);
    let (state, action) = state.step(CommentEvent::Reconciled, &cfg);
    let (comment_id, reply_id) = match action {
        CommentAction::WriteMapping { comment_id, reply_id } => (comment_id, reply_id),
        _ => panic!("expected the mapping"),
    };
    let (_, action) = state.step(CommentEvent::MappingWritten, &cfg);
    assert!(matches!(action, CommentAction::Done { .. }));
    // The second flow is shown the comment with the mapping that was written.
    let listed = vec![comment(&comment_id, "b", Some(vec![property("teams_id", Some(&reply_id))]))];
    let (state, _) = until_listing("acc-1");
    let (_, action) = state.step(CommentEvent::CommentsListed(listed), &cfg);
    match action {
        CommentAction::Update { comment_id, .. } => assert_eq!(comment_id, "77"),
        _ => panic!("expected an update, not a second comment"),
    }
}
