use sync_msteams_jira_comments::jira_api::cfg::Config;
use sync_msteams_jira_comments::jira_api::comment::JiraComment;
use sync_msteams_jira_comments::jira_api::issue::Issue;
use sync_msteams_jira_comments::jira_api::issue::IssueFields;
use sync_msteams_jira_comments::jira_api::issue::IssueStatus;
use sync_msteams_jira_comments::jira_api::model::SyncError;
use sync_msteams_jira_comments::jira_api::user::JiraUser;
use sync_msteams_jira_comments::server::handlers::jira::lower_changed_fields;
use sync_msteams_jira_comments::server::handlers::jira::replies_for_lowered;
use sync_msteams_jira_comments::server::handlers::jira::handle_jira_request;
use sync_msteams_jira_comments::server::handlers::jira::parse_issue;
use sync_msteams_jira_comments::server::handlers::jira::ChangeLog;
use sync_msteams_jira_comments::server::handlers::jira::ChangeLogItem;
use sync_msteams_jira_comments::server::handlers::jira::CommentPropagation;
use sync_msteams_jira_comments::server::handlers::jira::CommentRequest;
use sync_msteams_jira_comments::server::handlers::jira::IssueId;
use sync_msteams_jira_comments::server::handlers::jira::IssueRequest;
use sync_msteams_jira_comments::server::handlers::jira::PropagationAction;
use sync_msteams_jira_comments::server::handlers::jira::PropagationEvent;
use sync_msteams_jira_comments::server::handlers::jira::TicketEventKind;

const THREAD: &str = "https://teams.microsoft.com/l/message/19%3Ac/1700000000000?groupId=g";

fn config() -> Config {
    Config {
        user: "Bot@Example.com".to_string(),
        secret: "s".to_string(),
        token: "t".to_string(),
        base_url: "https://tickets.example".to_string(),
        project_key: "SUP".to_string(),
        msteams_link_field_name: "customfield_10100".to_string(),
        msteams_link_field_jql_name: "Teams link".to_string(),
    }
}

fn issue(status: &str, assignee: Option<&str>, link: Option<&str>) -> Issue {
    Issue {
        id: "500".to_string(),
        key: "SUP-9".to_string(),
        fields: Some(IssueFields {
            attachment: Vec::new(),
            description: String::new(),
            assignee: assignee.map(|name| JiraUser {
                account_id: "a".to_string(),
                display_name: Some(name.to_string()),
                email_address: None,
            }),
            status: IssueStatus { name: status.to_string() },
            teams_link: link.map(|l| l.to_string()),
        }),
    }
}

fn changed(fields: &[&str]) -> ChangeLog {
    ChangeLog { items: fields.iter().map(|f| ChangeLogItem { field: f.to_string() }).collect() }
}

fn replies(request: &IssueRequest) -> Vec<(String, String)> {
    parse_issue(request).into_iter().map(|r| (r.message_id, r.body)).collect()
}

#[test]
fn webhook_events_are_classified() {
    assert_eq!(handle_jira_request("comment_created"), TicketEventKind::TicketCommentChanged);
    assert_eq!(handle_jira_request("comment_updated"), TicketEventKind::TicketCommentChanged);
    assert_eq!(handle_jira_request("jira:issue_updated"), TicketEventKind::TicketFieldChanged);
    assert_eq!(handle_jira_request("comment_deleted"), TicketEventKind::TicketFieldChanged);
    assert_eq!(handle_jira_request(""), TicketEventKind::TicketFieldChanged);
    assert_eq!(handle_jira_request("Comment_Created"), TicketEventKind::TicketFieldChanged);
}

#[test]
fn changed_fields_are_put_in_lower_case() {
    let log = changed(&["Assignee", "priority", "STATUS"]);
    assert_eq!(lower_changed_fields(&log.items), vec!["assignee", "priority", "status"]);
    assert!(lower_changed_fields(&Vec::new()).is_empty());
}

#[test]
fn replies_go_by_the_lower_case_names() {
    let fields = |names: &[&str]| names.iter().map(|n| n.to_string()).collect::<Vec<String>>();
    let ticket = issue("Done", Some("Ada"), Some(THREAD));
    let got: Vec<String> =
        replies_for_lowered(&ticket, &fields(&["status"]), "done").into_iter().map(|r| r.body).collect();
    assert_eq!(
        got,
        vec!["Статус задачи изменён на Done<br>Ваша задача закрыта. Если проблема сохранилась, заведите новую задачу"]
    );
    let got: Vec<String> = replies_for_lowered(&ticket, &fields(&["status"]), "implementation/test")
        .into_iter()
        .map(|r| r.body)
        .collect();
    assert_eq!(
        got,
        vec!["Статус задачи изменён на Done<br>Ваша задача выполнена. Проверьте и подтвердите, что всё ОК.<br>При отсутствиие ответа эта задача автоматически закроется через 7 дней"]
    );
    // Names that are not in lower case are not recognised here.
    assert!(replies_for_lowered(&ticket, &fields(&["Status", "Assignee"]), "done").is_empty());
    let got: Vec<String> =
        replies_for_lowered(&ticket, &fields(&["status"]), "Done").into_iter().map(|r| r.body).collect();
    assert_eq!(got, vec!["Статус задачи изменён на Done"]);
    let got: Vec<String> = replies_for_lowered(&ticket, &fields(&["assignee", "status"]), "open")
        .into_iter()
        .map(|r| r.body)
        .collect();
    assert_eq!(got, vec!["Вашей задачей будет заниматься Ada", "Статус задачи изменён на Done"]);
}

#[test]
fn assignee_change_is_announced() {
    let request = IssueRequest { issue: issue("Open", Some("Ada"), Some(THREAD)), changelog: changed(&["assignee"]) };
    assert_eq!(
        replies(&request),
        vec![("1700000000000".to_string(), "Вашей задачей будет заниматься Ada".to_string())]
    );
}

#[test]
fn assignee_change_without_assignee_is_silent() {
    let request = IssueRequest { issue: issue("Open", None, Some(THREAD)), changelog: changed(&["assignee"]) };
    assert!(replies(&request).is_empty());
}

#[test]
fn status_change_is_announced() {
    let request = IssueRequest { issue: issue("In Progress", None, Some(THREAD)), changelog: changed(&["status"]) };
    assert_eq!(
        replies(&request),
        vec![("1700000000000".to_string(), "Статус задачи изменён на In Progress".to_string())]
    );
}

#[test]
fn review_status_warns_about_closing() {
    let request = IssueRequest {
        issue: issue("implementation/test", None, Some(THREAD)),
        changelog: changed(&["Status"]),
    };
    assert_eq!(
        replies(&request),
        vec![(
            "1700000000000".to_string(),
            "Статус задачи изменён на implementation/test<br>Ваша задача выполнена. Проверьте и подтвердите, что всё ОК.<br>При отсутствиие ответа эта задача автоматически закроется через 7 дней".to_string()
        )]
    );
}

#[test]
fn final_status_announces_closure() {
    let request = IssueRequest { issue: issue("DONE", None, Some(THREAD)), changelog: changed(&["status"]) };
    assert_eq!(
        replies(&request),
        vec![(
            "1700000000000".to_string(),
            "Статус задачи изменён на DONE<br>Ваша задача закрыта. Если проблема сохранилась, заведите новую задачу".to_string()
        )]
    );
}

#[test]
fn both_changes_give_two_replies_assignee_first() {
    let request = IssueRequest {
        issue: issue("Open", Some("Ada"), Some(THREAD)),
        changelog: changed(&["status", "assignee"]),
    };
    let got = replies(&request);
    assert_eq!(got.len(), 2);
    assert_eq!(got[0].1, "Вашей задачей будет заниматься Ada");
    assert_eq!(got[1].1, "Статус задачи изменён на Open");
}

#[test]
fn other_changes_are_silent() {
    let request = IssueRequest {
        issue: issue("Done", Some("Ada"), Some(THREAD)),
        changelog: changed(&["description", "priority"]),
    };
    assert!(replies(&request).is_empty());
    let request = IssueRequest { issue: issue("Done", Some("Ada"), Some(THREAD)), changelog: changed(&[]) };
    assert!(replies(&request).is_empty());
}

#[test]
fn ticket_without_thread_is_silent() {
    let request = IssueRequest { issue: issue("Done", Some("Ada"), None), changelog: changed(&["status", "assignee"]) };
    assert!(replies(&request).is_empty());
    let request = IssueRequest {
        issue: issue("Done", Some("Ada"), Some("https://no-message-id")),
        changelog: changed(&["status", "assignee"]),
    };
    assert!(replies(&request).is_empty());
    let request = IssueRequest {
        issue: Issue { id: "1".into(), key: "K".into(), fields: None },
        changelog: changed(&["status"]),
    };
    assert!(replies(&request).is_empty());
}

fn comment_request() -> CommentRequest {
    CommentRequest {
        comment: JiraComment {
            id: "77".to_string(),
            body: "ignored".to_string(),
            update_author: JiraUser { account_id: "acc-1".to_string(), display_name: None, email_address: None },
            properties: None,
        },
        issue: IssueId { id: "500".to_string() },
    }
}

fn author(email: Option<&str>) -> JiraUser {
    JiraUser { account_id: "acc-1".to_string(), display_name: None, email_address: email.map(|e| e.to_string()) }
}

#[test]
fn new_comment_is_posted_and_tied_to_its_reply() {
    let cfg = config();
    let (state, action) = CommentPropagation::parse_comment(comment_request());
    match action {
        PropagationAction::FindAuthor(id) => assert_eq!(id, "acc-1"),
        _ => panic!("expected the author lookup"),
    }
    let (state, action) = state.step(PropagationEvent::AuthorFound(author(Some("ann@example.com"))), &cfg);
    match action {
        PropagationAction::ReadIssue(id) => assert_eq!(id, "500"),
        _ => panic!("expected the ticket to be read"),
    }
    let (state, action) = state.step(PropagationEvent::IssueRead(issue("Open", None, Some(THREAD))), &cfg);
    match action {
        PropagationAction::Render { issue_id, comment_id } => {
            assert_eq!(issue_id, "500");
            assert_eq!(comment_id, "77");
        }
        _ => panic!("expected the rendering"),
    }
    let (state, action) =
        state.step(PropagationEvent::Rendered { reply_id: None, html: "<p>hi</p>".to_string() }, &cfg);
    match action {
        PropagationAction::PostReply { message_id, body } => {
            assert_eq!(message_id, "1700000000000");
            assert_eq!(body, "<p>hi</p>");
        }
        _ => panic!("expected a new reply"),
    }
    let (state, action) = state.step(PropagationEvent::Posted("333".to_string()), &cfg);
    match action {
        PropagationAction::WriteMapping { comment_id, reply_id } => {
            assert_eq!(comment_id, "77");
            assert_eq!(reply_id, "333");
        }
        _ => panic!("expected the mapping"),
    }
    let (state, action) = state.step(PropagationEvent::MappingWritten, &cfg);
    assert!(matches!(state, CommentPropagation::Finished));
    assert!(matches!(action, PropagationAction::Done));
}

#[test]
fn tied_comment_edits_its_reply() {
    let cfg = config();
    let (state, _) = CommentPropagation::parse_comment(comment_request());
    let (state, _) = state.step(PropagationEvent::AuthorFound(author(None)), &cfg);
    let (state, _) = state.step(PropagationEvent::IssueRead(issue("Open", None, Some(THREAD))), &cfg);
    let (state, action) = state.step(
        PropagationEvent::Rendered { reply_id: Some("333".to_string()), html: "<p>edit</p>".to_string() },
        &cfg,
    );
    match action {
        PropagationAction::EditReply { message_id, reply_id, body } => {
            assert_eq!(message_id, "1700000000000");
            assert_eq!(reply_id, "333");
            assert_eq!(body, "<p>edit</p>");
        }
        _ => panic!("expected an edit"),
    }
    let (state, action) = state.step(PropagationEvent::Edited, &cfg);
    assert!(matches!(state, CommentPropagation::Finished));
    assert!(matches!(action, PropagationAction::Done));
}

#[test]
fn own_comments_are_not_propagated() {
    let cfg = config();
    let (state, _) = CommentPropagation::parse_comment(comment_request());
    let (state, action) = state.step(PropagationEvent::AuthorFound(author(Some("bot@example.COM"))), &cfg);
    assert!(matches!(state, CommentPropagation::Finished));
    assert!(matches!(action, PropagationAction::Done));
}

#[test]
fn comment_on_a_ticket_without_thread_is_not_propagated() {
    let cfg = config();
    let (state, _) = CommentPropagation::parse_comment(comment_request());
    let (state, _) = state.step(PropagationEvent::AuthorFound(author(None)), &cfg);
    let (state, action) = state.step(PropagationEvent::IssueRead(issue("Open", None, None)), &cfg);
    assert!(matches!(state, CommentPropagation::Finished));
    assert!(matches!(action, PropagationAction::Done));
}

#[test]
fn propagation_errors() {
    let cfg = config();
    let (state, _) = CommentPropagation::parse_comment(comment_request());
    let (state, action) = state.step(PropagationEvent::Failed, &cfg);
    assert!(matches!(action, PropagationAction::Abort(SyncError::UpstreamRequestFailure)));
    let (_, action) = state.step(PropagationEvent::Edited, &cfg);
    assert!(matches!(action, PropagationAction::Abort(SyncError::OutOfOrder)));
    let (state, _) = CommentPropagation::parse_comment(comment_request());
    let (_, action) = state.step(PropagationEvent::Edited, &cfg);
    assert!(matches!(action, PropagationAction::Abort(SyncError::OutOfOrder)));
}
