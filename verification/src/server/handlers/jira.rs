//! Webhooks of the ticket system: their authentication, their kinds, and
//! what each kind makes the chat side do.

use crate::encoding::hex_encode;
use crate::encoding::hex_text;
use crate::encoding::hmac_sha256;
use crate::encoding::hmac_sha256_tag;
use crate::encoding::lemma_hex_text_digits;
use crate::encoding::lemma_hex_text_injective;
use crate::jira_api::cfg::Config;
use crate::jira_api::comment::JiraComment;
use crate::jira_api::attachment::contains_name;
use crate::jira_api::issue::is_final_lowercase;
use crate::jira_api::issue::is_final_lowercase_name;
use crate::jira_api::issue::Issue;
use crate::jira_api::model::SyncError;
use crate::jira_api::user::JiraUser;
use crate::text::chars_of;
use crate::text::eq_ignoring_case;
use crate::text::find_from;
use crate::text::first_index_from;
use crate::text::last_index_before;
use crate::text::lemma_first_index_from;
use crate::text::lemma_last_index_before;
use crate::text::lemma_split_once;
use crate::text::lowercase;
use crate::text::to_lowercase;
use crate::text::rfind_before;
use crate::text::same_ignoring_case;
use crate::text::split;
use crate::text::split_on;
use crate::text::str_eq;
use crate::text::substring;
use vstd::prelude::*;
use vstd::string::*;

verus! {

/// A webhook about a changed ticket.
pub struct IssueRequest {
    pub issue: Issue,
    pub changelog: ChangeLog,
}

/// A webhook about a created or changed comment.
pub struct CommentRequest {
    pub comment: JiraComment,
    pub issue: IssueId,
}

/// The ticket a comment webhook refers to.
pub struct IssueId {
    pub id: String,
}

/// The fields that a ticket webhook reports as changed.
pub struct ChangeLog {
    pub items: Vec<ChangeLogItem>,
}

/// One changed field.
pub struct ChangeLogItem {
    pub field: String,
}

/// The signature header of a webhook, taken apart.
pub struct Signature {
    pub method: String,
    pub value: String,
}

/// Why a webhook is not accepted as coming from the ticket system.
#[derive(Clone, Copy, Debug, PartialEq, Eq, Structural)]
pub enum SignatureError {
    /// The request has no headers at all.
    NoHeaders,
    /// The request has no readable signature header.
    MissingHeader,
    /// The header is not of the form `method=digest`.
    BadFormat,
    /// The method is not `sha256`.
    WrongMethod,
    /// The digest machinery refused the secret as a key.
    KeyRejected,
    /// The digest is not that of the body under the secret.
    WrongSignature,
}

/// What a ticket webhook is about.
#[derive(Clone, Copy, Debug, PartialEq, Eq, Structural)]
pub enum TicketEventKind {
    /// A comment was created or changed.
    TicketCommentChanged,
    /// Anything else: a field of the ticket changed.
    TicketFieldChanged,
}

/// A reply to be posted to a chat thread.
pub struct ThreadReply {
    pub message_id: String,
    pub body: String,
}

/// The only signing method that is accepted.
pub const SIGNATURE_METHOD: &'static str = "sha256";

pub const ASSIGNEE_NOTICE: &'static str = "Вашей задачей будет заниматься ";

pub const STATUS_NOTICE: &'static str = "Статус задачи изменён на ";

/// The status in which a ticket waits for the reporter's confirmation, in
/// lower case.
pub const REVIEW_STATUS: &'static str = "implementation/test";

pub const REVIEW_NOTE: &'static str =
    "<br>Ваша задача выполнена. Проверьте и подтвердите, что всё ОК.<br>При отсутствиие ответа эта задача автоматически закроется через 7 дней";

pub const CLOSED_NOTE: &'static str =
    "<br>Ваша задача закрыта. Если проблема сохранилась, заведите новую задачу";

/// What a signature header stands for.
pub open spec fn parsed_signature(header_count: int, header: Option<Seq<char>>) -> Result<
    (Seq<char>, Seq<char>),
    SignatureError,
> {
    if header_count == 0 {
        Err(SignatureError::NoHeaders)
    } else {
        match header {
            None => Err(SignatureError::MissingHeader),
            Some(text) => if split(text, '=').len() == 2 {
                Ok((split(text, '=')[0], split(text, '=')[1]))
            } else {
                Err(SignatureError::BadFormat)
            },
        }
    }
}

/// Whether `value`, made with `method`, authenticates `payload` under `key`.
pub open spec fn signature_check(
    payload: Seq<u8>,
    key: Seq<u8>,
    method: Seq<char>,
    value: Seq<char>,
) -> Result<(), SignatureError> {
    if method != SIGNATURE_METHOD@ {
        Err(SignatureError::WrongMethod)
    } else {
        match hmac_sha256(key, payload) {
            None => Err(SignatureError::KeyRejected),
            Some(tag) => if hex_text(tag) == value {
                Ok(())
            } else {
                Err(SignatureError::WrongSignature)
            },
        }
    }
}

/// Whether the header authenticates `payload` under `key`.
pub open spec fn webhook_check(
    payload: Seq<u8>,
    header_count: int,
    header: Option<Seq<char>>,
    key: Seq<u8>,
) -> Result<(), SignatureError> {
    match parsed_signature(header_count, header) {
        Err(e) => Err(e),
        Ok((method, value)) => signature_check(payload, key, method, value),
    }
}

/// The id of the chat message that a thread URL points to: what stands
/// between the last slash and the first question mark after it.
pub open spec fn thread_message_id(url: Seq<char>) -> Option<Seq<char>> {
    let slash = last_index_before(url, '/', url.len() as int);
    if slash < 0 {
        None
    } else {
        let mark = first_index_from(url, '?', slash + 1);
        if mark >= url.len() {
            None
        } else {
            Some(url.subrange(slash + 1, mark))
        }
    }
}

/// What a webhook with the event name `event` is about.
pub open spec fn event_kind(event: Seq<char>) -> TicketEventKind {
    if event == "comment_created"@ || event == "comment_updated"@ {
        TicketEventKind::TicketCommentChanged
    } else {
        TicketEventKind::TicketFieldChanged
    }
}

/// The names of the changed fields, each put in lower case.
pub open spec fn lowered_fields(items: Seq<ChangeLogItem>) -> Seq<Seq<char>> {
    Seq::new(items.len(), |i: int| lowercase(items[i].field@))
}

/// The status of a ticket, an unknown one counting as empty.
pub open spec fn status_name(issue: Issue) -> Seq<char> {
    match issue.fields {
        Some(f) => f.status.name@,
        None => Seq::empty(),
    }
}

/// The reply that tells the thread about the ticket's new status, whose
/// name in lower case is `status_lower`: the status as it is written,
/// followed by a note where the ticket now waits for confirmation or is
/// closed.
pub open spec fn status_reply(status: Seq<char>, status_lower: Seq<char>) -> Seq<char> {
    STATUS_NOTICE@ + status + if status_lower == REVIEW_STATUS@ {
        REVIEW_NOTE@
    } else if is_final_lowercase(status_lower) {
        CLOSED_NOTE@
    } else {
        Seq::empty()
    }
}

/// The display name of the assignee, where there is one.
pub open spec fn assignee_name(issue: Issue) -> Option<Seq<char>> {
    match issue.fields {
        Some(f) => match f.assignee {
            Some(a) => match a.display_name {
                Some(name) => Some(name@),
                None => None,
            },
            None => None,
        },
        None => None,
    }
}

/// The thread URL of a ticket.
pub open spec fn thread_url(issue: Issue) -> Option<Seq<char>> {
    match issue.fields {
        Some(f) => match f.teams_link {
            Some(link) => Some(link@),
            None => None,
        },
        None => None,
    }
}

/// The replies that a ticket change calls for, as pairs of message id and
/// text, where `fields_lower` holds the names of the changed fields and
/// `status_lower` the name of the status, all in lower case: one about the
/// assignee where `assignee` is among the fields and the assignee is known,
/// then one about the status where `status` is among the fields. A ticket
/// without a thread URL, or with one that names no message, calls for none.
pub open spec fn replies_for(
    issue: Issue,
    fields_lower: Seq<Seq<char>>,
    status_lower: Seq<char>,
) -> Seq<(Seq<char>, Seq<char>)> {
    match thread_url(issue) {
        None => Seq::empty(),
        Some(url) => match thread_message_id(url) {
            None => Seq::empty(),
            Some(message_id) => {
                let about_assignee = if fields_lower.contains("assignee"@) && assignee_name(issue)
                    is Some {
                    seq![(message_id, ASSIGNEE_NOTICE@ + assignee_name(issue)->0)]
                } else {
                    Seq::empty()
                };
                let about_status = if fields_lower.contains("status"@) {
                    seq![(message_id, status_reply(status_name(issue), status_lower))]
                } else {
                    Seq::empty()
                };
                about_assignee + about_status
            },
        },
    }
}

/// The replies that a ticket change calls for.
pub open spec fn change_replies(issue: Issue, items: Seq<ChangeLogItem>) -> Seq<
    (Seq<char>, Seq<char>),
> {
    replies_for(issue, lowered_fields(items), lowercase(status_name(issue)))
}

/// Message ids and texts of a list of replies.
pub open spec fn replies_view(replies: Seq<ThreadReply>) -> Seq<(Seq<char>, Seq<char>)> {
    Seq::new(replies.len(), |i: int| (replies[i].message_id@, replies[i].body@))
}

/// Takes the signature header apart. `header_count` is the number of
/// headers of the request, and `header` the signature header where the
/// request has one that is readable text.
pub fn get_signature_from_headers(header_count: usize, header: Option<&str>) -> (r: Result<
    Signature,
    SignatureError,
>)
    ensures
        match r {
            Ok(signature) => parsed_signature(header_count as int, header.deep_view()) == Ok::<
                (Seq<char>, Seq<char>),
                SignatureError,
            >((signature.method@, signature.value@)),
            Err(e) => parsed_signature(header_count as int, header.deep_view()) == Err::<
                (Seq<char>, Seq<char>),
                SignatureError,
            >(e),
        },
{
    if header_count == 0 {
        return Err(SignatureError::NoHeaders);
    }
    let text = match header {
        Some(text) => text,
        None => { return Err(SignatureError::MissingHeader); },
    };
    let mut parts = split_on(text, '=');
    if parts.len() != 2 {
        return Err(SignatureError::BadFormat);
    }
    assert(parts.deep_view()[0] == parts@[0]@ && parts.deep_view()[1] == parts@[1]@);
    let value = parts.pop();
    let method = parts.pop();
    match (method, value) {
        (Some(method), Some(value)) => Ok(Signature { method, value }),
        _ => Err(SignatureError::BadFormat),
    }
}

/// Accepts the signature exactly when its method is `sha256` and its value
/// is the lower-case hexadecimal HMAC-SHA256 of `payload` under `secret`.
pub fn validate_signature(payload: &[u8], secret: &str, signature: &Signature) -> (r: Result<
    (),
    SignatureError,
>)
    ensures
        r == signature_check(payload@, secret.spec_bytes(), signature.method@, signature.value@),
{
    if !str_eq(signature.method.as_str(), SIGNATURE_METHOD) {
        return Err(SignatureError::WrongMethod);
    }
    let tag = match hmac_sha256_tag(secret.as_bytes(), payload) {
        Ok(tag) => tag,
        Err(_) => { return Err(SignatureError::KeyRejected); },
    };
    if digest_matches(tag.as_slice(), signature.value.as_str()) {
        Ok(())
    } else {
        Err(SignatureError::WrongSignature)
    }
}

/// Whether `value` is the lower-case hexadecimal form of the digest `tag`.
pub fn digest_matches(tag: &[u8], value: &str) -> (r: bool)
    ensures
        r == (hex_text(tag@) == value@),
{
    let digest = hex_encode(tag);
    str_eq(digest.as_str(), value)
}

/// Authenticates a webhook of the ticket system: the signature header has
/// to be there, be of the form `sha256=<digest>`, and carry the digest of
/// the raw body under the shared secret.
pub fn verify_ticket_webhook(
    payload: &[u8],
    header_count: usize,
    header: Option<&str>,
    secret: &str,
) -> (r: Result<(), SignatureError>)
    ensures
        r == webhook_check(
            payload@,
            header_count as int,
            header.deep_view(),
            secret.spec_bytes(),
        ),
{
    match get_signature_from_headers(header_count, header) {
        Ok(signature) => validate_signature(payload, secret, &signature),
        Err(e) => Err(e),
    }
}

/// A signature made for one body and one digest stands for nothing else.
/// The digest of a body under the key, written in hexadecimal and sent with
/// the method `sha256`, is accepted. Where a signature is accepted, the same
/// signature with any other digest text is rejected, and so is the same
/// signature on any body whose keyed digest differs from that of the body it
/// was made for.
pub proof fn lemma_signature_rejection(
    payload: Seq<u8>,
    other_payload: Seq<u8>,
    key: Seq<u8>,
    method: Seq<char>,
    value: Seq<char>,
    other_value: Seq<char>,
)
    ensures
        hmac_sha256(key, payload) is Some ==> signature_check(
            payload,
            key,
            SIGNATURE_METHOD@,
            hex_text(hmac_sha256(key, payload)->0),
        ) is Ok,
        signature_check(payload, key, method, value) is Ok && other_value != value
            ==> signature_check(payload, key, method, other_value) is Err,
        signature_check(payload, key, method, value) is Ok && hmac_sha256(key, other_payload)
            != hmac_sha256(key, payload) ==> signature_check(other_payload, key, method, value)
            is Err,
{
    if signature_check(payload, key, method, value) is Ok && hmac_sha256(key, other_payload)
        != hmac_sha256(key, payload) {
        match hmac_sha256(key, other_payload) {
            Some(other_tag) => {
                let tag = hmac_sha256(key, payload)->0;
                if hex_text(other_tag) == value {
                    lemma_hex_text_injective(other_tag, tag);
                }
            },
            None => {},
        }
    }
}

/// A webhook signed with the secret is accepted: where the signature header
/// is `sha256=` followed by the hexadecimal digest of the body under the
/// key, and the request has headers at all, the check passes.
pub proof fn lemma_signed_webhook_is_accepted(payload: Seq<u8>, key: Seq<u8>, header_count: int)
    requires
        header_count > 0,
        hmac_sha256(key, payload) is Some,
    ensures
        webhook_check(
            payload,
            header_count,
            Some(SIGNATURE_METHOD@ + seq!['='] + hex_text(hmac_sha256(key, payload)->0)),
            key,
        ) is Ok,
{
    let digest = hex_text(hmac_sha256(key, payload)->0);
    reveal_strlit("sha256");
    assert forall|i: int| 0 <= i < digest.len() implies digest[i] != '=' by {
        lemma_hex_text_digits(hmac_sha256(key, payload)->0, i);
    }
    lemma_split_once(SIGNATURE_METHOD@, digest, '=');
}

/// The id of the chat message that a thread URL points to.
pub fn extract_message_id_from_url(url: &str) -> (r: Option<String>)
    ensures
        r.deep_view() == thread_message_id(url@),
{
    let chars = chars_of(url);
    proof {
        lemma_last_index_before(url@, '/', url@.len() as int);
    }
    let slash = match rfind_before(&chars, '/', chars.len()) {
        Some(slash) => slash,
        None => { return None; },
    };
    proof {
        lemma_first_index_from(url@, '?', slash + 1);
    }
    let mark = find_from(&chars, '?', slash + 1);
    if mark >= chars.len() {
        return None;
    }
    Some(substring(url, slash + 1, mark))
}

/// The id is read back from a thread URL that was made with it: where a URL
/// ends in a slash, the id, a question mark and a query, and neither the id
/// nor the query holds a slash, nor the id a question mark, the id that is
/// read from the URL is that id.
pub proof fn lemma_message_id_is_read_back(path: Seq<char>, id: Seq<char>, query: Seq<char>)
    requires
        forall|i: int| 0 <= i < id.len() ==> id[i] != '/' && id[i] != '?',
        forall|i: int| 0 <= i < query.len() ==> query[i] != '/',
    ensures
        thread_message_id(path + seq!['/'] + id + seq!['?'] + query) == Some(id),
{
    let url = path + seq!['/'] + id + seq!['?'] + query;
    let slash = path.len() as int;
    let mark = slash + 1 + id.len();
    assert(url[slash] == '/');
    assert(url[mark] == '?');
    assert forall|k: int| slash < k < url.len() implies url[k] != '/' by {
        if k < mark {
            assert(url[k] == id[k - slash - 1]);
        } else if k > mark {
            assert(url[k] == query[k - mark - 1]);
        }
    }
    assert forall|k: int| slash < k < mark implies url[k] != '?' by {
        assert(url[k] == id[k - slash - 1]);
    }
    lemma_last_index_before(url, '/', url.len() as int);
    let found = last_index_before(url, '/', url.len() as int);
    assert(found == slash) by {
        if found < slash {
            assert(url[slash] != '/');
        }
    }
    lemma_first_index_from(url, '?', slash + 1);
    let first = first_index_from(url, '?', slash + 1);
    assert(first == mark) by {
        if first > mark {
            assert(url[mark] != '?');
        }
    }
    assert(url.subrange(slash + 1, mark) =~= id);
}

/// What a webhook with the event name `webhook_event` is about.
pub fn handle_jira_request(webhook_event: &str) -> (r: TicketEventKind)
    ensures
        r == event_kind(webhook_event@),
{
    if str_eq(webhook_event, "comment_created") || str_eq(webhook_event, "comment_updated") {
        TicketEventKind::TicketCommentChanged
    } else {
        TicketEventKind::TicketFieldChanged
    }
}

/// The names of the changed fields, each put in lower case.
pub fn lower_changed_fields(items: &Vec<ChangeLogItem>) -> (r: Vec<String>)
    ensures
        r.deep_view() == lowered_fields(items@),
{
    let mut r: Vec<String> = Vec::new();
    let mut k: usize = 0;
    while k < items.len()
        invariant
            k <= items.len(),
            r@.len() == k,
            forall|i: int| 0 <= i < k ==> r@[i]@ == lowercase(items@[i].field@),
        decreases items.len() - k,
    {
        r.push(to_lowercase(items[k].field.as_str()));
        k += 1;
    }
    assert(r.deep_view() =~= lowered_fields(items@));
    r
}

/// The replies that a ticket change calls for, given the names of the
/// changed fields and the name of the ticket's status in lower case. A
/// change of assignee is announced with the assignee's name; a change of
/// status with the new status, followed by a note where the ticket now
/// waits for confirmation or is closed. Nothing is sent unless the field is
/// among those that changed.
pub fn replies_for_lowered(issue: &Issue, fields_lower: &Vec<String>, status_lower: &str) -> (replies:
    Vec<ThreadReply>)
    ensures
        replies_view(replies@) == replies_for(*issue, fields_lower.deep_view(), status_lower@),
{
    let mut replies: Vec<ThreadReply> = Vec::new();
    let fields = match &issue.fields {
        Some(fields) => fields,
        None => {
            assert(replies_view(replies@) =~= Seq::empty());
            return replies;
        },
    };
    let link = match &fields.teams_link {
        Some(link) => link,
        None => {
            assert(replies_view(replies@) =~= Seq::empty());
            return replies;
        },
    };
    let message_id = match extract_message_id_from_url(link.as_str()) {
        Some(message_id) => message_id,
        None => {
            assert(replies_view(replies@) =~= Seq::empty());
            return replies;
        },
    };
    if contains_name(fields_lower, "assignee") {
        match &fields.assignee {
            Some(assignee) => match &assignee.display_name {
                Some(name) => {
                    let mut body = ASSIGNEE_NOTICE.to_string();
                    body.append(name.as_str());
                    replies.push(ThreadReply { message_id: message_id.clone(), body });
                },
                None => {},
            },
            None => {},
        }
    }
    if contains_name(fields_lower, "status") {
        let mut body = STATUS_NOTICE.to_string();
        body.append(fields.status.name.as_str());
        if str_eq(status_lower, REVIEW_STATUS) {
            body.append(REVIEW_NOTE);
        } else if is_final_lowercase_name(status_lower) {
            body.append(CLOSED_NOTE);
        }
        assert(body@ =~= status_reply(status_name(*issue), status_lower@));
        replies.push(ThreadReply { message_id, body });
    }
    assert(replies_view(replies@) =~= replies_for(
        *issue,
        fields_lower.deep_view(),
        status_lower@,
    ));
    replies
}

/// The replies that a ticket change calls for. The names of the changed
/// fields and of the status are compared in lower case.
pub fn parse_issue(request: &IssueRequest) -> (replies: Vec<ThreadReply>)
    ensures
        replies_view(replies@) == change_replies(request.issue, request.changelog.items@),
{
    let fields_lower = lower_changed_fields(&request.changelog.items);
    let status_lower = match &request.issue.fields {
        Some(fields) => to_lowercase(fields.status.name.as_str()),
        None => {
            proof {
                reveal_strlit("");
                assert(""@ =~= Seq::<char>::empty());
            }
            to_lowercase("")
        },
    };
    replies_for_lowered(&request.issue, &fields_lower, status_lower.as_str())
}

/// Where the propagation of a ticket comment to its chat thread stands.
pub enum CommentPropagation {
    AwaitingAuthor { comment_id: String, issue_id: String },
    AwaitingIssue { comment_id: String },
    AwaitingRendering { comment_id: String, message_id: String },
    AwaitingPost { comment_id: String },
    AwaitingEdit,
    AwaitingMapping,
    Finished,
}

/// The outcome of the outside work that a propagation asked for.
pub enum PropagationEvent {
    AuthorFound(JiraUser),
    IssueRead(Issue),
    /// The comment as HTML, and the id of the reply it is tied to, if any.
    Rendered { reply_id: Option<String>, html: String },
    /// The reply was posted and has this id.
    Posted(String),
    Edited,
    MappingWritten,
    /// The work could not be done.
    Failed,
}

/// The outside work that a propagation asks for next, or its end.
pub enum PropagationAction {
    /// Look up the user with this account id.
    FindAuthor(String),
    ReadIssue(String),
    /// Read the comment with its properties and render it as HTML.
    Render { issue_id: String, comment_id: String },
    EditReply { message_id: String, reply_id: String, body: String },
    PostReply { message_id: String, body: String },
    /// Write the reply id into the comment's reply property.
    WriteMapping { comment_id: String, reply_id: String },
    /// The propagation is over; nothing more is to be done.
    Done,
    Abort(SyncError),
}

/// The comment was written by the integration itself.
pub open spec fn is_own_comment(author: JiraUser, service_user: Seq<char>) -> bool {
    author.email_address matches Some(address) && same_ignoring_case(address@, service_user)
}

/// The thread URL of a ticket, a missing one counting as empty.
pub open spec fn thread_url_or_empty(issue: Issue) -> Seq<char> {
    match thread_url(issue) {
        Some(url) => url,
        None => Seq::empty(),
    }
}

/// What a propagation does with an outcome: the state it moves to and the
/// action it hands out.
pub open spec fn propagation_step(
    pre: CommentPropagation,
    event: PropagationEvent,
    config: Config,
    post: CommentPropagation,
    action: PropagationAction,
) -> bool {
    match (pre, event) {
        (
            CommentPropagation::AwaitingAuthor { comment_id, issue_id },
            PropagationEvent::AuthorFound(author),
        ) => if is_own_comment(author, config.user@) {
            post is Finished && action == PropagationAction::Done
        } else {
            post == (CommentPropagation::AwaitingIssue { comment_id }) && action
                == PropagationAction::ReadIssue(issue_id)
        },
        (
            CommentPropagation::AwaitingIssue { comment_id },
            PropagationEvent::IssueRead(issue),
        ) => match thread_message_id(thread_url_or_empty(issue)) {
            None => post is Finished && action == PropagationAction::Done,
            Some(id) => {
                &&& post matches CommentPropagation::AwaitingRendering {
                    comment_id: c,
                    message_id,
                }
                &&& c == comment_id
                &&& message_id@ == id
                &&& action matches PropagationAction::Render { issue_id, comment_id: shown }
                &&& issue_id == issue.id
                &&& shown@ == comment_id@
            },
        },
        (
            CommentPropagation::AwaitingRendering { comment_id, message_id },
            PropagationEvent::Rendered { reply_id, html },
        ) => match reply_id {
            Some(reply_id) => post is AwaitingEdit && action == (PropagationAction::EditReply {
                message_id,
                reply_id,
                body: html,
            }),
            None => post == (CommentPropagation::AwaitingPost { comment_id }) && action == (
                PropagationAction::PostReply { message_id, body: html }),
        },
        (CommentPropagation::AwaitingPost { comment_id }, PropagationEvent::Posted(reply_id)) => {
            post is AwaitingMapping && action == (PropagationAction::WriteMapping {
                comment_id,
                reply_id,
            })
        },
        (CommentPropagation::AwaitingEdit, PropagationEvent::Edited) => post is Finished
            && action == PropagationAction::Done,
        (CommentPropagation::AwaitingMapping, PropagationEvent::MappingWritten) => post
            is Finished && action == PropagationAction::Done,
        (CommentPropagation::Finished, _) => post is Finished && action
            == PropagationAction::Abort(SyncError::OutOfOrder),
        (_, PropagationEvent::Failed) => post is Finished && action == PropagationAction::Abort(
            SyncError::UpstreamRequestFailure,
        ),
        _ => post is Finished && action == PropagationAction::Abort(SyncError::OutOfOrder),
    }
}

impl CommentPropagation {
    /// Begins the propagation of a comment: its author is looked up first.
    pub fn parse_comment(request: CommentRequest) -> (r: (CommentPropagation, PropagationAction))
        ensures
            r.0 == (CommentPropagation::AwaitingAuthor {
                comment_id: request.comment.id,
                issue_id: request.issue.id,
            }),
            r.1 == PropagationAction::FindAuthor(request.comment.update_author.account_id),
    {
        (
            CommentPropagation::AwaitingAuthor {
                comment_id: request.comment.id,
                issue_id: request.issue.id,
            },
            PropagationAction::FindAuthor(request.comment.update_author.account_id),
        )
    }

    /// Takes the outcome of the action that was handed out last, and hands
    /// out the next one. A comment written by the integration's own account
    /// is not propagated, nor one on a ticket without a chat thread. A
    /// comment that is tied to a reply edits that reply; any other is posted
    /// as a new reply and then tied to it.
    pub fn step(self, event: PropagationEvent, config: &Config) -> (r: (
        CommentPropagation,
        PropagationAction,
    ))
        ensures
            propagation_step(self, event, *config, r.0, r.1),
    {
        match (self, event) {
            (
                CommentPropagation::AwaitingAuthor { comment_id, issue_id },
                PropagationEvent::AuthorFound(author),
            ) => {
                let own = match &author.email_address {
                    Some(address) => eq_ignoring_case(address.as_str(), config.user.as_str()),
                    None => false,
                };
                if own {
                    (CommentPropagation::Finished, PropagationAction::Done)
                } else {
                    (
                        CommentPropagation::AwaitingIssue { comment_id },
                        PropagationAction::ReadIssue(issue_id),
                    )
                }
            },
            (
                CommentPropagation::AwaitingIssue { comment_id },
                PropagationEvent::IssueRead(issue),
            ) => {
                let found = match &issue.fields {
                    Some(fields) => match &fields.teams_link {
                        Some(link) => extract_message_id_from_url(link.as_str()),
                        None => extract_message_id_from_url(""),
                    },
                    None => extract_message_id_from_url(""),
                };
                proof {
                    reveal_strlit("");
                    assert(""@ =~= Seq::<char>::empty());
                }
                match found {
                    Some(message_id) => {
                        let shown = comment_id.clone();
                        (
                            CommentPropagation::AwaitingRendering { comment_id, message_id },
                            PropagationAction::Render { issue_id: issue.id, comment_id: shown },
                        )
                    },
                    None => (CommentPropagation::Finished, PropagationAction::Done),
                }
            },
            (
                CommentPropagation::AwaitingRendering { comment_id, message_id },
                PropagationEvent::Rendered { reply_id, html },
            ) => {
                match reply_id {
                    Some(reply_id) => (
                        CommentPropagation::AwaitingEdit,
                        PropagationAction::EditReply { message_id, reply_id, body: html },
                    ),
                    None => (
                        CommentPropagation::AwaitingPost { comment_id },
                        PropagationAction::PostReply { message_id, body: html },
                    ),
                }
            },
            (
                CommentPropagation::AwaitingPost { comment_id },
                PropagationEvent::Posted(reply_id),
            ) => (
                CommentPropagation::AwaitingMapping,
                PropagationAction::WriteMapping { comment_id, reply_id },
            ),
            (CommentPropagation::AwaitingEdit, PropagationEvent::Edited) => {
                (CommentPropagation::Finished, PropagationAction::Done)
            },
            (CommentPropagation::AwaitingMapping, PropagationEvent::MappingWritten) => {
                (CommentPropagation::Finished, PropagationAction::Done)
            },
            (CommentPropagation::Finished, _) => (
                CommentPropagation::Finished,
                PropagationAction::Abort(SyncError::OutOfOrder),
            ),
            (_, PropagationEvent::Failed) => (
                CommentPropagation::Finished,
                PropagationAction::Abort(SyncError::UpstreamRequestFailure),
            ),
            _ => (CommentPropagation::Finished, PropagationAction::Abort(SyncError::OutOfOrder)),
        }
    }
}

/// How many outcomes a propagation can still take, at most, before it is
/// over.
pub open spec fn propagation_steps_left(state: CommentPropagation) -> nat {
    match state {
        CommentPropagation::AwaitingAuthor { .. } => 5,
        CommentPropagation::AwaitingIssue { .. } => 4,
        CommentPropagation::AwaitingRendering { .. } => 3,
        CommentPropagation::AwaitingPost { .. } => 2,
        CommentPropagation::AwaitingEdit => 1,
        CommentPropagation::AwaitingMapping => 1,
        CommentPropagation::Finished => 0,
    }
}

/// Every propagation ends, and the integration never answers itself: each
/// outcome brings a propagation strictly nearer to its end, and a comment
/// whose author has the address of the integration's own account ends it
/// at once, with nothing posted.
pub proof fn lemma_propagation_ends(
    pre: CommentPropagation,
    event: PropagationEvent,
    config: Config,
    post: CommentPropagation,
    action: PropagationAction,
)
    requires
        propagation_step(pre, event, config, post, action),
    ensures
        !(pre is Finished) ==> propagation_steps_left(post) < propagation_steps_left(pre),
        pre is Finished ==> post is Finished,
        post is Finished <==> (action is Done || action is Abort),
        pre is AwaitingAuthor ==> (event matches PropagationEvent::AuthorFound(author)
            ==> (is_own_comment(author, config.user@) ==> action is Done)),
{
}

} // verus!
