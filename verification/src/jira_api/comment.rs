//! Ticket comments: the hidden property that ties a comment to a chat
//! reply, and the step-by-step synchronisation of a reply into a comment.

use crate::jira_api::attachment::extract_image_refs;
use crate::jira_api::attachment::find_old_attached_images;
use crate::jira_api::attachment::is_plan_for;
use crate::jira_api::attachment::names_of;
use crate::jira_api::attachment::placeholder_names;
use crate::jira_api::attachment::plan_attachment_changes;
use crate::jira_api::attachment::replace_images_in_description;
use crate::jira_api::attachment::with_images_placed;
use crate::jira_api::attachment::AttachmentPlan;
use crate::jira_api::attachment::FetchedImage;
use crate::jira_api::attachment::GRAPH_URL_PATTERN;
use crate::jira_api::attachment::PLACEHOLDER_PATTERN;
use crate::jira_api::cfg::Config;
use crate::jira_api::issue::attachments_of;
use crate::jira_api::issue::attribute;
use crate::jira_api::issue::attributed;
use crate::jira_api::issue::author_tag;
use crate::jira_api::issue::existing_ticket;
use crate::jira_api::issue::images_of;
use crate::jira_api::issue::search_query;
use crate::jira_api::issue::take_images;
use crate::jira_api::issue::text_for_ticket;
use crate::jira_api::issue::ticket_text;
use crate::jira_api::issue::Issue;
use crate::jira_api::issue::CLOSED_TICKET_NOTICE;
use crate::jira_api::model::SyncError;
use crate::jira_api::user::JiraUser;
use crate::markup::convertible;
use crate::markup::is_convertible;
use crate::ms_graph_api::image::GraphApiImage;
use crate::ms_graph_api::message::TeamsAttachment;
use crate::pattern::regex_find_all;
use crate::sorting::is_sorted_set_of;
use crate::text::str_eq;
use vstd::prelude::*;
use vstd::string::*;

verus! {

/// A comment on a ticket.
pub struct JiraComment {
    pub id: String,
    pub body: String,
    pub update_author: JiraUser,
    pub properties: Option<Vec<JiraCommentProperty>>,
}

/// A hidden property of a comment.
pub struct JiraCommentProperty {
    pub key: String,
    pub value: Option<JiraCommentPropertyValue>,
}

/// The value of the property that ties a comment to a chat reply.
pub struct JiraCommentPropertyValue {
    pub teams_id: String,
}

/// The text of a comment that is to be created or updated.
pub struct CommentDraft {
    pub body: String,
}

/// The key of the property that holds the id of a comment's chat reply.
pub const PROPERTY_KEY: &'static str = "teams_id";

/// Position of the first property with the key `key`, or `-1`.
pub open spec fn property_index(properties: Seq<JiraCommentProperty>, key: Seq<char>) -> int
    decreases properties.len(),
{
    if properties.len() == 0 {
        -1
    } else {
        let earlier = property_index(properties.drop_last(), key);
        if earlier >= 0 {
            earlier
        } else if properties.last().key@ == key {
            properties.len() - 1
        } else {
            -1
        }
    }
}

/// The id of the chat reply a comment belongs to: the value of its first
/// reply property, where it has properties, one of them has the key, and
/// that one has a value.
pub open spec fn reply_id_of(comment: JiraComment) -> Option<Seq<char>> {
    match comment.properties {
        None => None,
        Some(properties) => {
            let at = property_index(properties@, PROPERTY_KEY@);
            if at < 0 {
                None
            } else {
                match properties@[at].value {
                    Some(value) => Some(value.teams_id@),
                    None => None,
                }
            }
        },
    }
}

/// The comment is the one for the reply `reply_id`: it is tied to a reply,
/// and to this one.
pub open spec fn answers_to(comment: JiraComment, reply_id: Seq<char>) -> bool {
    reply_id_of(comment) == Some(reply_id)
}

/// `at` is the first comment for the reply `reply_id`.
pub open spec fn is_first_answering(comments: Seq<JiraComment>, reply_id: Seq<char>, at: int) -> bool {
    &&& 0 <= at < comments.len()
    &&& answers_to(comments[at], reply_id)
    &&& forall|j: int| 0 <= j < at ==> !answers_to(#[trigger] comments[j], reply_id)
}

/// The comment that a listing holds for the reply `reply_id`, if any.
pub open spec fn is_comment_for(
    found: Option<JiraComment>,
    comments: Seq<JiraComment>,
    reply_id: Seq<char>,
) -> bool {
    match found {
        Some(comment) => exists|at: int|
            is_first_answering(comments, reply_id, at) && comment == comments[at],
        None => forall|j: int|
            0 <= j < comments.len() ==> !answers_to(#[trigger] comments[j], reply_id),
    }
}

/// Position of the first property with the key `key`.
pub fn find_property(properties: &Vec<JiraCommentProperty>, key: &str) -> (r: Option<usize>)
    ensures
        match r {
            Some(at) => at as int == property_index(properties@, key@) && at < properties.len(),
            None => property_index(properties@, key@) < 0,
        },
{
    let mut k: usize = 0;
    while k < properties.len()
        invariant
            k <= properties.len(),
            property_index(properties@.take(k as int), key@) < 0,
        decreases properties.len() - k,
    {
        let ghost next = properties@.take(k + 1);
        assert(next.drop_last() =~= properties@.take(k as int));
        assert(next.last() == properties@[k as int]);
        if str_eq(properties[k].key.as_str(), key) {
            proof {
                lemma_property_index_stable(properties@, key@, k + 1);
            }
            return Some(k);
        }
        k += 1;
    }
    assert(properties@.take(k as int) =~= properties@);
    None
}

/// A hit among the first `k` properties is the hit in the whole list.
pub proof fn lemma_property_index_stable(
    properties: Seq<JiraCommentProperty>,
    key: Seq<char>,
    k: int,
)
    requires
        0 <= k <= properties.len(),
        property_index(properties.take(k), key) >= 0,
    ensures
        property_index(properties, key) == property_index(properties.take(k), key),
    decreases properties.len() - k,
{
    if k < properties.len() {
        assert(properties.take(k + 1).drop_last() =~= properties.take(k));
        lemma_property_index_stable(properties, key, k + 1);
    } else {
        assert(properties.take(k) =~= properties);
    }
}

impl JiraComment {
    /// The id of the chat reply this comment belongs to.
    pub fn get_reply_id(&self) -> (r: Option<String>)
        ensures
            r.deep_view() == reply_id_of(*self),
    {
        match &self.properties {
            None => None,
            Some(properties) => match find_property(properties, PROPERTY_KEY) {
                None => None,
                Some(at) => match &properties[at].value {
                    Some(value) => Some(value.teams_id.clone()),
                    None => None,
                },
            },
        }
    }

    /// Whether this is the comment for the reply `reply_id`.
    pub fn is_for_reply(&self, reply_id: &str) -> (r: bool)
        ensures
            r == answers_to(*self, reply_id@),
    {
        match self.get_reply_id() {
            Some(id) => str_eq(id.as_str(), reply_id),
            None => false,
        }
    }

    /// The first comment of a listing that belongs to the reply `reply_id`.
    pub fn find(comments: Vec<JiraComment>, reply_id: &str) -> (r: Option<JiraComment>)
        ensures
            is_comment_for(r, comments@, reply_id@),
    {
        let mut k: usize = 0;
        while k < comments.len()
            invariant
                k <= comments.len(),
                forall|j: int| 0 <= j < k ==> !answers_to(#[trigger] comments@[j], reply_id@),
            decreases comments.len() - k,
        {
            if comments[k].is_for_reply(reply_id) {
                assert(is_first_answering(comments@, reply_id@, k as int));
                let mut comments = comments;
                let found = comments.swap_remove(k);
                return Some(found);
            }
            k += 1;
        }
        None
    }
}

impl CommentDraft {
    /// The text of the comment for a reply written by `author_email`, whose
    /// ticket-system account is `account_id` (empty where none was found).
    pub fn new(account_id: &str, author_email: &str, text: &str) -> (r: CommentDraft)
        ensures
            r.body@ == attributed(author_tag(account_id@, author_email@), text@),
    {
        CommentDraft { body: attribute(account_id, author_email, text) }
    }
}

/// A chat reply that is to become, or to update, a comment.
pub struct CommentSyncRequest {
    /// The body of the reply, as HTML.
    pub description: String,
    pub author_email: String,
    pub attachments: Vec<TeamsAttachment>,
    /// The web URL of the message that the reply answers.
    pub message_url: String,
    pub reply_id: String,
    /// The id of the message that the reply answers.
    pub message_id: String,
}

/// Where the synchronisation of one reply into a comment stands. Each state
/// but the last waits for the outcome of the action that was handed out on
/// entering it.
pub enum CommentSync {
    AwaitingAuthor { request: CommentSyncRequest },
    AwaitingImages {
        description: String,
        account_id: String,
        author_email: String,
        message_url: String,
        reply_id: String,
        message_id: String,
    },
    AwaitingSearch {
        draft: CommentDraft,
        images: Vec<GraphApiImage>,
        reply_id: String,
        message_id: String,
    },
    AwaitingBounce { draft: CommentDraft, images: Vec<GraphApiImage>, reply_id: String, issue: Issue },
    AwaitingComments {
        draft: CommentDraft,
        images: Vec<GraphApiImage>,
        reply_id: String,
        issue: Issue,
    },
    AwaitingCreate { images: Vec<GraphApiImage>, reply_id: String, issue: Issue },
    AwaitingUpdate { images: Vec<GraphApiImage>, issue: Issue, comment: JiraComment },
    /// Attachments are being reconciled; `unmapped` is the reply id where
    /// the comment is new and still has to be tied to its reply.
    AwaitingReconcile { comment: JiraComment, unmapped: Option<String> },
    AwaitingMapping { comment: JiraComment },
    Finished,
}

/// The outcome of the outside work that a flow asked for.
pub enum CommentEvent {
    /// The images that could be downloaded, in the order they were asked for.
    ImagesFetched(Vec<FetchedImage>),
    /// The account id of the author; empty where none was found.
    AuthorResolved(String),
    /// The tickets that the search returned.
    SearchDone(Vec<Issue>),
    BounceSent,
    /// The comments of the ticket, newest first.
    CommentsListed(Vec<JiraComment>),
    /// The comment as the ticket system created it.
    Created(JiraComment),
    Updated,
    Reconciled,
    MappingWritten,
    /// The work could not be done.
    Failed,
}

/// The outside work that a flow asks for next, or its end.
pub enum CommentAction {
    /// Download these hosted contents.
    FetchImages(Vec<String>),
    /// Look up the account id of the ticket-system user with this address.
    ResolveAuthor(String),
    /// Search for tickets with this query.
    Search(String),
    /// Reply to the thread that its ticket is closed.
    Bounce { message_id: String, text: String },
    /// List the comments of this ticket with their properties.
    ListComments { issue_id: String },
    Create { issue_id: String, draft: CommentDraft },
    Update { issue_id: String, comment_id: String, draft: CommentDraft },
    /// Delete and upload attachments as planned. A deletion or an upload
    /// that fails is reported as `Failed`.
    Reconcile { issue_id: String, plan: AttachmentPlan, images: Vec<GraphApiImage> },
    /// Write the reply id into the comment's reply property.
    WriteMapping { comment_id: String, reply_id: String },
    /// The flow is over: `comment` is the comment of the reply.
    Done { comment: JiraComment },
    /// The flow is over without a comment.
    Abort(SyncError),
}

/// The flow starts by asking who the author is on the ticket side. A reply
/// whose body cannot be handed to the Markdown converter starts no flow.
pub open spec fn comment_start(request: CommentSyncRequest, post: CommentSync, action: CommentAction) -> bool {
    if convertible(request.description@) {
        &&& post == (CommentSync::AwaitingAuthor { request })
        &&& action matches CommentAction::ResolveAuthor(email)
        &&& email@ == request.author_email@
    } else {
        post is Finished && action == CommentAction::Abort(SyncError::Markup)
    }
}

/// Leaving for the download of the images, with the author's account known
/// to be `account_id` (empty where none was found).
pub open spec fn fetching(
    request: CommentSyncRequest,
    account_id: Seq<char>,
    post: CommentSync,
    action: CommentAction,
) -> bool {
    let text = ticket_text(request.description@, request.attachments@);
    if !convertible(request.description@) {
        post is Finished && action == CommentAction::Abort(SyncError::Markup)
    } else {
        match regex_find_all(GRAPH_URL_PATTERN@, text) {
            None => post is Finished && action == CommentAction::Abort(SyncError::Pattern),
            Some(found) => {
                &&& post matches CommentSync::AwaitingImages {
                    description,
                    account_id: a,
                    author_email,
                    message_url,
                    reply_id,
                    message_id,
                }
                &&& description@ == text
                &&& a@ == account_id
                &&& author_email == request.author_email
                &&& message_url == request.message_url
                &&& reply_id == request.reply_id
                &&& message_id == request.message_id
                &&& action matches CommentAction::FetchImages(urls)
                &&& is_sorted_set_of(urls.deep_view(), found)
            },
        }
    }
}

/// Leaving for the listing of the ticket's comments.
pub open spec fn listing(
    draft: CommentDraft,
    images: Vec<GraphApiImage>,
    reply_id: String,
    issue: Issue,
    post: CommentSync,
    action: CommentAction,
) -> bool {
    &&& post == (CommentSync::AwaitingComments { draft, images, reply_id, issue })
    &&& action == (CommentAction::ListComments { issue_id: issue.id })
}

/// Leaving for attachment reconciliation: the plan is made against the
/// comment's previous text and the ticket's attachments.
pub open spec fn reconciling_comment(
    issue: Issue,
    previous_body: Seq<char>,
    images: Seq<GraphApiImage>,
    comment: JiraComment,
    reply_id: Option<String>,
    post: CommentSync,
    action: CommentAction,
) -> bool {
    match regex_find_all(PLACEHOLDER_PATTERN@, previous_body) {
        None => post is Finished && action == CommentAction::Abort(SyncError::Pattern),
        Some(matches) => {
            &&& post == (CommentSync::AwaitingReconcile { comment, unmapped: reply_id })
            &&& action matches CommentAction::Reconcile { issue_id, plan, images: handed }
            &&& issue_id == issue.id
            &&& handed@ == images
            &&& is_plan_for(plan, attachments_of(issue), placeholder_names(matches), names_of(images))
        },
    }
}

/// What the flow does with an outcome: the state it moves to and the action
/// it hands out.
pub open spec fn comment_step(
    pre: CommentSync,
    event: CommentEvent,
    config: Config,
    post: CommentSync,
    action: CommentAction,
) -> bool {
    match (pre, event) {
        (CommentSync::AwaitingAuthor { request }, CommentEvent::AuthorResolved(account_id)) => {
            fetching(request, account_id@, post, action)
        },
        (
            CommentSync::AwaitingImages {
                description,
                account_id,
                author_email,
                message_url,
                reply_id,
                message_id,
            },
            CommentEvent::ImagesFetched(fetched),
        ) => match with_images_placed(description@, fetched@) {
            None => post is Finished && action == CommentAction::Abort(SyncError::Pattern),
            Some(text) => {
                &&& post matches CommentSync::AwaitingSearch {
                    draft,
                    images,
                    reply_id: r,
                    message_id: m,
                }
                &&& draft.body@ == attributed(author_tag(account_id@, author_email@), text)
                &&& images@ == images_of(fetched@)
                &&& r == reply_id
                &&& m == message_id
                &&& action matches CommentAction::Search(jql)
                &&& jql@ == search_query(
                    config.project_key@,
                    config.msteams_link_field_jql_name@,
                    message_url@,
                )
            },
        },
        (
            CommentSync::AwaitingSearch { draft, images, reply_id, message_id },
            CommentEvent::SearchDone(found),
        ) => match existing_ticket(found@) {
            None => post is Finished && action == CommentAction::Abort(SyncError::NotFound),
            Some(issue) => if issue.is_closed() {
                &&& post == (CommentSync::AwaitingBounce { draft, images, reply_id, issue })
                &&& action matches CommentAction::Bounce { message_id: m, text }
                &&& m == message_id
                &&& text@ == CLOSED_TICKET_NOTICE@
            } else {
                listing(draft, images, reply_id, issue, post, action)
            },
        },
        (
            CommentSync::AwaitingBounce { draft, images, reply_id, issue },
            CommentEvent::BounceSent,
        ) => listing(draft, images, reply_id, issue, post, action),
        (
            CommentSync::AwaitingComments { draft, images, reply_id, issue },
            CommentEvent::CommentsListed(comments),
        ) => {
            ||| {
                &&& post matches CommentSync::AwaitingUpdate { images: i, issue: t, comment }
                &&& is_comment_for(Some(comment), comments@, reply_id@)
                &&& i == images
                &&& t == issue
                &&& action == (CommentAction::Update {
                    issue_id: issue.id,
                    comment_id: comment.id,
                    draft,
                })
            }
            ||| {
                &&& is_comment_for(None, comments@, reply_id@)
                &&& post == (CommentSync::AwaitingCreate { images, reply_id, issue })
                &&& action == (CommentAction::Create { issue_id: issue.id, draft })
            }
        },
        (
            CommentSync::AwaitingCreate { images, reply_id, issue },
            CommentEvent::Created(comment),
        ) => reconciling_comment(
            issue,
            Seq::empty(),
            images@,
            comment,
            Some(reply_id),
            post,
            action,
        ),
        (CommentSync::AwaitingUpdate { images, issue, comment }, CommentEvent::Updated) => {
            reconciling_comment(issue, comment.body@, images@, comment, None, post, action)
        },
        (CommentSync::AwaitingReconcile { comment, unmapped }, CommentEvent::Reconciled) => {
            match unmapped {
                Some(id) => post == (CommentSync::AwaitingMapping { comment }) && action == (
                    CommentAction::WriteMapping { comment_id: comment.id, reply_id: id }),
                None => post is Finished && action == (CommentAction::Done { comment }),
            }
        },
        (CommentSync::AwaitingMapping { comment }, CommentEvent::MappingWritten) => post
            is Finished && action == (CommentAction::Done { comment }),
        (CommentSync::Finished, _) => post is Finished && action == CommentAction::Abort(
            SyncError::OutOfOrder,
        ),
        (_, CommentEvent::Failed) => post is Finished && action == CommentAction::Abort(
            SyncError::UpstreamRequestFailure,
        ),
        _ => post is Finished && action == CommentAction::Abort(SyncError::OutOfOrder),
    }
}

impl CommentSync {
    /// Leaves for the download of the images.
    fn fetch(request: CommentSyncRequest, account_id: String) -> (r: (CommentSync, CommentAction))
        ensures
            fetching(request, account_id@, r.0, r.1),
    {
        let description = match text_for_ticket(
            request.description.as_str(),
            &request.attachments,
        ) {
            Some(description) => description,
            None => {
                return (CommentSync::Finished, CommentAction::Abort(SyncError::Markup));
            },
        };
        match extract_image_refs(description.as_str()) {
            Ok(urls) => (
                CommentSync::AwaitingImages {
                    description,
                    account_id,
                    author_email: request.author_email,
                    message_url: request.message_url,
                    reply_id: request.reply_id,
                    message_id: request.message_id,
                },
                CommentAction::FetchImages(urls),
            ),
            Err(_) => (CommentSync::Finished, CommentAction::Abort(SyncError::Pattern)),
        }
    }

    /// Leaves for the listing of the ticket's comments.
    fn list(draft: CommentDraft, images: Vec<GraphApiImage>, reply_id: String, issue: Issue) -> (r: (
        CommentSync,
        CommentAction,
    ))
        ensures
            listing(draft, images, reply_id, issue, r.0, r.1),
    {
        let issue_id = issue.id.clone();
        (
            CommentSync::AwaitingComments { draft, images, reply_id, issue },
            CommentAction::ListComments { issue_id },
        )
    }

    /// Leaves for attachment reconciliation.
    fn reconcile(
        issue: Issue,
        previous_body: &str,
        images: Vec<GraphApiImage>,
        comment: JiraComment,
        reply_id: Option<String>,
    ) -> (r: (CommentSync, CommentAction))
        ensures
            reconciling_comment(issue, previous_body@, images@, comment, reply_id, r.0, r.1),
    {
        match find_old_attached_images(previous_body) {
            Ok(names) => {
                let plan = match &issue.fields {
                    Some(f) => plan_attachment_changes(Some(&f.attachment), &names, &images),
                    None => plan_attachment_changes(None, &names, &images),
                };
                (
                    CommentSync::AwaitingReconcile { comment, unmapped: reply_id },
                    CommentAction::Reconcile { issue_id: issue.id, plan, images },
                )
            },
            Err(_) => (CommentSync::Finished, CommentAction::Abort(SyncError::Pattern)),
        }
    }

    /// Takes the outcome of the action that was handed out last, and hands
    /// out the next one. A reply whose thread has no ticket ends the flow,
    /// as does an outcome that was not asked for.
    pub fn step(self, event: CommentEvent, config: &Config) -> (r: (CommentSync, CommentAction))
        ensures
            comment_step(self, event, *config, r.0, r.1),
    {
        match (self, event) {
            (CommentSync::AwaitingAuthor { request }, CommentEvent::AuthorResolved(account_id)) => {
                CommentSync::fetch(request, account_id)
            },
            (
                CommentSync::AwaitingImages {
                    description,
                    account_id,
                    author_email,
                    message_url,
                    reply_id,
                    message_id,
                },
                CommentEvent::ImagesFetched(fetched),
            ) => {
                match replace_images_in_description(description.as_str(), &fetched) {
                    Ok(text) => {
                        let draft = CommentDraft::new(
                            account_id.as_str(),
                            author_email.as_str(),
                            text.as_str(),
                        );
                        let jql = Issue::search_jql(config, message_url.as_str());
                        (
                            CommentSync::AwaitingSearch {
                                draft,
                                images: take_images(fetched),
                                reply_id,
                                message_id,
                            },
                            CommentAction::Search(jql),
                        )
                    },
                    Err(_) => (CommentSync::Finished, CommentAction::Abort(SyncError::Pattern)),
                }
            },
            (
                CommentSync::AwaitingSearch { draft, images, reply_id, message_id },
                CommentEvent::SearchDone(found),
            ) => {
                match Issue::find(found) {
                    Some(issue) => {
                        if issue.final_status() {
                            (
                                CommentSync::AwaitingBounce { draft, images, reply_id, issue },
                                CommentAction::Bounce {
                                    message_id,
                                    text: CLOSED_TICKET_NOTICE.to_string(),
                                },
                            )
                        } else {
                            CommentSync::list(draft, images, reply_id, issue)
                        }
                    },
                    None => (CommentSync::Finished, CommentAction::Abort(SyncError::NotFound)),
                }
            },
            (
                CommentSync::AwaitingBounce { draft, images, reply_id, issue },
                CommentEvent::BounceSent,
            ) => CommentSync::list(draft, images, reply_id, issue),
            (
                CommentSync::AwaitingComments { draft, images, reply_id, issue },
                CommentEvent::CommentsListed(comments),
            ) => {
                match JiraComment::find(comments, reply_id.as_str()) {
                    Some(comment) => {
                        let issue_id = issue.id.clone();
                        let comment_id = comment.id.clone();
                        (
                            CommentSync::AwaitingUpdate { images, issue, comment },
                            CommentAction::Update { issue_id, comment_id, draft },
                        )
                    },
                    None => {
                        let issue_id = issue.id.clone();
                        (
                            CommentSync::AwaitingCreate { images, reply_id, issue },
                            CommentAction::Create { issue_id, draft },
                        )
                    },
                }
            },
            (
                CommentSync::AwaitingCreate { images, reply_id, issue },
                CommentEvent::Created(comment),
            ) => {
                proof {
                    reveal_strlit("");
                    assert(""@ =~= Seq::<char>::empty());
                }
                CommentSync::reconcile(issue, "", images, comment, Some(reply_id))
            },
            (CommentSync::AwaitingUpdate { images, issue, comment }, CommentEvent::Updated) => {
                let previous = comment.body.clone();
                CommentSync::reconcile(issue, previous.as_str(), images, comment, None)
            },
            (CommentSync::AwaitingReconcile { comment, unmapped }, CommentEvent::Reconciled) => {
                match unmapped {
                    Some(id) => {
                        let comment_id = comment.id.clone();
                        (
                            CommentSync::AwaitingMapping { comment },
                            CommentAction::WriteMapping { comment_id, reply_id: id },
                        )
                    },
                    None => (CommentSync::Finished, CommentAction::Done { comment }),
                }
            },
            (CommentSync::AwaitingMapping { comment }, CommentEvent::MappingWritten) => {
                (CommentSync::Finished, CommentAction::Done { comment })
            },
            (CommentSync::Finished, _) => (
                CommentSync::Finished,
                CommentAction::Abort(SyncError::OutOfOrder),
            ),
            (_, CommentEvent::Failed) => (
                CommentSync::Finished,
                CommentAction::Abort(SyncError::UpstreamRequestFailure),
            ),
            _ => (CommentSync::Finished, CommentAction::Abort(SyncError::OutOfOrder)),
        }
    }
}

impl JiraComment {
    /// Begins the synchronisation of a reply into a comment on the ticket
    /// of its thread. The flow resolves the author, makes the comment text
    /// from the reply, places the images, looks for the ticket and for the
    /// comment of the reply, creates or updates the comment, reconciles the
    /// attachments, and ties a new comment to the reply. A reply whose body
    /// cannot be handed to the Markdown converter is refused at once.
    pub fn create_or_update(request: CommentSyncRequest) -> (r: (CommentSync, CommentAction))
        ensures
            comment_start(request, r.0, r.1),
    {
        if !is_convertible(request.description.as_str()) {
            return (CommentSync::Finished, CommentAction::Abort(SyncError::Markup));
        }
        let email = request.author_email.clone();
        (CommentSync::AwaitingAuthor { request }, CommentAction::ResolveAuthor(email))
    }
}

/// How many outcomes a flow can still take, at most, before it is over.
pub open spec fn comment_steps_left(state: CommentSync) -> nat {
    match state {
        CommentSync::AwaitingAuthor { .. } => 9,
        CommentSync::AwaitingImages { .. } => 8,
        CommentSync::AwaitingSearch { .. } => 7,
        CommentSync::AwaitingBounce { .. } => 6,
        CommentSync::AwaitingComments { .. } => 5,
        CommentSync::AwaitingCreate { .. } => 4,
        CommentSync::AwaitingUpdate { .. } => 4,
        CommentSync::AwaitingReconcile { .. } => 2,
        CommentSync::AwaitingMapping { .. } => 1,
        CommentSync::Finished => 0,
    }
}

/// Every flow ends: each outcome brings a flow that is not over strictly
/// nearer to its end, so that no flow takes more than nine outcomes.
pub proof fn lemma_comment_sync_ends(
    pre: CommentSync,
    event: CommentEvent,
    config: Config,
    post: CommentSync,
    action: CommentAction,
)
    requires
        comment_step(pre, event, config, post, action),
    ensures
        !(pre is Finished) ==> comment_steps_left(post) < comment_steps_left(pre),
        pre is Finished ==> post is Finished,
        post is Finished <==> (action is Done || action is Abort),
{
}

/// Synchronising a reply twice does not make a second comment. Where the
/// first flow asked for a comment to be created, and the comment `created`
/// that came of it has been tied to the reply and heads the listing from
/// then on, a second flow for the same reply asks for that comment to be
/// updated. Where the first flow found the comment of the reply, a second
/// flow over the same listing finds the same one.
pub proof fn lemma_comment_sync_is_idempotent(
    reply_id: Seq<char>,
    created: JiraComment,
    config: Config,
    first: (CommentSync, Vec<JiraComment>, CommentSync, CommentAction),
    second: (CommentSync, Vec<JiraComment>, CommentSync, CommentAction),
)
    requires
        first.0 matches CommentSync::AwaitingComments { reply_id: id, .. } && id@ == reply_id,
        second.0 matches CommentSync::AwaitingComments { reply_id: id, .. } && id@ == reply_id,
        comment_step(first.0, CommentEvent::CommentsListed(first.1), config, first.2, first.3),
        answers_to(created, reply_id),
        second.1@ == (if first.3 is Create {
            seq![created] + first.1@
        } else {
            first.1@
        }),
        comment_step(second.0, CommentEvent::CommentsListed(second.1), config, second.2, second.3),
    ensures
        first.3 is Create || first.3 is Update,
        second.3 matches CommentAction::Update { comment_id, .. } && comment_id == (
        match first.3 {
            CommentAction::Update { comment_id: found, .. } => found,
            _ => created.id,
        }),
{
    let listing = second.1@;
    if first.3 is Create {
        assert(listing[0] == created);
        assert(is_first_answering(listing, reply_id, 0));
        assert(!is_comment_for(None, listing, reply_id));
        let found = second.2->AwaitingUpdate_comment;
        let at = choose|at: int| is_first_answering(listing, reply_id, at) && found == listing[at];
        assert(at == 0);
    } else {
        let found = first.2->AwaitingUpdate_comment;
        let at = choose|at: int| is_first_answering(listing, reply_id, at) && found == listing[at];
        assert(!is_comment_for(None, listing, reply_id));
        let again = second.2->AwaitingUpdate_comment;
        let at2 = choose|at2: int|
            is_first_answering(listing, reply_id, at2) && again == listing[at2];
        assert(at == at2);
    }
}

} // verus!
