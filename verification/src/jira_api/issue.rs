//! Tickets: what is read from one, how the ticket for a chat thread is
//! found, and the step-by-step synchronisation of a chat message into a
//! ticket.

use crate::jira_api::attachment::add_attachments_urls_to_description;
use crate::jira_api::attachment::extract_image_refs;
use crate::jira_api::attachment::find_old_attached_images;
use crate::jira_api::attachment::is_plan_for;
use crate::jira_api::attachment::names_of;
use crate::jira_api::attachment::placeholder_names;
use crate::jira_api::attachment::plan_attachment_changes;
use crate::jira_api::attachment::replace_images_in_description;
use crate::jira_api::attachment::upload_positions;
use crate::jira_api::attachment::with_attachment_links;
use crate::jira_api::attachment::with_images_placed;
use crate::jira_api::attachment::AttachmentPlan;
use crate::jira_api::attachment::FetchedImage;
use crate::jira_api::attachment::JiraAttachment;
use crate::jira_api::attachment::GRAPH_URL_PATTERN;
use crate::jira_api::attachment::PLACEHOLDER_PATTERN;
use crate::jira_api::cfg::Config;
use crate::jira_api::model::SyncError;
use crate::jira_api::user::JiraUser;
use crate::ms_graph_api::image::GraphApiImage;
use crate::pattern::regex_find_all;
use crate::sorting::is_sorted_set_of;
use crate::markup::convertible;
use crate::markup::is_convertible;
use crate::markup::markdown_of;
use crate::markup::to_markdown;
use crate::ms_graph_api::message::TeamsAttachment;
use crate::text::lowercase;
use crate::text::to_lowercase;
use crate::text::same_ignoring_case;
use crate::text::str_eq;
use vstd::prelude::*;
use vstd::string::*;

verus! {

/// A ticket. `fields` is absent where the ticket system sent none.
pub struct Issue {
    pub id: String,
    pub key: String,
    pub fields: Option<IssueFields>,
}

/// The fields of a ticket that synchronisation reads.
pub struct IssueFields {
    pub attachment: Vec<JiraAttachment>,
    pub description: String,
    pub assignee: Option<JiraUser>,
    pub status: IssueStatus,
    /// The URL of the chat thread the ticket belongs to.
    pub teams_link: Option<String>,
}

/// The workflow status of a ticket.
pub struct IssueStatus {
    pub name: String,
}

/// The fields of a ticket that is to be created or updated.
pub struct IssueDraft {
    pub project_key: String,
    pub summary: String,
    pub description: String,
    pub issue_type: String,
    /// The name of the custom field that takes the thread URL.
    pub link_field_name: String,
    pub teams_link: String,
    /// The reporter's account, where one was resolved.
    pub reporter_id: Option<String>,
}

/// The reply sent to a thread whose ticket is closed.
pub const CLOSED_TICKET_NOTICE: &'static str =
    "Извините, но данная задача закрыта. Просим вас завести новую, иначе мы можем пропустить это сообщение";

/// The fixed name under which the thread URL is read from a ticket.
pub const LINK_FIELD: &'static str = "teams_link";

/// A status name in lower case that is final.
pub open spec fn is_final_lowercase(lower: Seq<char>) -> bool {
    lower == "done"@ || lower == "rejected"@
}

/// A status after which a ticket takes no further replies: its name, put
/// in lower case, is `done` or `rejected`.
pub open spec fn is_final_name(name: Seq<char>) -> bool {
    is_final_lowercase(lowercase(name))
}

/// Whether a status is final does not depend on the case it is written in:
/// two names with the same lower-case form are both final or both not.
pub proof fn lemma_final_status_ignores_case(a: Seq<char>, b: Seq<char>)
    requires
        same_ignoring_case(a, b),
    ensures
        is_final_name(a) == is_final_name(b),
{
}

/// The summary a ticket gets: the subject of the message, or a line naming
/// the reporter where there is none.
pub open spec fn ticket_summary(subject: Seq<char>, reporter: Seq<char>) -> Seq<char> {
    if subject.len() == 0 {
        "New issue from "@ + reporter
    } else {
        subject
    }
}

/// The ticket text for a message body, before images are placed.
pub open spec fn ticket_text(html: Seq<char>, attachments: Seq<TeamsAttachment>) -> Seq<char> {
    with_attachment_links(markdown_of(html), attachments)
}

/// The query that finds the ticket of a thread.
pub open spec fn search_query(project_key: Seq<char>, field: Seq<char>, url: Seq<char>) -> Seq<
    char,
> {
    "project = \""@ + project_key + "\" AND \""@ + field + "\" = \""@ + url + "\""@
}

/// The ticket that a search result stands for: the one ticket of a result
/// that holds exactly one, and none otherwise.
pub open spec fn existing_ticket(found: Seq<Issue>) -> Option<Issue> {
    if found.len() == 1 {
        Some(found[0])
    } else {
        None
    }
}

/// The account a draft names as reporter: that of the resolved user, unless
/// it is empty.
pub open spec fn reporter_of(user: Option<JiraUser>) -> Option<Seq<char>> {
    match user {
        Some(u) => if u.account_id@.len() == 0 {
            None
        } else {
            Some(u.account_id@)
        },
        None => None,
    }
}

/// Whom a text is attributed to: the account that was resolved, or the
/// e-mail address where none was.
pub open spec fn author_tag(account_id: Seq<char>, email: Seq<char>) -> Seq<char> {
    if account_id.len() == 0 {
        email
    } else {
        account_id
    }
}

/// The account id of a user that may not have been found, a missing one
/// counting as empty.
pub open spec fn account_of(user: Option<JiraUser>) -> Seq<char> {
    match user {
        Some(u) => u.account_id@,
        None => Seq::empty(),
    }
}

/// A text under the line that says on whose behalf it was written.
pub open spec fn attributed(author: Seq<char>, text: Seq<char>) -> Seq<char> {
    "On behalf of [~accountid:"@ + author + "]:\n\n"@ + text
}

/// The name under which a field of a ticket payload is read: the configured
/// thread-URL field goes by the fixed name, every other field by its own.
pub open spec fn canonical_field(key: Seq<char>, link_field: Seq<char>) -> Seq<char> {
    if key == link_field {
        LINK_FIELD@
    } else {
        key
    }
}

impl Clone for IssueStatus {
    fn clone(&self) -> (r: Self)
        ensures
            r == *self,
    {
        IssueStatus { name: self.name.clone() }
    }
}

/// Whether a status name that has been put in lower case is final.
pub fn is_final_lowercase_name(lower: &str) -> (r: bool)
    ensures
        r == (lower@ == "done"@ || lower@ == "rejected"@),
{
    str_eq(lower, "done") || str_eq(lower, "rejected")
}

impl IssueStatus {
    /// Whether the status is `Done` or `Rejected`, letter case aside.
    pub fn is_final(&self) -> (r: bool)
        ensures
            r == is_final_name(self.name@),
    {
        is_final_lowercase_name(to_lowercase(self.name.as_str()).as_str())
    }
}

/// A copy of a list of attachments.
pub fn copy_attachments(attachments: &Vec<JiraAttachment>) -> (r: Vec<JiraAttachment>)
    ensures
        r@ == attachments@,
{
    let mut r: Vec<JiraAttachment> = Vec::new();
    let mut k: usize = 0;
    while k < attachments.len()
        invariant
            k <= attachments.len(),
            r@ == attachments@.take(k as int),
        decreases attachments.len() - k,
    {
        r.push(attachments[k].clone());
        assert(r@ =~= attachments@.take(k + 1));
        k += 1;
    }
    assert(attachments@.take(k as int) =~= attachments@);
    r
}

impl Clone for IssueFields {
    fn clone(&self) -> (r: Self)
        ensures
            r.attachment@ == self.attachment@,
            r.description == self.description,
            r.assignee == self.assignee,
            r.status == self.status,
            r.teams_link == self.teams_link,
    {
        IssueFields {
            attachment: copy_attachments(&self.attachment),
            description: self.description.clone(),
            assignee: self.assignee.clone(),
            status: self.status.clone(),
            teams_link: self.teams_link.clone(),
        }
    }
}

impl Issue {
    pub fn get_id(&self) -> (r: String)
        ensures
            r == self.id,
    {
        self.id.clone()
    }

    pub fn get_key(&self) -> (r: String)
        ensures
            r == self.key,
    {
        self.key.clone()
    }

    /// The attachments of the ticket, where its fields are known.
    pub fn get_attachments(&self) -> (r: Option<Vec<JiraAttachment>>)
        ensures
            match self.fields {
                Some(f) => r is Some && r->0@ == f.attachment@,
                None => r is None,
            },
    {
        match &self.fields {
            Some(f) => Some(copy_attachments(&f.attachment)),
            None => None,
        }
    }

    pub fn get_description(&self) -> (r: Option<String>)
        ensures
            r == match self.fields {
                Some(f) => Some(f.description),
                None => None,
            },
    {
        match &self.fields {
            Some(f) => Some(f.description.clone()),
            None => None,
        }
    }

    /// The name of the ticket's status.
    pub fn get_status(&self) -> (r: Option<String>)
        ensures
            r == match self.fields {
                Some(f) => Some(f.status.name),
                None => None,
            },
    {
        match &self.fields {
            Some(f) => Some(f.status.name.clone()),
            None => None,
        }
    }

    /// Whether the ticket is known to be in a final status.
    pub open spec fn is_closed(self) -> bool {
        match self.fields {
            Some(f) => is_final_name(f.status.name@),
            None => false,
        }
    }

    /// Whether the ticket is known to be in a final status.
    pub fn final_status(&self) -> (r: bool)
        ensures
            r == self.is_closed(),
    {
        match &self.fields {
            Some(f) => f.status.is_final(),
            None => false,
        }
    }

    /// The URL of the chat thread the ticket belongs to.
    pub fn get_teams_link(&self) -> (r: Option<String>)
        ensures
            r == match self.fields {
                Some(f) => f.teams_link,
                None => None,
            },
    {
        match &self.fields {
            Some(f) => f.teams_link.clone(),
            None => None,
        }
    }

    /// The display name of the assignee, where there is one.
    pub fn get_assignee_name(&self) -> (r: Option<String>)
        ensures
            r == match self.fields {
                Some(f) => match f.assignee {
                    Some(a) => a.display_name,
                    None => None,
                },
                None => None,
            },
    {
        match &self.fields {
            Some(f) => match &f.assignee {
                Some(a) => a.display_name.clone(),
                None => None,
            },
            None => None,
        }
    }

    /// The ticket that a search result stands for. A result with no ticket,
    /// or with more than one, counts as no ticket.
    pub fn find(found: Vec<Issue>) -> (r: Option<Issue>)
        ensures
            r == existing_ticket(found@),
    {
        if found.len() != 1 {
            return None;
        }
        let mut found = found;
        found.pop()
    }

    /// The query that finds the ticket whose thread URL is `teams_url`.
    pub fn search_jql(config: &Config, teams_url: &str) -> (r: String)
        ensures
            r@ == search_query(
                config.project_key@,
                config.msteams_link_field_jql_name@,
                teams_url@,
            ),
    {
        let mut jql = "project = \"".to_string();
        jql.append(config.project_key.as_str());
        jql.append("\" AND \"");
        jql.append(config.msteams_link_field_jql_name.as_str());
        jql.append("\" = \"");
        jql.append(teams_url);
        jql.append("\"");
        jql
    }
}

/// The summary a ticket gets for a message with the given subject.
pub fn summary_or_default(subject: &str, reporter_email: &str) -> (r: String)
    ensures
        r@ == ticket_summary(subject@, reporter_email@),
{
    if subject.is_empty() {
        let mut summary = "New issue from ".to_string();
        summary.append(reporter_email);
        summary
    } else {
        subject.to_string()
    }
}

/// The ticket text for a message body: the body as Markdown, followed by a
/// link line for every attached file that the text does not refer to.
/// `None` for a body that cannot be handed to the Markdown converter.
pub fn text_for_ticket(html: &str, attachments: &Vec<TeamsAttachment>) -> (r: Option<String>)
    ensures
        match r {
            Some(text) => convertible(html@) && text@ == ticket_text(html@, attachments@),
            None => !convertible(html@),
        },
{
    match to_markdown(html) {
        Some(markdown) => {
            let mut text = markdown;
            add_attachments_urls_to_description(&mut text, attachments);
            Some(text)
        },
        None => None,
    }
}

/// Puts the attribution line above a text. The line names the account
/// `account_id`, or the address `email` where the account id is empty.
pub fn attribute(account_id: &str, email: &str, text: &str) -> (r: String)
    ensures
        r@ == attributed(author_tag(account_id@, email@), text@),
{
    let mut body = "On behalf of [~accountid:".to_string();
    if account_id.is_empty() {
        body.append(email);
    } else {
        body.append(account_id);
    }
    body.append("]:\n\n");
    body.append(text);
    body
}

/// The name under which a field of a ticket payload is read.
pub fn canonical_field_name(key: &str, link_field: &str) -> (r: String)
    ensures
        r@ == canonical_field(key@, link_field@),
{
    if str_eq(key, link_field) {
        LINK_FIELD.to_string()
    } else {
        key.to_string()
    }
}

impl IssueDraft {
    /// What a draft holds.
    pub open spec fn holds(
        self,
        config: Config,
        summary: Seq<char>,
        description: Seq<char>,
        teams_url: Seq<char>,
        reporter: Option<JiraUser>,
    ) -> bool {
        &&& self.project_key@ == config.project_key@
        &&& self.summary@ == summary
        &&& self.description@ == description
        &&& self.issue_type@ == "Task"@
        &&& self.link_field_name@ == config.msteams_link_field_name@
        &&& self.teams_link@ == teams_url
        &&& self.reporter_id.deep_view() == reporter_of(reporter)
    }

    /// The fields for the ticket of a thread: a task in the configured
    /// project that carries the thread URL, reported by `reporter` where that
    /// user has an account id.
    pub fn new(
        config: &Config,
        summary: String,
        description: String,
        teams_url: &str,
        reporter: &Option<JiraUser>,
    ) -> (r: IssueDraft)
        ensures
            r.holds(*config, summary@, description@, teams_url@, *reporter),
    {
        let reporter_id = match reporter {
            Some(user) => if user.account_id.as_str().is_empty() {
                None
            } else {
                Some(user.account_id.clone())
            },
            None => None,
        };
        IssueDraft {
            project_key: config.project_key.clone(),
            summary,
            description,
            issue_type: "Task".to_string(),
            link_field_name: config.msteams_link_field_name.clone(),
            teams_link: teams_url.to_string(),
            reporter_id,
        }
    }
}

/// A chat message that is to become, or to update, a ticket.
pub struct TicketSyncRequest {
    /// The subject of the message; may be empty.
    pub summary: String,
    /// The body of the message, as HTML.
    pub description: String,
    pub reporter_email: String,
    pub attachments: Vec<TeamsAttachment>,
    /// The web URL of the message: the key by which its ticket is found.
    pub message_url: String,
    pub message_id: String,
}

/// Where the synchronisation of one message into a ticket stands. Each
/// state but the last waits for the outcome of the action that was handed
/// out on entering it.
pub enum TicketSync {
    AwaitingReporter { request: TicketSyncRequest },
    AwaitingImages {
        summary: String,
        description: String,
        reporter: Option<JiraUser>,
        reporter_email: String,
        message_url: String,
        message_id: String,
    },
    AwaitingSearch { draft: IssueDraft, images: Vec<GraphApiImage>, message_id: String },
    AwaitingBounce { draft: IssueDraft, images: Vec<GraphApiImage>, issue: Issue },
    AwaitingUpdate { images: Vec<GraphApiImage>, issue: Issue },
    AwaitingCreate { images: Vec<GraphApiImage> },
    AwaitingIssue { images: Vec<GraphApiImage> },
    AwaitingReconcile { issue: Issue, existed: bool },
    Finished,
}

/// The outcome of the outside work that a flow asked for.
pub enum TicketEvent {
    /// The images that could be downloaded, in the order they were asked for.
    ImagesFetched(Vec<FetchedImage>),
    /// The ticket-system user with the reporter's address, if there is one.
    ReporterResolved(Option<JiraUser>),
    /// The tickets that the search returned.
    SearchDone(Vec<Issue>),
    BounceSent,
    /// A ticket was created and has this id.
    Created(String),
    /// The created ticket as read back; `None` where reading it failed.
    IssueRead(Option<Issue>),
    Updated,
    Reconciled,
    /// The work could not be done.
    Failed,
}

/// The outside work that a flow asks for next, or its end.
pub enum TicketAction {
    /// Download these hosted contents.
    FetchImages(Vec<String>),
    /// Look up the ticket-system user with this address.
    ResolveReporter(String),
    /// Search for tickets with this query.
    Search(String),
    /// Reply to the thread that its ticket is closed.
    Bounce { message_id: String, text: String },
    Create(IssueDraft),
    /// Read the ticket with this id.
    ReadIssue(String),
    Update { id: String, draft: IssueDraft },
    /// Delete and upload attachments as planned. A deletion or an upload
    /// that fails is reported as `Failed`.
    Reconcile { issue_id: String, plan: AttachmentPlan, images: Vec<GraphApiImage> },
    /// The flow is over: `issue` is the ticket of the message, and `existed`
    /// tells whether it was there before.
    Done { issue: Issue, existed: bool },
    /// The flow is over without a ticket.
    Abort(SyncError),
}

/// The images of a list of downloads.
pub open spec fn images_of(fetched: Seq<FetchedImage>) -> Seq<GraphApiImage> {
    Seq::new(fetched.len(), |i: int| fetched[i].image)
}

/// The previous text of a ticket, an unknown one counting as empty.
pub open spec fn previous_text(issue: Issue) -> Seq<char> {
    match issue.fields {
        Some(f) => f.description@,
        None => Seq::empty(),
    }
}

/// The attachments of a ticket, where its fields are known.
pub open spec fn attachments_of(issue: Issue) -> Option<Seq<JiraAttachment>> {
    match issue.fields {
        Some(f) => Some(f.attachment@),
        None => None,
    }
}

/// The flow starts by asking who the reporter is on the ticket side. A
/// message whose body cannot be handed to the Markdown converter starts no
/// flow.
pub open spec fn ticket_start(request: TicketSyncRequest, post: TicketSync, action: TicketAction) -> bool {
    if convertible(request.description@) {
        &&& post == (TicketSync::AwaitingReporter { request })
        &&& action matches TicketAction::ResolveReporter(email)
        &&& email@ == request.reporter_email@
    } else {
        post is Finished && action == TicketAction::Abort(SyncError::Markup)
    }
}

/// Leaving for attachment reconciliation: the plan is made against the
/// ticket's previous text and its attachments.
pub open spec fn reconciling(
    issue: Issue,
    existed: bool,
    images: Seq<GraphApiImage>,
    post: TicketSync,
    action: TicketAction,
) -> bool {
    match regex_find_all(PLACEHOLDER_PATTERN@, previous_text(issue)) {
        None => post is Finished && action == TicketAction::Abort(SyncError::Pattern),
        Some(matches) => {
            &&& post == (TicketSync::AwaitingReconcile { issue, existed })
            &&& action matches TicketAction::Reconcile { issue_id, plan, images: handed }
            &&& issue_id == issue.id
            &&& handed@ == images
            &&& is_plan_for(plan, attachments_of(issue), placeholder_names(matches), names_of(images))
        },
    }
}

/// Leaving for the update of an existing ticket.
pub open spec fn updating(
    draft: IssueDraft,
    images: Vec<GraphApiImage>,
    issue: Issue,
    post: TicketSync,
    action: TicketAction,
) -> bool {
    &&& post == (TicketSync::AwaitingUpdate { images, issue })
    &&& action == (TicketAction::Update { id: issue.id, draft })
}

/// What the flow does with an outcome: the state it moves to and the action
/// it hands out.
pub open spec fn ticket_step(
    pre: TicketSync,
    event: TicketEvent,
    config: Config,
    post: TicketSync,
    action: TicketAction,
) -> bool {
    match (pre, event) {
        (
            TicketSync::AwaitingReporter { request },
            TicketEvent::ReporterResolved(reporter),
        ) => if !convertible(request.description@) {
            post is Finished && action == TicketAction::Abort(SyncError::Markup)
        } else {
            match regex_find_all(
                GRAPH_URL_PATTERN@,
                ticket_text(request.description@, request.attachments@),
            ) {
                None => post is Finished && action == TicketAction::Abort(SyncError::Pattern),
                Some(found) => {
                &&& post matches TicketSync::AwaitingImages {
                    summary,
                    description,
                    reporter: r,
                    reporter_email,
                    message_url,
                    message_id,
                }
                &&& summary@ == ticket_summary(request.summary@, request.reporter_email@)
                &&& description@ == ticket_text(request.description@, request.attachments@)
                &&& r == reporter
                &&& reporter_email == request.reporter_email
                &&& message_url == request.message_url
                &&& message_id == request.message_id
                &&& action matches TicketAction::FetchImages(urls)
                &&& is_sorted_set_of(urls.deep_view(), found)
                },
            }
        },
        (
            TicketSync::AwaitingImages {
                summary,
                description,
                reporter,
                reporter_email,
                message_url,
                message_id,
            },
            TicketEvent::ImagesFetched(fetched),
        ) => match with_images_placed(description@, fetched@) {
            None => post is Finished && action == TicketAction::Abort(SyncError::Pattern),
            Some(text) => {
                &&& post matches TicketSync::AwaitingSearch { draft, images, message_id: m }
                &&& draft.holds(
                    config,
                    summary@,
                    attributed(author_tag(account_of(reporter), reporter_email@), text),
                    message_url@,
                    reporter,
                )
                &&& images@ == images_of(fetched@)
                &&& m == message_id
                &&& action matches TicketAction::Search(jql)
                &&& jql@ == search_query(
                    config.project_key@,
                    config.msteams_link_field_jql_name@,
                    message_url@,
                )
            },
        },
        (
            TicketSync::AwaitingSearch { draft, images, message_id },
            TicketEvent::SearchDone(found),
        ) => match existing_ticket(found@) {
            None => post == (TicketSync::AwaitingCreate { images }) && action
                == TicketAction::Create(draft),
            Some(issue) => if issue.is_closed() {
                &&& post == (TicketSync::AwaitingBounce { draft, images, issue })
                &&& action matches TicketAction::Bounce { message_id: m, text }
                &&& m == message_id
                &&& text@ == CLOSED_TICKET_NOTICE@
            } else {
                updating(draft, images, issue, post, action)
            },
        },
        (TicketSync::AwaitingBounce { draft, images, issue }, TicketEvent::BounceSent) => updating(
            draft,
            images,
            issue,
            post,
            action,
        ),
        (TicketSync::AwaitingCreate { images }, TicketEvent::Created(id)) => post == (
            TicketSync::AwaitingIssue { images }) && action == TicketAction::ReadIssue(id),
        (TicketSync::AwaitingIssue { images }, TicketEvent::IssueRead(read)) => match read {
            Some(issue) => reconciling(issue, false, images@, post, action),
            None => post is Finished && action == TicketAction::Abort(SyncError::NotFound),
        },
        (TicketSync::AwaitingUpdate { images, issue }, TicketEvent::Updated) => reconciling(
            issue,
            true,
            images@,
            post,
            action,
        ),
        (TicketSync::AwaitingReconcile { issue, existed }, TicketEvent::Reconciled) => post
            is Finished && action == (TicketAction::Done { issue, existed }),
        (TicketSync::Finished, _) => post is Finished && action == TicketAction::Abort(
            SyncError::OutOfOrder,
        ),
        (_, TicketEvent::Failed) => post is Finished && action == TicketAction::Abort(
            SyncError::UpstreamRequestFailure,
        ),
        _ => post is Finished && action == TicketAction::Abort(SyncError::OutOfOrder),
    }
}

/// Takes the images out of a list of downloads.
pub fn take_images(fetched: Vec<FetchedImage>) -> (images: Vec<GraphApiImage>)
    ensures
        images@ == images_of(fetched@),
{
    let mut rest = fetched;
    let mut reversed: Vec<GraphApiImage> = Vec::new();
    while rest.len() > 0
        invariant
            rest@.len() + reversed@.len() == fetched@.len(),
            forall|i: int| 0 <= i < rest@.len() ==> rest@[i] == fetched@[i],
            forall|i: int|
                0 <= i < reversed@.len() ==> reversed@[i] == fetched@[fetched@.len() - 1 - i].image,
        decreases rest.len(),
    {
        match rest.pop() {
            Some(item) => reversed.push(item.image),
            None => {},
        }
    }
    let mut images: Vec<GraphApiImage> = Vec::new();
    while reversed.len() > 0
        invariant
            images@.len() + reversed@.len() == fetched@.len(),
            forall|i: int| 0 <= i < images@.len() ==> images@[i] == fetched@[i].image,
            forall|i: int|
                0 <= i < reversed@.len() ==> reversed@[i] == fetched@[fetched@.len() - 1 - i].image,
        decreases reversed.len(),
    {
        match reversed.pop() {
            Some(image) => images.push(image),
            None => {},
        }
    }
    assert(images@ =~= images_of(fetched@));
    images
}

impl TicketSync {
    /// Leaves for attachment reconciliation.
    fn reconcile(issue: Issue, existed: bool, images: Vec<GraphApiImage>) -> (r: (
        TicketSync,
        TicketAction,
    ))
        ensures
            reconciling(issue, existed, images@, r.0, r.1),
    {
        let old_names = match &issue.fields {
            Some(f) => find_old_attached_images(f.description.as_str()),
            None => {
                proof {
                    reveal_strlit("");
                    assert(""@ =~= Seq::<char>::empty());
                }
                find_old_attached_images("")
            },
        };
        match old_names {
            Ok(names) => {
                let plan = match &issue.fields {
                    Some(f) => plan_attachment_changes(Some(&f.attachment), &names, &images),
                    None => plan_attachment_changes(None, &names, &images),
                };
                let issue_id = issue.id.clone();
                (
                    TicketSync::AwaitingReconcile { issue, existed },
                    TicketAction::Reconcile { issue_id, plan, images },
                )
            },
            Err(_) => (TicketSync::Finished, TicketAction::Abort(SyncError::Pattern)),
        }
    }

    /// Leaves for the update of an existing ticket.
    fn update(draft: IssueDraft, images: Vec<GraphApiImage>, issue: Issue) -> (r: (
        TicketSync,
        TicketAction,
    ))
        ensures
            updating(draft, images, issue, r.0, r.1),
    {
        let id = issue.id.clone();
        (TicketSync::AwaitingUpdate { images, issue }, TicketAction::Update { id, draft })
    }

    /// Takes the outcome of the action that was handed out last, and hands
    /// out the next one. An outcome that was not asked for, or any outcome
    /// once the flow is over, ends the flow.
    pub fn step(self, event: TicketEvent, config: &Config) -> (r: (TicketSync, TicketAction))
        ensures
            ticket_step(self, event, *config, r.0, r.1),
    {
        match (self, event) {
            (TicketSync::AwaitingReporter { request }, TicketEvent::ReporterResolved(reporter)) => {
                let summary = summary_or_default(
                    request.summary.as_str(),
                    request.reporter_email.as_str(),
                );
                let description = match text_for_ticket(
                    request.description.as_str(),
                    &request.attachments,
                ) {
                    Some(description) => description,
                    None => {
                        return (TicketSync::Finished, TicketAction::Abort(SyncError::Markup));
                    },
                };
                match extract_image_refs(description.as_str()) {
                    Ok(urls) => (
                        TicketSync::AwaitingImages {
                            summary,
                            description,
                            reporter,
                            reporter_email: request.reporter_email,
                            message_url: request.message_url,
                            message_id: request.message_id,
                        },
                        TicketAction::FetchImages(urls),
                    ),
                    Err(_) => (TicketSync::Finished, TicketAction::Abort(SyncError::Pattern)),
                }
            },
            (
                TicketSync::AwaitingImages {
                    summary,
                    description,
                    reporter,
                    reporter_email,
                    message_url,
                    message_id,
                },
                TicketEvent::ImagesFetched(fetched),
            ) => {
                match replace_images_in_description(description.as_str(), &fetched) {
                    Ok(text) => {
                        let body = match &reporter {
                            Some(user) => attribute(
                                user.account_id.as_str(),
                                reporter_email.as_str(),
                                text.as_str(),
                            ),
                            None => {
                                proof {
                                    reveal_strlit("");
                                    assert(""@ =~= Seq::<char>::empty());
                                }
                                attribute("", reporter_email.as_str(), text.as_str())
                            },
                        };
                        let jql = Issue::search_jql(config, message_url.as_str());
                        let draft = IssueDraft::new(
                            config,
                            summary,
                            body,
                            message_url.as_str(),
                            &reporter,
                        );
                        (
                            TicketSync::AwaitingSearch {
                                draft,
                                images: take_images(fetched),
                                message_id,
                            },
                            TicketAction::Search(jql),
                        )
                    },
                    Err(_) => (TicketSync::Finished, TicketAction::Abort(SyncError::Pattern)),
                }
            },
            (
                TicketSync::AwaitingSearch { draft, images, message_id },
                TicketEvent::SearchDone(found),
            ) => {
                match Issue::find(found) {
                    Some(issue) => {
                        if issue.final_status() {
                            (
                                TicketSync::AwaitingBounce { draft, images, issue },
                                TicketAction::Bounce {
                                    message_id,
                                    text: CLOSED_TICKET_NOTICE.to_string(),
                                },
                            )
                        } else {
                            TicketSync::update(draft, images, issue)
                        }
                    },
                    None => (TicketSync::AwaitingCreate { images }, TicketAction::Create(draft)),
                }
            },
            (TicketSync::AwaitingBounce { draft, images, issue }, TicketEvent::BounceSent) => {
                TicketSync::update(draft, images, issue)
            },
            (TicketSync::AwaitingCreate { images }, TicketEvent::Created(id)) => {
                (TicketSync::AwaitingIssue { images }, TicketAction::ReadIssue(id))
            },
            (TicketSync::AwaitingIssue { images }, TicketEvent::IssueRead(read)) => {
                match read {
                    Some(issue) => TicketSync::reconcile(issue, false, images),
                    None => (TicketSync::Finished, TicketAction::Abort(SyncError::NotFound)),
                }
            },
            (TicketSync::AwaitingUpdate { images, issue }, TicketEvent::Updated) => {
                TicketSync::reconcile(issue, true, images)
            },
            (TicketSync::AwaitingReconcile { issue, existed }, TicketEvent::Reconciled) => {
                (TicketSync::Finished, TicketAction::Done { issue, existed })
            },
            (TicketSync::Finished, _) => (
                TicketSync::Finished,
                TicketAction::Abort(SyncError::OutOfOrder),
            ),
            (_, TicketEvent::Failed) => (
                TicketSync::Finished,
                TicketAction::Abort(SyncError::UpstreamRequestFailure),
            ),
            _ => (TicketSync::Finished, TicketAction::Abort(SyncError::OutOfOrder)),
        }
    }
}

impl Issue {
    /// Begins the synchronisation of a message into the ticket of its
    /// thread. The flow resolves the reporter, makes the ticket text from the
    /// message, places the images, looks for the ticket of the thread, creates
    /// or updates it, and reconciles its attachments. A message whose body
    /// cannot be handed to the Markdown converter is refused at once.
    pub fn create_or_update(request: TicketSyncRequest) -> (r: (TicketSync, TicketAction))
        ensures
            ticket_start(request, r.0, r.1),
    {
        if !is_convertible(request.description.as_str()) {
            return (TicketSync::Finished, TicketAction::Abort(SyncError::Markup));
        }
        let email = request.reporter_email.clone();
        (TicketSync::AwaitingReporter { request }, TicketAction::ResolveReporter(email))
    }
}

/// The ticket carries the thread URL `url`.
pub open spec fn linked_to(issue: Issue, url: Seq<char>) -> bool {
    &&& issue.fields matches Some(f)
    &&& f.teams_link matches Some(link)
    &&& link@ == url
}

/// What a search for the thread URL `url` returns from a ticket system
/// that holds the tickets `store`: the tickets that carry the URL.
pub open spec fn tickets_for(store: Seq<Issue>, url: Seq<char>) -> Seq<Issue>
    decreases store.len(),
{
    if store.len() == 0 {
        Seq::empty()
    } else if linked_to(store.last(), url) {
        tickets_for(store.drop_last(), url).push(store.last())
    } else {
        tickets_for(store.drop_last(), url)
    }
}

/// The ticket that a flow has settled on after the search, if it has.
pub open spec fn settled_ticket(state: TicketSync) -> Option<Issue> {
    match state {
        TicketSync::AwaitingBounce { issue, .. } => Some(issue),
        TicketSync::AwaitingUpdate { issue, .. } => Some(issue),
        _ => None,
    }
}

/// Synchronising a thread twice does not make a second ticket. On a ticket
/// system in which at most one ticket carries the thread URL, the first
/// flow asks for a ticket to be created exactly when none carries the URL;
/// and once that flow's request has been carried out (`created` being the
/// ticket that a creation added), a second flow for the same URL asks for
/// no creation and settles on the very ticket of the first.
pub proof fn lemma_ticket_sync_is_idempotent(
    store: Seq<Issue>,
    url: Seq<char>,
    created: Issue,
    config: Config,
    first: (TicketSync, Vec<Issue>, TicketSync, TicketAction),
    second: (TicketSync, Vec<Issue>, TicketSync, TicketAction),
)
    requires
        tickets_for(store, url).len() <= 1,
        linked_to(created, url),
        first.0 is AwaitingSearch,
        first.1@ == tickets_for(store, url),
        ticket_step(first.0, TicketEvent::SearchDone(first.1), config, first.2, first.3),
        second.0 is AwaitingSearch,
        second.1@ == tickets_for(
            if first.3 is Create {
                store.push(created)
            } else {
                store
            },
            url,
        ),
        ticket_step(second.0, TicketEvent::SearchDone(second.1), config, second.2, second.3),
    ensures
        first.3 is Create <==> tickets_for(store, url).len() == 0,
        !(second.3 is Create),
        settled_ticket(second.2) == Some(
            if first.3 is Create {
                created
            } else {
                settled_ticket(first.2)->0
            },
        ),
        tickets_for(
            if first.3 is Create {
                store.push(created)
            } else {
                store
            },
            url,
        ).len() == 1,
{
    if first.3 is Create {
        assert(store.push(created).drop_last() =~= store);
        assert(store.push(created).last() == created);
        assert(tickets_for(store.push(created), url) =~= seq![created]);
    }
}

/// How many outcomes a flow can still take, at most, before it is over.
pub open spec fn ticket_steps_left(state: TicketSync) -> nat {
    match state {
        TicketSync::AwaitingReporter { .. } => 8,
        TicketSync::AwaitingImages { .. } => 7,
        TicketSync::AwaitingSearch { .. } => 6,
        TicketSync::AwaitingBounce { .. } => 5,
        TicketSync::AwaitingCreate { .. } => 4,
        TicketSync::AwaitingIssue { .. } => 3,
        TicketSync::AwaitingUpdate { .. } => 3,
        TicketSync::AwaitingReconcile { .. } => 1,
        TicketSync::Finished => 0,
    }
}

/// Every flow ends: each outcome brings a flow that is not over strictly
/// nearer to its end, so that no flow takes more than eight outcomes.
pub proof fn lemma_ticket_sync_ends(
    pre: TicketSync,
    event: TicketEvent,
    config: Config,
    post: TicketSync,
    action: TicketAction,
)
    requires
        ticket_step(pre, event, config, post, action),
    ensures
        !(pre is Finished) ==> ticket_steps_left(post) < ticket_steps_left(pre),
        pre is Finished ==> post is Finished,
        post is Finished <==> (action is Done || action is Abort),
{
}

/// A message whose thread has no ticket yet gets one, and only one. Where
/// the body can be converted and holds no hosted-content address, the
/// search finds nothing, every request succeeds, the created ticket is
/// read back without attachments, and the matching engine accepts the
/// patterns, the flow asks in turn for the reporter, for no images, for the
/// search, for one creation that carries the thread URL, for the created
/// ticket, and for a reconciliation that deletes and uploads nothing; it
/// ends with that ticket and the word that it did not exist before.
pub proof fn lemma_new_message_creates_one_ticket(
    request: TicketSyncRequest,
    config: Config,
    reporter: Option<JiraUser>,
    fetched: Vec<FetchedImage>,
    found: Vec<Issue>,
    id: String,
    created: Issue,
    states: (TicketSync, TicketSync, TicketSync, TicketSync, TicketSync, TicketSync, TicketSync),
    actions: (
        TicketAction,
        TicketAction,
        TicketAction,
        TicketAction,
        TicketAction,
        TicketAction,
        TicketAction,
    ),
)
    requires
        convertible(request.description@),
        regex_find_all(
            GRAPH_URL_PATTERN@,
            ticket_text(request.description@, request.attachments@),
        ) == Some(Seq::<Seq<char>>::empty()),
        regex_find_all(PLACEHOLDER_PATTERN@, previous_text(created)) is Some,
        attachments_of(created) matches Some(attachments) ==> attachments.len() == 0,
        fetched@.len() == 0,
        found@.len() == 0,
        ticket_start(request, states.0, actions.0),
        ticket_step(states.0, TicketEvent::ReporterResolved(reporter), config, states.1, actions.1),
        ticket_step(states.1, TicketEvent::ImagesFetched(fetched), config, states.2, actions.2),
        ticket_step(states.2, TicketEvent::SearchDone(found), config, states.3, actions.3),
        ticket_step(states.3, TicketEvent::Created(id), config, states.4, actions.4),
        ticket_step(states.4, TicketEvent::IssueRead(Some(created)), config, states.5, actions.5),
        ticket_step(states.5, TicketEvent::Reconciled, config, states.6, actions.6),
    ensures
        actions.0 matches TicketAction::ResolveReporter(email) && email@
            == request.reporter_email@,
        actions.1 matches TicketAction::FetchImages(urls) && urls@.len() == 0,
        actions.2 is Search,
        actions.3 matches TicketAction::Create(draft) && draft.teams_link@ == request.message_url@,
        actions.4 == TicketAction::ReadIssue(id),
        actions.5 matches TicketAction::Reconcile { plan, images, .. } && plan.delete@.len() == 0
            && plan.upload@.len() == 0 && images@.len() == 0,
        actions.6 == (TicketAction::Done { issue: created, existed: false }),
        states.6 is Finished,
{
    let urls = actions.1->FetchImages_0;
    if urls@.len() > 0 {
        assert(urls.deep_view().contains(urls.deep_view()[0]));
    }
    let plan = actions.5->Reconcile_plan;
    let images = actions.5->Reconcile_images;
    assert(images@ =~= Seq::<GraphApiImage>::empty());
    assert(names_of(images@) =~= Seq::<Seq<char>>::empty());
    assert(plan.delete.deep_view().len() == 0);
    assert(upload_positions(plan).len() == 0);
}

/// A message whose thread has exactly one ticket updates that ticket and
/// creates none. Where the search finds the one ticket, every request
/// succeeds, and the matching engine accepts the placeholder pattern on the
/// ticket's previous text, a flow that has come to the search asks for no
/// creation: it sends the bounce first where the ticket is closed, asks for
/// one update addressed to the ticket, and ends with that ticket and the
/// word that it existed before.
pub proof fn lemma_known_message_updates_its_ticket(
    config: Config,
    found: Vec<Issue>,
    ticket: Issue,
    states: (TicketSync, TicketSync, TicketSync, TicketSync, TicketSync),
    actions: (TicketAction, TicketAction, TicketAction, TicketAction),
)
    requires
        states.0 is AwaitingSearch,
        found@ == seq![ticket],
        regex_find_all(PLACEHOLDER_PATTERN@, previous_text(ticket)) is Some,
        ticket_step(states.0, TicketEvent::SearchDone(found), config, states.1, actions.0),
        if ticket.is_closed() {
            ticket_step(states.1, TicketEvent::BounceSent, config, states.2, actions.1)
        } else {
            states.2 == states.1 && actions.1 == actions.0
        },
        ticket_step(states.2, TicketEvent::Updated, config, states.3, actions.2),
        ticket_step(states.3, TicketEvent::Reconciled, config, states.4, actions.3),
    ensures
        !(actions.0 is Create) && !(actions.1 is Create) && !(actions.2 is Create) && !(actions.3
            is Create),
        ticket.is_closed() ==> actions.0 is Bounce,
        actions.1 matches TicketAction::Update { id, .. } && id == ticket.id,
        actions.2 is Reconcile,
        actions.3 == (TicketAction::Done { issue: ticket, existed: true }),
        states.4 is Finished,
{
    assert(found@[0] == ticket);
}

} // verus!
