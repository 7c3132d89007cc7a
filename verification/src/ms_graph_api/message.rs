//! Chat messages as the platform reports them.

use vstd::prelude::*;

verus! {

/// A chat message or reply.
pub struct MsGraphMessage {
    pub id: String,
    pub web_url: Option<String>,
    pub from: MessageFrom,
    pub body: MessageBody,
    pub attachments: Vec<TeamsAttachment>,
    pub subject: Option<String>,
}

/// Who sent a message; absent for messages that no user wrote.
pub struct MessageFrom {
    pub user: Option<MsGraphUser>,
}

/// The HTML body of a message.
pub struct MessageBody {
    pub content: String,
}

/// A file attached to a message.
pub struct TeamsAttachment {
    pub content_url: Option<String>,
    pub name: Option<String>,
}

/// A chat user, by the numeric value of the platform's identifier.
#[derive(Clone, Copy, Debug, PartialEq, Eq, Structural)]
pub struct MsGraphUser {
    pub id: u128,
}

} // verus!
