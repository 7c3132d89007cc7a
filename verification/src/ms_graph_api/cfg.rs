//! Settings of the chat-platform side.

use vstd::prelude::*;

verus! {

/// How the chat platform is reached and which channel is watched.
pub struct Config {
    pub tenant_id: String,
    pub client_id: String,
    pub client_secret: String,
    /// Where the platform sends notifications about messages.
    pub notification_url: String,
    /// Where the platform sends notifications about the subscription itself.
    pub lifecycle_notification_url: String,
    /// Where the platform sends the user back after consent.
    pub oauth_url: String,
    pub group_id: String,
    pub channel_id: String,
    /// The address of the user the integration writes as.
    pub teams_user: String,
}

} // verus!
