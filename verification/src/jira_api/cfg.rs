//! Settings of the ticket-system side.

use vstd::prelude::*;

verus! {

/// How the ticket system is reached and where tickets go.
pub struct Config {
    /// The account the integration acts as; also the address by which its
    /// own comments are recognised.
    pub user: String,
    /// The shared secret that signs inbound webhooks.
    pub secret: String,
    /// The API token of the account.
    pub token: String,
    pub base_url: String,
    pub project_key: String,
    /// The custom field that stores a ticket's thread URL, as named in
    /// ticket payloads.
    pub msteams_link_field_name: String,
    /// The same field as named in search queries.
    pub msteams_link_field_jql_name: String,
}

} // verus!
