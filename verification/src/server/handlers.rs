pub mod helpers;
pub mod jira;
pub mod teams;
pub mod teams_lifecycle;
