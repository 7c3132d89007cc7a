pub mod cfg;
pub mod handlers;
