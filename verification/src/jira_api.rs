pub mod attachment;
pub mod cfg;
pub mod comment;
pub mod issue;
pub mod model;
pub mod user;
