pub mod cfg;
pub mod delegated_token;
pub mod image;
pub mod message;
pub mod model;
pub mod subscription;
pub mod token;
