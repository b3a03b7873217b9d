//! URL paths of the service.

pub mod user_content;
