//! State kept by the client: notification lists and form states.

pub mod local_profile;
pub mod navbar;
pub mod notifications;
pub mod pages;
pub mod post_manager;
pub mod route;
pub mod toaster;
