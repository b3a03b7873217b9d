//! Verified core of a small social chat service: the validated text types
//! of the domain, password hashing, the request payloads shared by client
//! and server, the decoding of stored images, the database pool's
//! bookkeeping, and the state kept by the client's forms, notices and post
//! list.

pub mod crypto;
pub mod client;
mod clock;
pub mod domain;
pub mod endpoint;
pub mod query;
pub mod server;
