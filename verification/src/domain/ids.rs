//! Identifiers of users and posts. Each stands for a UUID, held as its
//! 128-bit value.

use vstd::prelude::*;

verus! {

/// Identifies a user.
#[derive(Clone, Copy, Debug, PartialEq, Eq, Hash)]
pub struct UserId(pub u128);

/// Identifies a post.
#[derive(Clone, Copy, Debug, PartialEq, Eq, Hash)]
pub struct PostId(pub u128);

} // verus!
