//! The domain's validated values.

pub mod ids;
pub mod post;
pub mod user;

use vstd::prelude::*;

verus! {

/// A validation error that can be shown to the person who typed the value.
pub trait UserFacingError {
    /// A short explanation of the error, in plain words.
    fn formatted_error(&self) -> &'static str;
}

} // verus!
