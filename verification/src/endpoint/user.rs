//! Account requests.

use vstd::prelude::*;

use super::{Endpoint, Update};
use crate::domain::ids::UserId;
use crate::domain::user::{DisplayName, Password, Username};
use crate::endpoint::post::PublicPost;

verus! {

/// Creates an account.
#[derive(Clone)]
pub struct CreateUser {
    pub username: Username,
    pub password: Password,
}

/// Logs in.
#[derive(Clone)]
pub struct Login {
    pub username: Username,
    pub password: Password,
}

/// Changes one's profile: display name, e-mail address, profile image (a
/// data URL) and password.
#[derive(Clone)]
pub struct UpdateProfile {
    pub display_name: Update<String>,
    pub email: Update<String>,
    pub profile_image: Update<String>,
    pub password: Update<Password>,
}

/// What anyone may see of a user: id, display name, handle, profile
/// image URL, when the account was made (milliseconds since the Unix
/// epoch, UTC), and whether one follows them.
#[derive(Clone, Debug)]
pub struct PublicUserProfile {
    pub id: UserId,
    pub display_name: Option<DisplayName>,
    pub handle: String,
    pub profile_image: Option<String>,
    pub created_at: i64,
    pub am_following: bool,
}

/// Asks for one's own profile.
#[derive(Clone, Copy, Debug)]
pub struct GetMyProfile;

/// One's own profile as stored: display name, e-mail address, image URL
/// and id.
#[derive(Clone, Debug)]
pub struct GetMyProfileOk {
    pub display_name: Option<String>,
    pub email: Option<String>,
    pub profile_image: Option<String>,
    pub user_id: UserId,
}

/// The profile's image URL after an [`UpdateProfile`] request.
#[derive(Clone, Debug)]
pub struct UpdateProfileOk {
    pub profile_image: Option<String>,
}

/// Asks for a user's profile and posts.
#[derive(Clone, Copy, Debug)]
pub struct ViewProfile {
    pub for_user: UserId,
}

/// A user's profile and posts.
#[derive(Clone, Debug)]
pub struct ViewProfileOk {
    pub profile: PublicUserProfile,
    pub posts: Vec<PublicPost>,
}

/// Whether to follow a user or stop following them; in a reply, whether
/// one follows them now.
#[derive(Clone, Copy, Debug, PartialEq, Eq)]
pub enum FollowAction {
    Follow,
    UnFollow,
}

impl From<FollowAction> for bool {
    /// `true` for [`FollowAction::Follow`], `false` for [`FollowAction::UnFollow`].
    fn from(value: FollowAction) -> (r: bool) {
        match value {
            FollowAction::Follow => true,
            FollowAction::UnFollow => false,
        }
    }
}

impl vstd::std_specs::convert::FromSpecImpl<FollowAction> for bool {
    open spec fn obeys_from_spec() -> bool {
        true
    }

    open spec fn from_spec(v: FollowAction) -> bool {
        v is Follow
    }
}

/// Follows a user or stops following them.
#[derive(Clone, Copy, Debug, PartialEq, Eq)]
pub struct FollowUser {
    pub user_id: UserId,
    pub action: FollowAction,
}

/// Whether one follows the user after a [`FollowUser`] request.
#[derive(Clone, Copy, Debug, PartialEq, Eq)]
pub struct FollowUserOk {
    pub status: FollowAction,
}

impl Endpoint for Login {
    const URL: &'static str = "/account/login";
}

impl Endpoint for CreateUser {
    const URL: &'static str = "/account/create";
}

} // verus!
