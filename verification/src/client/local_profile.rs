//! What the client knows of the signed-in user.

use vstd::prelude::*;

use crate::client::route::{Navigation, Route};
use crate::client::toaster::{toast_pushed, ToastKind, Toaster};
use crate::domain::ids::UserId;
use crate::endpoint::user::GetMyProfileOk;

verus! {

/// The signed-in user's id and profile image URL, where known.
#[derive(Clone, Debug)]
pub struct LocalProfile {
    pub image: Option<String>,
    pub user_id: Option<UserId>,
}

impl LocalProfile {
    /// Nothing known: no one has signed in yet.
    pub fn new() -> (r: Self)
        ensures
            r.image is None,
            r.user_id is None,
    {
        LocalProfile { image: None, user_id: None }
    }
}

/// How long the start-up notice is shown, in milliseconds.
pub const SIGN_IN_NOTICE_MILLIS: i64 = 3000;

/// Takes the reply, which came at `now`, to the request for one's profile
/// that the client sends when it starts: the signed-in user's id and image
/// are recorded; where no one is signed in, a notice asks to log in and
/// the login page is pushed onto the history.
pub fn on_startup_profile_response(
    local: &mut LocalProfile,
    toaster: &mut Toaster,
    res: Result<GetMyProfileOk, String>,
    now: i64,
) -> (r: Option<Navigation>)
    requires
        old(toaster).next_id() < usize::MAX,
    ensures
        match res {
            Ok(p) => {
                &&& final(local).image == p.profile_image
                &&& final(local).user_id == Some(p.user_id)
                &&& *final(toaster) == *old(toaster)
                &&& r is None
            },
            Err(_) => {
                &&& *final(local) == *old(local)
                &&& toast_pushed(
                    *old(toaster),
                    *final(toaster),
                    "please login or create account."@,
                    ToastKind::Error,
                    now,
                    SIGN_IN_NOTICE_MILLIS,
                )
                &&& r == Some(Navigation::Push(Route::Login))
            },
        },
{
    match res {
        Ok(p) => {
            local.image = p.profile_image;
            local.user_id = Some(p.user_id);
            None
        },
        Err(_) => {
            toaster.push_at("please login or create account.", ToastKind::Error, now, SIGN_IN_NOTICE_MILLIS);
            Some(Navigation::Push(Route::Login))
        },
    }
}

} // verus!
