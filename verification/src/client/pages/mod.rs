//! The state of the client's forms, and the decisions they take on input.

pub mod chat;
pub mod edit_profile;
pub mod home;
pub mod image;
pub mod login;
pub mod poll;
pub mod quick_respond;
pub mod register;
pub mod view_profile;

use vstd::prelude::*;

use crate::client::route::{Navigation, Route};
use crate::client::toaster::{toast_pushed, ToastKind, Toaster};
use crate::endpoint::post::NewPostOk;

verus! {

/// Whether a length counter should be drawn as wrong: the text is empty or
/// its length in UTF-8 bytes is over `max`.
pub fn wrong_len(text: &str, max: usize) -> (r: bool)
    ensures
        r == (text.len() > max || text@.len() == 0),
{
    text.len() > max || text.is_empty()
}

/// Whether a length counter of optional text should be drawn as wrong: its
/// UTF-8 encoding is longer than `max` bytes.
pub fn too_long(text: &str, max: usize) -> (r: bool)
    ensures
        r == (text.len() > max),
{
    text.len() > max
}
/// How long the pages' notices are shown, in milliseconds.
pub const NOTICE_MILLIS: i64 = 3000;

/// Takes the reply to a new post, which came at `now`: on success the
/// notice `success` is shown and the home page takes the form's place in
/// the history; on failure an error notice of `failure` followed by the
/// reason is shown and the form stays.
pub fn on_post_response(
    toaster: &mut Toaster,
    res: Result<NewPostOk, String>,
    success: &str,
    failure: &str,
    now: i64,
) -> (r: Option<Navigation>)
    requires
        old(toaster).next_id() < usize::MAX,
    ensures
        match res {
            Ok(_) => {
                &&& toast_pushed(*old(toaster), *final(toaster), success@, ToastKind::Success, now, NOTICE_MILLIS)
                &&& r == Some(Navigation::Replace(Route::Home))
            },
            Err(e) => {
                &&& toast_pushed(*old(toaster), *final(toaster), failure@ + e@, ToastKind::Error, now, NOTICE_MILLIS)
                &&& r is None
            },
        },
{
    match res {
        Ok(_) => {
            toaster.push_at(success, ToastKind::Success, now, NOTICE_MILLIS);
            Some(Navigation::Replace(Route::Home))
        },
        Err(e) => {
            let mut msg = failure.to_owned();
            msg.append(e.as_str());
            toaster.push_at(msg.as_str(), ToastKind::Error, now, NOTICE_MILLIS);
            None
        },
    }
}

} // verus!
