//! The form for a new image post.

use vstd::prelude::*;

use crate::client::route::{Navigation, Route};
use super::NOTICE_MILLIS;
use crate::client::toaster::{toast_pushed, ToastKind, Toaster};
use crate::domain::post::{caption_check, Caption};
use crate::endpoint::post::NewPostOk;

verus! {

/// What the image form holds: the caption (empty when the post has none)
/// and the chosen image as a data URL.
#[derive(Clone, Debug)]
pub struct PageState {
    pub caption: String,
    pub image: Option<String>,
}

/// Whether an image post with this caption and image may be made: the
/// caption is empty or valid, and an image was chosen.
pub open spec fn image_submittable(caption: Seq<char>, has_image: bool) -> bool {
    (caption.len() == 0 || caption_check(caption) is Ok) && has_image
}

impl Default for PageState {
    fn default() -> (r: Self)
        ensures
            r.caption@.len() == 0,
            r.image is None,
    {
        PageState { caption: String::new(), image: None }
    }
}

impl PageState {
    /// Whether the form may be submitted.
    pub fn can_submit(&self) -> (r: bool)
        ensures
            r == image_submittable(self.caption@, self.image is Some),
    {
        if !self.caption.as_str().is_empty() && Caption::try_new(self.caption.as_str()).is_err() {
            return false;
        }
        if self.image.is_none() {
            return false;
        }
        true
    }

    /// The caption to post; `None` for an empty caption.
    pub fn caption(&self) -> (r: Result<Option<Caption>, ()>)
        ensures
            match r {
                Ok(None) => self.caption@.len() == 0,
                Ok(Some(c)) => self.caption@.len() > 0 && caption_check(self.caption@) is Ok
                    && c@ == self.caption@,
                Err(()) => self.caption@.len() > 0 && caption_check(self.caption@) is Err,
            },
    {
        if self.caption.as_str().is_empty() {
            Ok(None)
        } else {
            match Caption::try_new(self.caption.as_str()) {
                Ok(c) => Ok(Some(c)),
                Err(_) => Err(()),
            }
        }
    }

    /// Takes the outcome of reading the chosen file as a data URL, which
    /// came at `now`: the image
    /// is kept; on failure an error notice is shown and the form is left as
    /// it is.
    pub fn on_image_read(&mut self, toaster: &mut Toaster, res: Result<String, String>, now: i64)
        requires
            old(toaster).next_id() < usize::MAX,
        ensures
            final(self).caption == old(self).caption,
            match res {
                Ok(data) => final(self).image == Some(data) && *final(toaster) == *old(toaster),
                Err(e) => {
                    &&& final(self).image == old(self).image
                    &&& toast_pushed(*old(toaster), *final(toaster), "error loading file: "@ + e@, ToastKind::Error, now, NOTICE_MILLIS)
                },
            },
    {
        match res {
            Ok(data) => {
                self.image = Some(data);
            },
            Err(e) => {
                let mut msg = String::from_str("error loading file: ");
                msg.append(e.as_str());
                toaster.push_at(msg.as_str(), ToastKind::Error, now, NOTICE_MILLIS);
            },
        }
    }
}

/// Takes the reply to posting the image: `Posted!` and the home page in
/// the form's place in the history on success, `Post failed: ` and the reason on failure.
pub fn on_post_response(toaster: &mut Toaster, res: Result<NewPostOk, String>, now: i64) -> (r: Option<Navigation>)
    requires
        old(toaster).next_id() < usize::MAX,
    ensures
        match res {
            Ok(_) => {
                &&& toast_pushed(*old(toaster), *final(toaster), "Posted!"@, ToastKind::Success, now, NOTICE_MILLIS)
                &&& r == Some(Navigation::Replace(Route::Home))
            },
            Err(e) => {
                &&& toast_pushed(*old(toaster), *final(toaster), "Post failed: "@ + e@, ToastKind::Error, now, NOTICE_MILLIS)
                &&& r is None
            },
        },
{
    super::on_post_response(toaster, res, "Posted!", "Post failed: ", now)
}

} // verus!
