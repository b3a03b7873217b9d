//! The form for a new chat post.

use vstd::prelude::*;

use crate::domain::post::{heading_check, message_check, Heading, Message};
use crate::client::route::{Navigation, Route};
use super::NOTICE_MILLIS;
use crate::client::toaster::{toast_pushed, ToastKind, Toaster};
use crate::endpoint::post::{Chat, Content, NewPost, NewPostOk, NewPostOptions};

verus! {

/// What the chat form holds: the message and the heading (empty when the
/// post has none).
#[derive(Clone, Debug)]
pub struct PageState {
    pub message: String,
    pub heading: String,
}

/// Whether a chat with this message and heading may be posted: the message
/// is valid, and the heading is empty or valid.
pub open spec fn chat_submittable(message: Seq<char>, heading: Seq<char>) -> bool {
    message_check(message) is Ok && (heading.len() == 0 || heading_check(heading) is Ok)
}

impl Default for PageState {
    fn default() -> (r: Self)
        ensures
            r.message@.len() == 0,
            r.heading@.len() == 0,
    {
        PageState { message: String::new(), heading: String::new() }
    }
}

impl PageState {
    /// Whether the form may be submitted.
    pub fn can_submit(&self) -> (r: bool)
        ensures
            r == chat_submittable(self.message@, self.heading@),
    {
        if Message::try_new(self.message.as_str()).is_err() {
            return false;
        }
        if !self.heading.as_str().is_empty() && Heading::try_new(self.heading.as_str()).is_err() {
            return false;
        }
        true
    }

    /// The chat to post; `None` exactly where the form may not be
    /// submitted. An empty heading gives a chat without one.
    pub fn to_chat(&self) -> (r: Option<Chat>)
        ensures
            r is Some <==> chat_submittable(self.message@, self.heading@),
            r matches Some(c) ==> {
                &&& c.message@ == self.message@
                &&& if self.heading@.len() == 0 {
                    c.heading is None
                } else {
                    c.heading matches Some(h) && h@ == self.heading@
                }
            },
    {
        let message = match Message::try_new(self.message.as_str()) {
            Ok(m) => m,
            Err(_) => return None,
        };
        let heading = if self.heading.as_str().is_empty() {
            None
        } else {
            match Heading::try_new(self.heading.as_str()) {
                Ok(h) => Some(h),
                Err(_) => return None,
            }
        };
        Some(Chat { heading, message })
    }

    /// The request that posts the chat, public and answering nothing;
    /// `None` exactly where the form may not be submitted.
    pub fn to_new_post(&self) -> (r: Option<NewPost>)
        ensures
            r is Some <==> chat_submittable(self.message@, self.heading@),
            r matches Some(p) ==> {
                &&& p.content matches Content::Chat(c) && c.message@ == self.message@ && (if self.heading@.len() == 0 {
                    c.heading is None
                } else {
                    c.heading matches Some(h) && h@ == self.heading@
                })
                &&& p.options.reply_to is None
                &&& p.options.direct_message_to is None
            },
    {
        match self.to_chat() {
            Some(chat) => Some(NewPost { content: Content::Chat(chat), options: NewPostOptions::default() }),
            None => None,
        }
    }
}

/// Takes the reply to posting the chat: `Posted!` and the home page in
/// the form's place in the history on success, `Post failed: ` and the reason on failure.
pub fn on_post_response(toaster: &mut Toaster, res: Result<NewPostOk, String>, now: i64) -> (r: Option<Navigation>)
    requires
        old(toaster).next_id() < usize::MAX,
    ensures
        match res {
            Ok(_) => {
                &&& toast_pushed(*old(toaster), *final(toaster), "Posted!"@, ToastKind::Success, now, NOTICE_MILLIS)
                &&& r == Some(Navigation::Replace(Route::Home))
            },
            Err(e) => {
                &&& toast_pushed(*old(toaster), *final(toaster), "Post failed: "@ + e@, ToastKind::Error, now, NOTICE_MILLIS)
                &&& r is None
            },
        },
{
    super::on_post_response(toaster, res, "Posted!", "Post failed: ", now)
}

} // verus!
