//! The quick reply box under a post.

use vstd::prelude::*;
use vstd::string::StringSliceAdditionalSpecFns;
use vstd::utf8::{encode_scalar, encode_utf8};

use crate::client::toaster::{toast_pushed, ToastKind, Toaster};
use crate::domain::post::{message_check, Message};
use crate::endpoint::post::{Chat, NewPostOk};
use super::NOTICE_MILLIS;

verus! {

/// Whether the reply may be sent: it is not empty and its UTF-8 encoding
/// is at most [`Message::MAX_CHARS`] bytes long.
pub fn can_submit(message: &str) -> (r: bool)
    ensures
        r == (message.len() <= Message::MAX_CHARS && message@.len() > 0),
{
    message.len() <= Message::MAX_CHARS && !message.is_empty()
}

/// The reply to post: a chat without heading; `None` where the text is not
/// a valid message.
pub fn reply_chat(message: &str) -> (r: Option<Chat>)
    ensures
        r is Some <==> message_check(message@) is Ok,
        r matches Some(c) ==> c.heading is None && c.message@ == message@,
{
    match Message::try_new(message) {
        Ok(m) => Some(Chat { heading: None, message: m }),
        Err(_) => None,
    }
}

/// Takes the reply to sending a reply, which came at `now`: on success a
/// notice says so and the box closes; on failure an error notice with the
/// reason is shown and the box stays as it is.
pub fn on_reply_response(opened: &mut bool, toaster: &mut Toaster, res: Result<NewPostOk, String>, now: i64)
    requires
        old(toaster).next_id() < usize::MAX,
    ensures
        match res {
            Ok(_) => {
                &&& toast_pushed(*old(toaster), *final(toaster), "Reply success"@, ToastKind::Success, now, NOTICE_MILLIS)
                &&& !*final(opened)
            },
            Err(e) => {
                &&& toast_pushed(*old(toaster), *final(toaster), "Reply failed: "@ + e@, ToastKind::Error, now, NOTICE_MILLIS)
                &&& *final(opened) == *old(opened)
            },
        },
{
    match res {
        Ok(_) => {
            toaster.push_at("Reply success", ToastKind::Success, now, NOTICE_MILLIS);
            *opened = false;
        },
        Err(e) => {
            let mut msg = String::from_str("Reply failed: ");
            msg.append(e.as_str());
            toaster.push_at(msg.as_str(), ToastKind::Error, now, NOTICE_MILLIS);
        },
    }
}

proof fn lemma_encode_utf8_len(s: Seq<char>)
    ensures
        encode_utf8(s).len() >= s.len(),
    decreases s.len(),
{
    if s.len() > 0 {
        assert(encode_scalar(s[0] as u32).len() >= 1);
        lemma_encode_utf8_len(s.drop_first());
    }
}

/// A reply that may be sent is a valid message: it has no more characters
/// than bytes.
pub proof fn lemma_sendable_reply_is_message(message: &str)
    requires
        message.spec_bytes().len() <= usize::MAX,
        message.len() <= Message::MAX_CHARS && message@.len() > 0,
    ensures
        message_check(message@) is Ok,
{
    lemma_encode_utf8_len(message@);
}

} // verus!
