//! Posts: their content, the options they are made with, and the requests
//! that make, bookmark or react to one.

use vstd::prelude::*;

use super::Endpoint;
use crate::clock::read_clock;
use crate::domain::ids::{PostId, UserId};
use crate::domain::post::{Heading, Message};
use crate::domain::user::Username;
use crate::endpoint::user::PublicUserProfile;

verus! {

/// A chat post: an optional heading and a message.
#[derive(Clone, Debug)]
pub struct Chat {
    pub heading: Option<Heading>,
    pub message: Message,
}

/// What a post holds.
#[derive(Clone, Debug)]
pub enum Content {
    Chat(Chat),
}

impl From<Chat> for Content {
    fn from(value: Chat) -> (r: Content) {
        Content::Chat(value)
    }
}

impl vstd::std_specs::convert::FromSpecImpl<Chat> for Content {
    open spec fn obeys_from_spec() -> bool {
        true
    }

    open spec fn from_spec(v: Chat) -> Content {
        Content::Chat(v)
    }
}

/// Options a post is made with: the post it answers, the user it is a
/// direct message to, and the time it was posted (milliseconds since the
/// Unix epoch, UTC).
#[derive(Clone, Copy, Debug, PartialEq, Eq)]
pub struct NewPostOptions {
    pub reply_to: Option<PostId>,
    pub direct_message_to: Option<UserId>,
    pub time_posted: i64,
}

impl Default for NewPostOptions {
    /// A public post that answers nothing, posted now.
    fn default() -> (r: Self)
        ensures
            r.reply_to is None,
            r.direct_message_to is None,
    {
        NewPostOptions { reply_to: None, direct_message_to: None, time_posted: read_clock().millis() }
    }
}

/// Makes a post.
#[derive(Clone, Debug)]
pub struct NewPost {
    pub content: Content,
    pub options: NewPostOptions,
}

/// The id of a post that was made.
#[derive(Clone, Copy, Debug, PartialEq, Eq)]
pub struct NewPostOk {
    pub post_id: PostId,
}

/// Whether a bookmark is set or taken away.
#[derive(Clone, Copy, Debug, PartialEq, Eq)]
pub enum BookmarkAction {
    Add,
    Remove,
}

impl From<BookmarkAction> for bool {
    /// `true` for [`BookmarkAction::Add`], `false` for [`BookmarkAction::Remove`].
    fn from(value: BookmarkAction) -> (r: bool) {
        match value {
            BookmarkAction::Add => true,
            BookmarkAction::Remove => false,
        }
    }
}

impl vstd::std_specs::convert::FromSpecImpl<BookmarkAction> for bool {
    open spec fn obeys_from_spec() -> bool {
        true
    }

    open spec fn from_spec(v: BookmarkAction) -> bool {
        v is Add
    }
}

/// Sets or takes away the bookmark on a post.
#[derive(Clone, Copy, Debug, PartialEq, Eq)]
pub struct Bookmark {
    pub post_id: PostId,
    pub action: BookmarkAction,
}

/// The bookmark's state after a [`Bookmark`] request.
#[derive(Clone, Copy, Debug, PartialEq, Eq)]
pub struct BookmarkOk {
    pub status: BookmarkAction,
}

/// One's reaction to a post.
#[derive(Clone, Copy, Debug, PartialEq, Eq)]
pub enum LikeStatus {
    Dislike,
    Like,
    NoReaction,
}

/// Reacts to a post.
#[derive(Clone, Copy, Debug, PartialEq, Eq)]
pub struct React {
    pub post_id: PostId,
    pub like_status: LikeStatus,
}

/// The reaction and the post's counts after a [`React`] request.
#[derive(Clone, Copy, Debug, PartialEq, Eq)]
pub struct ReactOk {
    pub like_status: LikeStatus,
    pub likes: i64,
    pub dislikes: i64,
}

/// A post as shown to a user: who made it, what it holds, when it was
/// posted (milliseconds since the Unix epoch, UTC), what it answers, the
/// user's own reaction, bookmark and boost, and the post's counts.
#[derive(Clone, Debug)]
pub struct PublicPost {
    pub id: PostId,
    pub by_user: PublicUserProfile,
    pub content: Content,
    pub time_posted: i64,
    pub reply_to: Option<(Username, UserId, PostId)>,
    pub like_status: LikeStatus,
    pub bookmarked: bool,
    pub boosted: bool,
    pub likes: i64,
    pub dislikes: i64,
    pub boosts: i64,
}

impl Endpoint for NewPost {
    const URL: &'static str = "/post/new";
}

impl Endpoint for Bookmark {
    const URL: &'static str = "/posts/bookmark";
}

impl Endpoint for React {
    const URL: &'static str = "/posts/react";
}

} // verus!
