//! The pages that show a list of posts: the home page, the bookmarked
//! posts and the trending posts.

use vstd::prelude::*;

use crate::client::post_manager::{populated, PostManager};
use crate::client::toaster::{toast_pushed, ToastKind, Toaster};
use crate::endpoint::post::PublicPost;
use super::NOTICE_MILLIS;

verus! {

/// Which list of posts a page shows.
#[derive(Clone, Copy, Debug, PartialEq, Eq)]
pub enum PostList {
    Home,
    Bookmarked,
    Trending,
}

/// The notice shown while a list is being retrieved.
pub open spec fn retrieving_message(list: PostList) -> Seq<char> {
    match list {
        PostList::Trending => "Retrieving trending posts"@,
        _ => "Retrieving posts"@,
    }
}

/// What a page does at `now`, before it sends the request for `list`: it
/// shows the notice that the list is being retrieved, and the bookmarked
/// page also clears the posts on show; the others keep them until the
/// reply comes.
pub fn announce_retrieval(posts: &mut PostManager, toaster: &mut Toaster, list: PostList, now: i64)
    requires
        old(toaster).next_id() < usize::MAX,
    ensures
        toast_pushed(*old(toaster), *final(toaster), retrieving_message(list), ToastKind::Info, now, NOTICE_MILLIS),
        final(posts)@ == if list is Bookmarked {
            Seq::<(u128, PublicPost)>::empty()
        } else {
            old(posts)@
        },
{
    let msg = match list {
        PostList::Trending => "Retrieving trending posts",
        _ => "Retrieving posts",
    };
    toaster.push_at(msg, ToastKind::Info, now, NOTICE_MILLIS);
    if let PostList::Bookmarked = list {
        posts.clear();
    }
}

/// Takes the reply to a request for a list of posts, which came at `now`:
/// the posts on show are exactly the list, in order; on failure none is
/// shown and an error notice is.
pub fn on_posts_response(posts: &mut PostManager, toaster: &mut Toaster, res: Result<Vec<PublicPost>, String>, now: i64)
    requires
        old(toaster).next_id() < usize::MAX,
    ensures
        match res {
            Ok(v) => {
                &&& final(posts)@ == populated(Seq::empty(), v@)
                &&& *final(toaster) == *old(toaster)
            },
            Err(e) => {
                &&& final(posts)@ == Seq::<(u128, PublicPost)>::empty()
                &&& toast_pushed(*old(toaster), *final(toaster), "Failed to retrive posts: "@ + e@, ToastKind::Error, now, NOTICE_MILLIS)
            },
        },
{
    posts.clear();
    match res {
        Ok(v) => posts.populate(v),
        Err(e) => {
            let mut msg = String::from_str("Failed to retrive posts: ");
            msg.append(e.as_str());
            toaster.push_at(msg.as_str(), ToastKind::Error, now, NOTICE_MILLIS);
        },
    }
}

/// Whether the page shows the link to the trending posts in place of a
/// list: exactly when no post is on show.
pub fn shows_trending_link(posts: &PostManager) -> (r: bool)
    ensures
        r == (posts@.len() == 0),
{
    posts.is_empty()
}

} // verus!
