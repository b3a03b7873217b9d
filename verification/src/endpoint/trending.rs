//! Requests for lists of posts.

use vstd::prelude::*;

use super::Endpoint;
use super::post::PublicPost;

verus! {

/// Asks for the trending posts.
#[derive(Clone, Copy, Debug, PartialEq, Eq)]
pub struct TrendingPosts;

/// Asks for the posts of the people one follows.
#[derive(Clone, Copy, Debug, PartialEq, Eq)]
pub struct HomePosts;

/// Asks for the posts one liked.
#[derive(Clone, Copy, Debug, PartialEq, Eq)]
pub struct LikePosts;

/// Asks for the posts one bookmarked.
#[derive(Clone, Copy, Debug, PartialEq, Eq)]
pub struct BookmarkPosts;

/// The trending posts.
#[derive(Clone, Debug)]
pub struct TrendingPostOk {
    pub posts: Vec<PublicPost>,
}

/// The posts of the people one follows.
#[derive(Clone, Debug)]
pub struct HomePostsOk {
    pub posts: Vec<PublicPost>,
}

/// The posts one liked.
#[derive(Clone, Debug)]
pub struct LikePostsOk {
    pub posts: Vec<PublicPost>,
}

/// The posts one bookmarked.
#[derive(Clone, Debug)]
pub struct BookmarkPostsOk {
    pub posts: Vec<PublicPost>,
}

impl Endpoint for TrendingPosts {
    const URL: &'static str = "/posts/trending";
}

} // verus!
