//! The client's pages.

use vstd::prelude::*;

use crate::domain::ids::UserId;

verus! {

/// A page of the client.
#[derive(Clone, Copy, Debug, PartialEq, Eq)]
pub enum Route {
    Register,
    Login,
    Home,
    HomeBookmarked,
    HomeLiked,
    NewChat,
    NewImage,
    NewPoll,
    Trending,
    EditProfile,
    ViewProfile { user: UserId },
}

/// A move to another page: `Push` adds it to the history, `Replace` puts it
/// in place of the current entry, so going back skips the page left.
#[derive(Clone, Copy, Debug, PartialEq, Eq)]
pub enum Navigation {
    Push(Route),
    Replace(Route),
}

/// The page that shows a user's profile.
pub fn profile_view(user_id: UserId) -> (r: Route)
    ensures
        r == (Route::ViewProfile { user: user_id }),
{
    Route::ViewProfile { user: user_id }
}

impl Route {
    /// Whether the navigation bar is hidden on this page: it is on the
    /// login and account pages.
    pub fn hides_navbar(&self) -> (r: bool)
        ensures
            r == (*self is Login || *self is Register),
    {
        match self {
            Route::Login | Route::Register => true,
            _ => false,
        }
    }

    /// The path of a page that takes no parameter; `None` for a profile,
    /// whose path holds the user's id.
    pub fn path(&self) -> (r: Option<&'static str>)
        ensures
            match *self {
                Route::Register => r == Some("/account/register"),
                Route::Login => r == Some("/account/login"),
                Route::Home => r == Some("/home"),
                Route::HomeBookmarked => r == Some("/home/bookmarked"),
                Route::HomeLiked => r == Some("/home/liked"),
                Route::NewChat => r == Some("/post/new_chat"),
                Route::NewImage => r == Some("/post/new_image"),
                Route::NewPoll => r == Some("/post/new_poll"),
                Route::Trending => r == Some("/posts/trending"),
                Route::EditProfile => r == Some("/profile/edit"),
                Route::ViewProfile { .. } => r is None,
            },
    {
        match self {
            Route::Register => Some("/account/register"),
            Route::Login => Some("/account/login"),
            Route::Home => Some("/home"),
            Route::HomeBookmarked => Some("/home/bookmarked"),
            Route::HomeLiked => Some("/home/liked"),
            Route::NewChat => Some("/post/new_chat"),
            Route::NewImage => Some("/post/new_image"),
            Route::NewPoll => Some("/post/new_poll"),
            Route::Trending => Some("/posts/trending"),
            Route::EditProfile => Some("/profile/edit"),
            Route::ViewProfile { .. } => None,
        }
    }
}

} // verus!
