//! The profile page: one user's profile, their posts, and the button that
//! follows them or stops following them.

use vstd::prelude::*;

use crate::client::post_manager::{populated, PostManager};
use crate::client::toaster::{toast_pushed, ToastKind, Toaster};
use crate::domain::ids::UserId;
use crate::endpoint::user::{
    FollowAction, FollowUser, FollowUserOk, PublicUserProfile, ViewProfile, ViewProfileOk,
};

use super::NOTICE_MILLIS;

verus! {


/// The profile once it has arrived; `None` while it is loading.
pub struct PageState {
    pub profile: Option<PublicUserProfile>,
}

/// The profile after a reply to a follow request: where one is shown, it
/// records whether one follows the user now; nothing else changes.
pub open spec fn followed(profile: Option<PublicUserProfile>, status: FollowAction) -> Option<PublicUserProfile> {
    match profile {
        Some(p) => Some(PublicUserProfile { am_following: status is Follow, ..p }),
        None => None,
    }
}

/// A follow reply is recorded exactly: where a profile is on show, after
/// the reply its `am_following` is whether the reply's status is
/// `Follow`, and every other field is as before; where none is on show,
/// none is afterwards. So the follow button then reads `Unfollow` exactly
/// when the reply says one follows the user.
pub proof fn law_follow_reply_is_recorded(profile: Option<PublicUserProfile>, status: FollowAction)
    ensures
        followed(profile, status) is Some <==> profile is Some,
        profile matches Some(p) ==> followed(profile, status) matches Some(q) && {
            &&& q.am_following == (status is Follow)
            &&& q.id == p.id
            &&& q.display_name == p.display_name
            &&& q.handle == p.handle
            &&& q.profile_image == p.profile_image
            &&& q.created_at == p.created_at
        },
        shows_following(followed(profile, status)) <==> (profile is Some && status is Follow),
{
}

/// Whether the profile on show says that one follows its user.
pub open spec fn shows_following(profile: Option<PublicUserProfile>) -> bool {
    profile matches Some(p) && p.am_following
}

impl PageState {
    /// No profile yet.
    pub fn new() -> (r: Self)
        ensures
            r.profile is None,
    {
        PageState { profile: None }
    }

    /// Starts loading the page of `user`: the posts on show are cleared,
    /// and the request to send is returned.
    pub fn request(&self, posts: &mut PostManager, user: UserId) -> (r: ViewProfile)
        ensures
            r.for_user == user,
            final(posts)@ == Seq::<(u128, crate::endpoint::post::PublicPost)>::empty(),
    {
        posts.clear();
        ViewProfile { for_user: user }
    }

    /// Takes the reply to the profile request, which came at `now`: the profile and the user's
    /// posts are shown; on failure an error notice is shown and nothing
    /// else changes.
    pub fn on_profile_response(
        &mut self,
        posts: &mut PostManager,
        toaster: &mut Toaster,
        res: Result<ViewProfileOk, String>,
        now: i64,
    )
        requires
            old(toaster).next_id() < usize::MAX,
        ensures
            match res {
                Ok(ok) => {
                    &&& final(self).profile == Some(ok.profile)
                    &&& final(posts)@ == populated(Seq::empty(), ok.posts@)
                    &&& *final(toaster) == *old(toaster)
                },
                Err(e) => {
                    &&& final(self).profile == old(self).profile
                    &&& final(posts)@ == old(posts)@
                    &&& toast_pushed(*old(toaster), *final(toaster), "Failed to retrieve posts: "@ + e@, ToastKind::Error, now, NOTICE_MILLIS)
                },
            },
    {
        match res {
            Ok(ok) => {
                self.profile = Some(ok.profile);
                posts.populate(ok.posts);
            },
            Err(e) => {
                let mut msg = String::from_str("Failed to retrieve posts: ");
                msg.append(e.as_str());
                toaster.push_at(msg.as_str(), ToastKind::Error, now, NOTICE_MILLIS);
            },
        }
    }

    /// The request that the follow button sends for `user`: stop following
    /// where the profile on show says one follows them, follow otherwise.
    pub fn follow_request(&self, user: UserId) -> (r: FollowUser)
        ensures
            r.user_id == user,
            r.action == (if shows_following(self.profile) {
                FollowAction::UnFollow
            } else {
                FollowAction::Follow
            }),
    {
        let am_following = match &self.profile {
            Some(p) => p.am_following,
            None => false,
        };
        let action = if am_following {
            FollowAction::UnFollow
        } else {
            FollowAction::Follow
        };
        FollowUser { action, user_id: user }
    }

    /// Takes the reply to a follow request, which came at `now`: the profile records the new
    /// status; on failure an error notice is shown and nothing else changes.
    pub fn on_follow_response(&mut self, toaster: &mut Toaster, res: Result<FollowUserOk, String>, now: i64)
        requires
            old(toaster).next_id() < usize::MAX,
        ensures
            match res {
                Ok(ok) => {
                    &&& final(self).profile == followed(old(self).profile, ok.status)
                    &&& final(self).profile is Some <==> old(self).profile is Some
                    &&& final(self).profile matches Some(q) ==> q.am_following == (ok.status is Follow)
                    &&& *final(toaster) == *old(toaster)
                },
                Err(e) => {
                    &&& final(self).profile == old(self).profile
                    &&& toast_pushed(
                        *old(toaster),
                        *final(toaster),
                        "Failed to update follow status: "@ + e@,
                        ToastKind::Error,
                        now,
                        NOTICE_MILLIS,
                    )
                },
            },
    {
        match res {
            Ok(ok) => {
                let following: bool = ok.status.into();
                match &mut self.profile {
                    Some(p) => {
                        p.am_following = following;
                    },
                    None => {},
                }
            },
            Err(e) => {
                let mut msg = String::from_str("Failed to update follow status: ");
                msg.append(e.as_str());
                toaster.push_at(msg.as_str(), ToastKind::Error, now, NOTICE_MILLIS);
            },
        }
    }

    /// The label of the follow button, where there is one: a profile is on
    /// show and one is signed in as another user. It reads `Unfollow` where
    /// one follows the user and `Follow` otherwise.
    pub fn follow_button(&self, me: Option<UserId>) -> (r: Option<&'static str>)
        ensures
            r is Some <==> (self.profile matches Some(p) && me matches Some(id) && id != p.id),
            r matches Some(label) ==> label@ == (if shows_following(self.profile) {
                "Unfollow"@
            } else {
                "Follow"@
            }),
    {
        match &self.profile {
            Some(p) => match me {
                Some(id) => {
                    if id.0 == p.id.0 {
                        None
                    } else if p.am_following {
                        Some("Unfollow")
                    } else {
                        Some("Follow")
                    }
                },
                None => None,
            },
            None => None,
        }
    }
}

/// The name shown on a profile: the display name, or `(None)` where the
/// user has none.
pub fn display_name_text(profile: &PublicUserProfile) -> (r: String)
    ensures
        r@ == match profile.display_name {
            Some(n) => n@,
            None => "(None)"@,
        },
{
    match &profile.display_name {
        Some(n) => n.as_ref().to_owned(),
        None => String::from_str("(None)"),
    }
}

/// The source of the profile's image: its URL, or empty where there is none.
pub fn profile_image_src(profile: &PublicUserProfile) -> (r: String)
    ensures
        r@ == match profile.profile_image {
            Some(u) => u@,
            None => Seq::<char>::empty(),
        },
{
    match &profile.profile_image {
        Some(u) => u.clone(),
        None => String::new(),
    }
}

} // verus!
