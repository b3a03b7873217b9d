//! The navigation bar at the bottom of the client.

use vstd::prelude::*;

use crate::client::route::Route;

verus! {

/// What the navigation bar holds: whether the new-post popup is hidden.
#[derive(Clone, Copy, Debug, PartialEq, Eq)]
pub struct NavbarState {
    pub hide_new_post_popup: bool,
}

impl NavbarState {
    /// The popup starts hidden.
    pub fn new() -> (r: Self)
        ensures
            r.hide_new_post_popup,
    {
        NavbarState { hide_new_post_popup: true }
    }

    /// A click on the Post button shows the popup where it was hidden and
    /// hides it where it was shown.
    pub fn on_post_click(&mut self)
        ensures
            final(self).hide_new_post_popup == !old(self).hide_new_post_popup,
    {
        self.hide_new_post_popup = !self.hide_new_post_popup;
    }

    /// Whether the bar is drawn on `route`: not on the login and account
    /// pages.
    pub fn shown_on(&self, route: &Route) -> (r: bool)
        ensures
            r == !(*route is Login || *route is Register),
    {
        !route.hides_navbar()
    }
}

} // verus!
