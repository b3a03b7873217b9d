//! The login form.

use vstd::prelude::*;

use crate::client::local_profile::LocalProfile;
use crate::client::notifications::KeyedNotifications;
use crate::client::route::{Navigation, Route};
use crate::domain::ids::UserId;
use crate::domain::user::{
    password_check, password_error_text, username_check, username_error_text, Password,
    Username,
};
use crate::domain::UserFacingError;
use crate::endpoint::user::Login;

verus! {

/// Key of the form error about the username.
pub const USERNAME_ERROR_KEY: &'static str = "用户名错误";

/// Key of the form error about the password.
pub const PASSWORD_ERROR_KEY: &'static str = "密码错误";

/// Key of the server's message when logging in failed.
pub const LOGIN_FAIL_KEY: &'static str = "login-fail";

/// The two form error keys are different.
pub(crate) proof fn lemma_keys_differ()
    ensures
        USERNAME_ERROR_KEY@ != PASSWORD_ERROR_KEY@,
{
    reveal_strlit("用户名错误");
    reveal_strlit("密码错误");
    assert(USERNAME_ERROR_KEY@.len() != PASSWORD_ERROR_KEY@.len());
}

/// What the login form holds.
#[derive(Debug)]
pub struct PageState {
    username: String,
    password: String,
    form_errors: KeyedNotifications,
    server_messages: KeyedNotifications,
}

impl PageState {
    /// The typed username.
    pub closed spec fn username_text(&self) -> Seq<char> {
        self.username@
    }

    /// The typed password.
    pub closed spec fn password_text(&self) -> Seq<char> {
        self.password@
    }

    /// Validation errors of the typed values, by key.
    pub closed spec fn errors(&self) -> Map<Seq<char>, Seq<char>> {
        self.form_errors@
    }

    /// Messages from the server, by key.
    pub closed spec fn messages(&self) -> Map<Seq<char>, Seq<char>> {
        self.server_messages@
    }

    /// Whether the submit button is enabled.
    pub open spec fn submittable(&self) -> bool {
        self.errors().is_empty() && self.username_text().len() > 0 && self.password_text().len() > 0
    }

    /// Each typed value that is not empty and not valid has its error shown.
    pub open spec fn wf(&self) -> bool {
        &&& (self.username_text().len() > 0 && username_check(self.username_text()) is Err)
            ==> self.errors().contains_key(USERNAME_ERROR_KEY@)
        &&& (self.password_text().len() > 0 && password_check(self.password_text()) is Err)
            ==> self.errors().contains_key(PASSWORD_ERROR_KEY@)
    }

    /// Nothing typed, no errors, no messages.
    pub fn new() -> (r: Self)
        ensures
            r.username_text().len() == 0,
            r.password_text().len() == 0,
            r.errors().is_empty(),
            r.messages().is_empty(),
            r.wf(),
    {
        PageState {
            username: String::new(),
            password: String::new(),
            form_errors: KeyedNotifications::new(),
            server_messages: KeyedNotifications::new(),
        }
    }

    /// Borrows the typed username.
    pub fn username(&self) -> (r: &str)
        ensures
            r@ == self.username_text(),
    {
        self.username.as_str()
    }

    /// Borrows the typed password.
    pub fn password(&self) -> (r: &str)
        ensures
            r@ == self.password_text(),
    {
        self.password.as_str()
    }

    /// Borrows the validation errors.
    pub fn form_errors(&self) -> (r: &KeyedNotifications)
        ensures
            r@ == self.errors(),
    {
        &self.form_errors
    }

    /// Borrows the server's messages.
    pub fn server_messages(&self) -> (r: &KeyedNotifications)
        ensures
            r@ == self.messages(),
    {
        &self.server_messages
    }

    /// Whether the form may be submitted: no validation error, and both
    /// fields filled in.
    pub fn can_submit(&self) -> (r: bool)
        ensures
            r == self.submittable(),
    {
        !(self.form_errors.has_messages() || self.username.as_str().is_empty() || self.password.as_str().is_empty())
    }

    /// The username field now holds `value`; its error is shown or cleared.
    pub fn on_username_input(&mut self, value: &str)
        ensures
            final(self).username_text() == value@,
            final(self).password_text() == old(self).password_text(),
            final(self).messages() == old(self).messages(),
            final(self).errors() == match username_check(value@) {
                Err(e) => old(self).errors().insert(USERNAME_ERROR_KEY@, username_error_text(e)),
                Ok(()) => old(self).errors().remove(USERNAME_ERROR_KEY@),
            },
            old(self).wf() ==> final(self).wf(),
    {
        proof {
            lemma_keys_differ();
        }
        match Username::try_new(value) {
            Err(e) => self.form_errors.set(USERNAME_ERROR_KEY, e.formatted_error()),
            Ok(_) => self.form_errors.remove(USERNAME_ERROR_KEY),
        }
        self.username = value.to_owned();
    }

    /// The password field now holds `value`; its error is shown or cleared.
    pub fn on_password_input(&mut self, value: &str)
        ensures
            final(self).password_text() == value@,
            final(self).username_text() == old(self).username_text(),
            final(self).messages() == old(self).messages(),
            final(self).errors() == match password_check(value@) {
                Err(e) => old(self).errors().insert(PASSWORD_ERROR_KEY@, password_error_text(e)),
                Ok(()) => old(self).errors().remove(PASSWORD_ERROR_KEY@),
            },
            old(self).wf() ==> final(self).wf(),
    {
        proof {
            lemma_keys_differ();
        }
        match Password::try_new(value) {
            Err(e) => self.form_errors.set(PASSWORD_ERROR_KEY, e.formatted_error()),
            Ok(_) => self.form_errors.remove(PASSWORD_ERROR_KEY),
        }
        self.password = value.to_owned();
    }

    /// The server refused the login with `message`.
    pub fn on_login_failed(&mut self, message: &str)
        ensures
            final(self).messages() == old(self).messages().insert(LOGIN_FAIL_KEY@, message@),
            final(self).username_text() == old(self).username_text(),
            final(self).password_text() == old(self).password_text(),
            final(self).errors() == old(self).errors(),
            old(self).wf() ==> final(self).wf(),
    {
        self.server_messages.set(LOGIN_FAIL_KEY, message);
    }

    /// The login request for the typed values; `None` where one of them is
    /// not valid.
    pub fn request(&self) -> (r: Option<Login>)
        ensures
            match r {
                Some(req) => username_check(self.username_text()) is Ok
                    && password_check(self.password_text()) is Ok
                    && req.username@ == self.username_text()
                    && req.password@ == self.password_text(),
                None => username_check(self.username_text()) is Err
                    || password_check(self.password_text()) is Err,
            },
    {
        match (Username::try_new(self.username.as_str()), Password::try_new(self.password.as_str())) {
            (Ok(username), Ok(password)) => Some(Login { username, password }),
            _ => None,
        }
    }
}

/// The server accepted the login: the signed-in user's id and image are
/// recorded, and the home page is pushed onto the history.
pub fn on_login_succeeded(local: &mut LocalProfile, user_id: UserId, profile_image: Option<String>) -> (r: Navigation)
    ensures
        final(local).user_id == Some(user_id),
        final(local).image == profile_image,
        r == Navigation::Push(Route::Home),
{
    local.image = profile_image;
    local.user_id = Some(user_id);
    Navigation::Push(Route::Home)
}

/// A form that may be submitted holds a valid username and password, so
/// its request can be built.
pub proof fn lemma_submittable_is_valid(state: &PageState)
    requires
        state.wf(),
        state.submittable(),
    ensures
        username_check(state.username_text()) is Ok,
        password_check(state.password_text()) is Ok,
{
}

} // verus!
