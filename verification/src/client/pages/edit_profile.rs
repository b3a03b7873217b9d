//! The form that edits one's profile.

use vstd::prelude::*;

use crate::client::local_profile::LocalProfile;
use crate::client::notifications::KeyedNotifications;
use crate::client::route::{Navigation, Route};
use super::NOTICE_MILLIS;
use crate::client::toaster::{toast_pushed, ToastKind, Toaster};
use crate::domain::user::{
    display_name_check, display_name_error_text, email_ok, password_check, password_error_text,
    DisplayName, Email, EmailRegex, Password, EMAIL_PATTERN,
};
use crate::domain::UserFacingError;
use crate::endpoint::user::{GetMyProfileOk, UpdateProfile, UpdateProfileOk};
use crate::endpoint::Update;

verus! {


/// Key of the form error about the e-mail address.
pub const BAD_EMAIL_KEY: &'static str = "bad-email";

/// Key of the form error about the display name.
pub const BAD_DISPLAY_NAME_KEY: &'static str = "bad-display-name";

/// Key of the form error about the password.
pub const BAD_PASSWORD_KEY: &'static str = "bad-password";

/// Key of the form error shown while the confirmation differs.
pub const PASSWORD_MISMATCH_KEY: &'static str = "password-mismatch";

/// Text of the form error shown while the confirmation differs.
pub const PASSWORD_MISMATCH_TEXT: &'static str = "Password must match";

/// Text of the form error shown for a refused e-mail address.
pub open spec fn bad_email_text() -> Seq<char> {
    "Email is not valid, Format: your_name@explame.com"@
}

proof fn lemma_keys_differ()
    ensures
        BAD_EMAIL_KEY@ != BAD_DISPLAY_NAME_KEY@,
        BAD_EMAIL_KEY@ != BAD_PASSWORD_KEY@,
        BAD_EMAIL_KEY@ != PASSWORD_MISMATCH_KEY@,
        BAD_DISPLAY_NAME_KEY@ != BAD_PASSWORD_KEY@,
        BAD_DISPLAY_NAME_KEY@ != PASSWORD_MISMATCH_KEY@,
        BAD_PASSWORD_KEY@ != PASSWORD_MISMATCH_KEY@,
{
    reveal_strlit("bad-email");
    reveal_strlit("bad-display-name");
    reveal_strlit("bad-password");
    reveal_strlit("password-mismatch");
    assert(BAD_EMAIL_KEY@.len() == 9);
    assert(BAD_DISPLAY_NAME_KEY@.len() == 16);
    assert(BAD_PASSWORD_KEY@.len() == 12);
    assert(PASSWORD_MISMATCH_KEY@.len() == 17);
}

/// The profile image on show: a newly chosen one as a data URL, or the
/// stored one's URL.
#[derive(Clone, Debug)]
pub enum PreviewImageData {
    DataUrl(String),
    Remote(String),
}

/// What the profile form holds.
#[derive(Clone, Debug, Default)]
pub struct PageState {
    form_errors: KeyedNotifications,
    display_name: String,
    email: String,
    password: String,
    password_confirmation: String,
    profile_image: Option<PreviewImageData>,
}

impl PageState {
    /// Validation errors of the typed values, by key.
    pub closed spec fn errors(&self) -> Map<Seq<char>, Seq<char>> {
        self.form_errors@
    }

    /// The typed display name.
    pub closed spec fn display_name_text(&self) -> Seq<char> {
        self.display_name@
    }

    /// The typed e-mail address.
    pub closed spec fn email_text(&self) -> Seq<char> {
        self.email@
    }

    /// The typed new password.
    pub closed spec fn password_text(&self) -> Seq<char> {
        self.password@
    }

    /// The typed confirmation of the new password.
    pub closed spec fn confirmation_text(&self) -> Seq<char> {
        self.password_confirmation@
    }

    /// The profile image on show.
    pub closed spec fn image(&self) -> Option<PreviewImageData> {
        self.profile_image
    }

    /// A password that is typed and not valid has its error shown.
    pub open spec fn wf(&self) -> bool {
        (self.password_text().len() > 0 && password_check(self.password_text()) is Err)
            ==> self.errors().contains_key(BAD_PASSWORD_KEY@)
    }

    /// The errors after checking whether the confirmation matches.
    pub open spec fn mismatch_checked(errors: Map<Seq<char>, Seq<char>>, password: Seq<char>, confirmation: Seq<char>) -> Map<Seq<char>, Seq<char>> {
        if password == confirmation {
            errors.remove(PASSWORD_MISMATCH_KEY@)
        } else {
            errors.insert(PASSWORD_MISMATCH_KEY@, PASSWORD_MISMATCH_TEXT@)
        }
    }

    /// The mismatch error is held after a check exactly when the
    /// confirmation's text differs from the password's, whatever errors
    /// were held before, and the other errors are kept; so a form whose
    /// confirmation differs cannot be submitted.
    pub proof fn law_mismatch_error_iff_texts_differ(
        errors: Map<Seq<char>, Seq<char>>,
        password: Seq<char>,
        confirmation: Seq<char>,
    )
        ensures
            Self::mismatch_checked(errors, password, confirmation).contains_key(PASSWORD_MISMATCH_KEY@)
                <==> password != confirmation,
            forall|k: Seq<char>| k != PASSWORD_MISMATCH_KEY@ ==>
                (#[trigger] Self::mismatch_checked(errors, password, confirmation).contains_key(k)
                    <==> errors.contains_key(k)),
            password != confirmation ==> !Self::mismatch_checked(errors, password, confirmation).is_empty(),
    {
        if password != confirmation {
            assert(Self::mismatch_checked(errors, password, confirmation).dom().contains(PASSWORD_MISMATCH_KEY@));
        }
    }

    /// Nothing typed, no image, no errors.
    pub fn new() -> (r: Self)
        ensures
            r.errors().is_empty(),
            r.display_name_text().len() == 0,
            r.email_text().len() == 0,
            r.password_text().len() == 0,
            r.confirmation_text().len() == 0,
            r.image() is None,
            r.wf(),
    {
        PageState {
            form_errors: KeyedNotifications::new(),
            display_name: String::new(),
            email: String::new(),
            password: String::new(),
            password_confirmation: String::new(),
            profile_image: None,
        }
    }

    /// Borrows the validation errors.
    pub fn form_errors(&self) -> (r: &KeyedNotifications)
        ensures
            r@ == self.errors(),
    {
        &self.form_errors
    }

    /// Borrows the typed display name.
    pub fn display_name(&self) -> (r: &str)
        ensures
            r@ == self.display_name_text(),
    {
        self.display_name.as_str()
    }

    /// Borrows the typed e-mail address.
    pub fn email(&self) -> (r: &str)
        ensures
            r@ == self.email_text(),
    {
        self.email.as_str()
    }

    /// Borrows the typed password.
    pub fn password(&self) -> (r: &str)
        ensures
            r@ == self.password_text(),
    {
        self.password.as_str()
    }

    /// Borrows the typed confirmation.
    pub fn password_confirmation(&self) -> (r: &str)
        ensures
            r@ == self.confirmation_text(),
    {
        self.password_confirmation.as_str()
    }

    /// Borrows the profile image on show.
    pub fn profile_image(&self) -> (r: &Option<PreviewImageData>)
        ensures
            *r == self.image(),
    {
        &self.profile_image
    }

    /// Whether the form may be submitted: no form error is shown.
    pub fn can_submit(&self) -> (r: bool)
        ensures
            r == self.errors().is_empty(),
    {
        !self.form_errors.has_messages()
    }

    /// The profile as stored: its display name, e-mail address and image URL.
    pub fn on_profile_loaded(&mut self, display_name: Option<String>, email: Option<String>, profile_image: Option<String>)
        ensures
            final(self).display_name_text() == match display_name { Some(d) => d@, None => Seq::<char>::empty() },
            final(self).email_text() == match email { Some(e) => e@, None => Seq::<char>::empty() },
            final(self).image() == match profile_image {
                Some(url) => Some(PreviewImageData::Remote(url)),
                None => None::<PreviewImageData>,
            },
            final(self).errors() == old(self).errors(),
            final(self).password_text() == old(self).password_text(),
            final(self).confirmation_text() == old(self).confirmation_text(),
            old(self).wf() ==> final(self).wf(),
    {
        self.display_name = match display_name {
            Some(d) => d,
            None => String::new(),
        };
        self.email = match email {
            Some(e) => e,
            None => String::new(),
        };
        self.profile_image = match profile_image {
            Some(url) => Some(PreviewImageData::Remote(url)),
            None => None,
        };
    }

    /// Takes the reply to the request for one's profile, which came at
    /// `now`: the form shows
    /// the stored values; on failure an error notice is shown and the form
    /// is left as it is.
    pub fn on_profile_response(&mut self, toaster: &mut Toaster, res: Result<GetMyProfileOk, String>, now: i64)
        requires
            old(toaster).next_id() < usize::MAX,
        ensures
            final(self).errors() == old(self).errors(),
            final(self).password_text() == old(self).password_text(),
            final(self).confirmation_text() == old(self).confirmation_text(),
            old(self).wf() ==> final(self).wf(),
            match res {
                Ok(p) => {
                    &&& final(self).display_name_text() == match p.display_name {
                        Some(d) => d@,
                        None => Seq::<char>::empty(),
                    }
                    &&& final(self).email_text() == match p.email {
                        Some(e) => e@,
                        None => Seq::<char>::empty(),
                    }
                    &&& final(self).image() == match p.profile_image {
                        Some(url) => Some(PreviewImageData::Remote(url)),
                        None => None::<PreviewImageData>,
                    }
                    &&& *final(toaster) == *old(toaster)
                },
                Err(e) => {
                    &&& final(self).display_name_text() == old(self).display_name_text()
                    &&& final(self).email_text() == old(self).email_text()
                    &&& final(self).image() == old(self).image()
                    &&& toast_pushed(*old(toaster), *final(toaster), "Failed to retrive profile: "@ + e@, ToastKind::Error, now, NOTICE_MILLIS)
                },
            },
    {
        match res {
            Ok(p) => self.on_profile_loaded(p.display_name, p.email, p.profile_image),
            Err(e) => {
                let mut msg = String::from_str("Failed to retrive profile: ");
                msg.append(e.as_str());
                toaster.push_at(msg.as_str(), ToastKind::Error, now, NOTICE_MILLIS);
            },
        }
    }

    /// A newly chosen image, read as a data URL.
    pub fn on_image_loaded(&mut self, data: String)
        ensures
            final(self).image() == Some(PreviewImageData::DataUrl(data)),
            final(self).errors() == old(self).errors(),
            final(self).display_name_text() == old(self).display_name_text(),
            final(self).email_text() == old(self).email_text(),
            final(self).password_text() == old(self).password_text(),
            final(self).confirmation_text() == old(self).confirmation_text(),
            old(self).wf() ==> final(self).wf(),
    {
        self.profile_image = Some(PreviewImageData::DataUrl(data));
    }

    /// The e-mail field now holds `value`: a refused non-empty address has
    /// its error shown, otherwise the error is cleared.
    pub fn on_email_input(&mut self, re: &EmailRegex, value: &str)
        requires
            re@ == EMAIL_PATTERN@,
        ensures
            final(self).email_text() == value@,
            final(self).errors() == if value@.len() > 0 && !email_ok(value@) {
                old(self).errors().insert(BAD_EMAIL_KEY@, bad_email_text())
            } else {
                old(self).errors().remove(BAD_EMAIL_KEY@)
            },
            final(self).display_name_text() == old(self).display_name_text(),
            final(self).password_text() == old(self).password_text(),
            final(self).confirmation_text() == old(self).confirmation_text(),
            final(self).image() == old(self).image(),
            old(self).wf() ==> final(self).wf(),
    {
        proof { lemma_keys_differ(); }
        if !value.is_empty() {
            match Email::try_new_with(re, value) {
                Ok(_) => self.form_errors.remove(BAD_EMAIL_KEY),
                Err(e) => self.form_errors.set(BAD_EMAIL_KEY, e.formatted_error()),
            }
        } else {
            self.form_errors.remove(BAD_EMAIL_KEY);
        }
        self.email = value.to_owned();
    }

    /// The display name field now holds `value`; its error is shown or cleared.
    pub fn on_display_name_input(&mut self, value: &str)
        ensures
            final(self).display_name_text() == value@,
            final(self).errors() == match display_name_check(value@) {
                Err(e) => old(self).errors().insert(BAD_DISPLAY_NAME_KEY@, display_name_error_text(e)),
                Ok(()) => old(self).errors().remove(BAD_DISPLAY_NAME_KEY@),
            },
            final(self).email_text() == old(self).email_text(),
            final(self).password_text() == old(self).password_text(),
            final(self).confirmation_text() == old(self).confirmation_text(),
            final(self).image() == old(self).image(),
            old(self).wf() ==> final(self).wf(),
    {
        proof { lemma_keys_differ(); }
        match DisplayName::try_new(value) {
            Ok(_) => self.form_errors.remove(BAD_DISPLAY_NAME_KEY),
            Err(e) => self.form_errors.set(BAD_DISPLAY_NAME_KEY, e.formatted_error()),
        }
        self.display_name = value.to_owned();
    }

    /// Shows the mismatch error while the confirmation differs from the
    /// password, and clears it otherwise.
    fn check_password_mismatch(&mut self)
        ensures
            final(self).errors() == Self::mismatch_checked(old(self).errors(), old(self).password_text(), old(self).confirmation_text()),
            final(self).errors().contains_key(PASSWORD_MISMATCH_KEY@) <==> old(self).password_text() != old(self).confirmation_text(),
            final(self).display_name_text() == old(self).display_name_text(),
            final(self).email_text() == old(self).email_text(),
            final(self).password_text() == old(self).password_text(),
            final(self).confirmation_text() == old(self).confirmation_text(),
            final(self).image() == old(self).image(),
    {
        if self.password == self.password_confirmation {
            self.form_errors.remove(PASSWORD_MISMATCH_KEY);
        } else {
            self.form_errors.set(PASSWORD_MISMATCH_KEY, PASSWORD_MISMATCH_TEXT);
        }
    }

    /// The password field now holds `value` and the confirmation is
    /// cleared. A typed password that is not valid has its error shown and
    /// the mismatch is checked; an empty one clears the password error.
    pub fn on_password_input(&mut self, value: &str)
        ensures
            final(self).password_text() == value@,
            final(self).confirmation_text().len() == 0,
            final(self).errors() == if value@.len() == 0 {
                old(self).errors().remove(BAD_PASSWORD_KEY@)
            } else {
                Self::mismatch_checked(
                    match password_check(value@) {
                        Err(e) => old(self).errors().insert(BAD_PASSWORD_KEY@, password_error_text(e)),
                        Ok(()) => old(self).errors().remove(BAD_PASSWORD_KEY@),
                    },
                    value@,
                    Seq::<char>::empty(),
                )
            },
            final(self).display_name_text() == old(self).display_name_text(),
            final(self).email_text() == old(self).email_text(),
            final(self).image() == old(self).image(),
            old(self).wf() ==> final(self).wf(),
    {
        proof { lemma_keys_differ(); }
        match Password::try_new(value) {
            Ok(_) => self.form_errors.remove(BAD_PASSWORD_KEY),
            Err(e) => self.form_errors.set(BAD_PASSWORD_KEY, e.formatted_error()),
        }
        self.password = value.to_owned();
        self.password_confirmation = String::new();
        if self.password.as_str().is_empty() {
            self.form_errors.remove(BAD_PASSWORD_KEY);
        } else {
            self.check_password_mismatch();
        }
    }

    /// The confirmation field now holds `value`; the mismatch is checked.
    pub fn on_password_confirmation_input(&mut self, value: &str)
        ensures
            final(self).confirmation_text() == value@,
            final(self).errors() == Self::mismatch_checked(old(self).errors(), old(self).password_text(), value@),
            final(self).errors().contains_key(PASSWORD_MISMATCH_KEY@) <==> final(self).password_text() != value@,
            final(self).display_name_text() == old(self).display_name_text(),
            final(self).email_text() == old(self).email_text(),
            final(self).password_text() == old(self).password_text(),
            final(self).image() == old(self).image(),
            old(self).wf() ==> final(self).wf(),
    {
        proof { lemma_keys_differ(); }
        self.password_confirmation = value.to_owned();
        self.check_password_mismatch();
    }

    /// The update request for the form: an empty display name or e-mail
    /// address clears it, an empty password leaves it, a newly chosen image
    /// replaces the stored one, no image clears it. `None` where a typed
    /// password is not valid.
    pub fn request(&self) -> (r: Option<UpdateProfile>)
        ensures
            r is None <==> (self.password_text().len() > 0 && password_check(self.password_text()) is Err),
            r matches Some(req) ==> {
                &&& (if self.display_name_text().len() == 0 {
                    req.display_name is SetNull
                } else {
                    req.display_name matches Update::Change(d) && d@ == self.display_name_text()
                })
                &&& (if self.email_text().len() == 0 {
                    req.email is SetNull
                } else {
                    req.email matches Update::Change(e) && e@ == self.email_text()
                })
                &&& (if self.password_text().len() == 0 {
                    req.password is NoChange
                } else {
                    req.password matches Update::Change(p) && p@ == self.password_text()
                })
                &&& match self.image() {
                    Some(PreviewImageData::DataUrl(d)) => req.profile_image matches Update::Change(x) && x@ == d@,
                    Some(PreviewImageData::Remote(_)) => req.profile_image is NoChange,
                    None => req.profile_image is SetNull,
                }
            },
    {
        let password = if self.password.as_str().is_empty() {
            Update::NoChange
        } else {
            match Password::try_new(self.password.as_str()) {
                Ok(p) => Update::Change(p),
                Err(_) => return None,
            }
        };
        let display_name = if self.display_name.as_str().is_empty() {
            Update::SetNull
        } else {
            Update::Change(self.display_name.clone())
        };
        let email = if self.email.as_str().is_empty() {
            Update::SetNull
        } else {
            Update::Change(self.email.clone())
        };
        let profile_image = match &self.profile_image {
            Some(PreviewImageData::DataUrl(data)) => Update::Change(data.clone()),
            Some(PreviewImageData::Remote(_)) => Update::NoChange,
            None => Update::SetNull,
        };
        Some(UpdateProfile { display_name, email, profile_image, password })
    }
}

/// Shows, from `now`, the notice that one's profile is being retrieved.
pub fn announce_profile_retrieval(toaster: &mut Toaster, now: i64)
    requires
        old(toaster).next_id() < usize::MAX,
    ensures
        toast_pushed(*old(toaster), *final(toaster), "Retrieving profile ..."@, ToastKind::Info, now, NOTICE_MILLIS),
{
    toaster.push_at("Retrieving profile ...", ToastKind::Info, now, NOTICE_MILLIS);
}

/// Takes the reply to an update request, which came at `now`. On success a
/// notice says so, the signed-in user's image becomes the stored one and
/// the home page is pushed onto the history; on failure an error notice is
/// shown and the page stays.
pub fn on_update_response(
    local: &mut LocalProfile,
    toaster: &mut Toaster,
    res: Result<UpdateProfileOk, String>,
    now: i64,
) -> (r: Option<Navigation>)
    requires
        old(toaster).next_id() < usize::MAX,
    ensures
        match res {
            Ok(ok) => {
                &&& toast_pushed(*old(toaster), *final(toaster), "profile updated"@, ToastKind::Success, now, NOTICE_MILLIS)
                &&& final(local).image == ok.profile_image
                &&& final(local).user_id == old(local).user_id
                &&& r == Some(Navigation::Push(Route::Home))
            },
            Err(e) => {
                &&& toast_pushed(*old(toaster), *final(toaster), "Failed to update profile: "@ + e@, ToastKind::Error, now, NOTICE_MILLIS)
                &&& *final(local) == *old(local)
                &&& r is None
            },
        },
{
    match res {
        Ok(ok) => {
            toaster.push_at("profile updated", ToastKind::Success, now, NOTICE_MILLIS);
            local.image = ok.profile_image;
            Some(Navigation::Push(Route::Home))
        },
        Err(e) => {
            let mut msg = String::from_str("Failed to update profile: ");
            msg.append(e.as_str());
            toaster.push_at(msg.as_str(), ToastKind::Error, now, NOTICE_MILLIS);
            None
        },
    }
}

/// A form that may be submitted holds an empty or valid password, so its
/// request can be built.
pub proof fn lemma_submittable_is_valid(state: &PageState)
    requires
        state.wf(),
        state.errors().is_empty(),
    ensures
        state.password_text().len() == 0 || password_check(state.password_text()) is Ok,
{
}

} // verus!
