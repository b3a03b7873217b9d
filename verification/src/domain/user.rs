//! Validated user-facing text types: usernames, passwords, display names.

use vstd::prelude::*;

use super::UserFacingError;

verus! {

/// Why a candidate value for [`Username`] was refused.
#[derive(Clone, Copy, Debug, PartialEq, Eq)]
pub enum UsernameError {
    NotEmptyViolated,
    LenCharMinViolated,
    LenCharMaxViolated,
}

/// A username of 3 to 10 characters.
#[derive(Debug)]
pub struct Username(String);

/// Outcome of validating `s` as a [`Username`]: the checks run in the order
/// of the error's variants and the first one that fails is reported.
pub open spec fn username_check(s: Seq<char>) -> Result<(), UsernameError> {
    if s.len() == 0 {
        Err(UsernameError::NotEmptyViolated)
    } else if s.len() < 3 {
        Err(UsernameError::LenCharMinViolated)
    } else if s.len() > 10 {
        Err(UsernameError::LenCharMaxViolated)
    } else {
        Ok(())
    }
}

/// The message shown to a user for each validation error.
pub open spec fn username_error_text(e: UsernameError) -> Seq<char> {
    match e {
        UsernameError::NotEmptyViolated => "Username cannot be empty"@,
        UsernameError::LenCharMinViolated => "Username is too short, must be more than 3 chars"@,
        UsernameError::LenCharMaxViolated => "Username is too long, must be less than 10 chars"@,
    }
}

impl View for Username {
    type V = Seq<char>;

    closed spec fn view(&self) -> Seq<char> {
        self.0@
    }
}

impl PartialEq for Username {
    fn eq(&self, other: &Self) -> (r: bool) {
        self.0 == other.0
    }
}

impl vstd::std_specs::cmp::PartialEqSpecImpl for Username {
    open spec fn obeys_eq_spec() -> bool {
        true
    }

    open spec fn eq_spec(&self, other: &Self) -> bool {
        self@ == other@
    }
}

impl Clone for Username {
    fn clone(&self) -> (r: Self)
        ensures
            r@ == self@,
    {
        proof { use_type_invariant(self); }
        Username(self.0.clone())
    }
}

impl Username {
    #[verifier::type_invariant]
    closed spec fn inv(self) -> bool {
        username_check(self.0@) is Ok
    }

    /// Validates `value` and keeps it unchanged when it passes.
    pub fn try_new(value: &str) -> (r: Result<Username, UsernameError>)
        ensures
            match r {
                Ok(v) => username_check(value@) is Ok && v@ == value@,
                Err(e) => username_check(value@) == Err::<(), UsernameError>(e),
            },
    {
        let n = value.unicode_len();
        if value.is_empty() {
            Err(UsernameError::NotEmptyViolated)
        } else if n < 3 {
            Err(UsernameError::LenCharMinViolated)
        } else if n > 10 {
            Err(UsernameError::LenCharMaxViolated)
        } else {
            Ok(Username(value.to_owned()))
        }
    }

    /// The validated text.
    pub fn into_inner(self) -> (r: String)
        ensures
            r@ == self@,
            username_check(r@) is Ok,
    {
        proof { use_type_invariant(&self); }
        self.0
    }

    /// Borrows the validated text.
    pub fn as_ref(&self) -> (r: &str)
        ensures
            r@ == self@,
            username_check(r@) is Ok,
    {
        proof { use_type_invariant(self); }
        self.0.as_str()
    }
}

impl UserFacingError for UsernameError {
    fn formatted_error(&self) -> (r: &'static str)
        ensures
            r@ == username_error_text(*self),
    {
        match self {
            UsernameError::NotEmptyViolated => "Username cannot be empty",
            UsernameError::LenCharMinViolated => "Username is too short, must be more than 3 chars",
            UsernameError::LenCharMaxViolated => "Username is too long, must be less than 10 chars",
        }
    }
}

/// Why a candidate value for [`Password`] was refused.
#[derive(Clone, Copy, Debug, PartialEq, Eq)]
pub enum PasswordError {
    NotEmptyViolated,
    LenCharMinViolated,
    LenCharMaxViolated,
}

/// A password of 8 to 15 characters.
pub struct Password(String);

/// Outcome of validating `s` as a [`Password`]: the checks run in the order
/// of the error's variants and the first one that fails is reported.
pub open spec fn password_check(s: Seq<char>) -> Result<(), PasswordError> {
    if s.len() == 0 {
        Err(PasswordError::NotEmptyViolated)
    } else if s.len() < 8 {
        Err(PasswordError::LenCharMinViolated)
    } else if s.len() > 15 {
        Err(PasswordError::LenCharMaxViolated)
    } else {
        Ok(())
    }
}

/// The message shown to a user for each validation error.
pub open spec fn password_error_text(e: PasswordError) -> Seq<char> {
    match e {
        PasswordError::NotEmptyViolated => "Password cannot be empty"@,
        PasswordError::LenCharMinViolated => "Password is too short, must be more than 8 chars"@,
        PasswordError::LenCharMaxViolated => "Password is too long, must be less than 15 chars"@,
    }
}

impl View for Password {
    type V = Seq<char>;

    closed spec fn view(&self) -> Seq<char> {
        self.0@
    }
}

impl PartialEq for Password {
    fn eq(&self, other: &Self) -> (r: bool) {
        self.0 == other.0
    }
}

impl vstd::std_specs::cmp::PartialEqSpecImpl for Password {
    open spec fn obeys_eq_spec() -> bool {
        true
    }

    open spec fn eq_spec(&self, other: &Self) -> bool {
        self@ == other@
    }
}

impl Clone for Password {
    fn clone(&self) -> (r: Self)
        ensures
            r@ == self@,
    {
        proof { use_type_invariant(self); }
        Password(self.0.clone())
    }
}

impl Password {
    #[verifier::type_invariant]
    closed spec fn inv(self) -> bool {
        password_check(self.0@) is Ok
    }

    /// Validates `value` and keeps it unchanged when it passes.
    pub fn try_new(value: &str) -> (r: Result<Password, PasswordError>)
        ensures
            match r {
                Ok(v) => password_check(value@) is Ok && v@ == value@,
                Err(e) => password_check(value@) == Err::<(), PasswordError>(e),
            },
    {
        let n = value.unicode_len();
        if value.is_empty() {
            Err(PasswordError::NotEmptyViolated)
        } else if n < 8 {
            Err(PasswordError::LenCharMinViolated)
        } else if n > 15 {
            Err(PasswordError::LenCharMaxViolated)
        } else {
            Ok(Password(value.to_owned()))
        }
    }

    /// The validated text.
    pub fn into_inner(self) -> (r: String)
        ensures
            r@ == self@,
            password_check(r@) is Ok,
    {
        proof { use_type_invariant(&self); }
        self.0
    }

    /// Borrows the validated text.
    pub fn as_ref(&self) -> (r: &str)
        ensures
            r@ == self@,
            password_check(r@) is Ok,
    {
        proof { use_type_invariant(self); }
        self.0.as_str()
    }
}

impl UserFacingError for PasswordError {
    fn formatted_error(&self) -> (r: &'static str)
        ensures
            r@ == password_error_text(*self),
    {
        match self {
            PasswordError::NotEmptyViolated => "Password cannot be empty",
            PasswordError::LenCharMinViolated => "Password is too short, must be more than 8 chars",
            PasswordError::LenCharMaxViolated => "Password is too long, must be less than 15 chars",
        }
    }
}

/// Why a candidate value for [`DisplayName`] was refused.
#[derive(Clone, Copy, Debug, PartialEq, Eq)]
pub enum DisplayNameError {
    LenCharMaxViolated,
}

/// A display name of at most 10 characters (it may be empty).
#[derive(Debug)]
pub struct DisplayName(String);

/// Outcome of validating `s` as a [`DisplayName`]: the checks run in the order
/// of the error's variants and the first one that fails is reported.
pub open spec fn display_name_check(s: Seq<char>) -> Result<(), DisplayNameError> {
    if s.len() > 10 {
        Err(DisplayNameError::LenCharMaxViolated)
    } else {
        Ok(())
    }
}

/// The message shown to a user for each validation error.
pub open spec fn display_name_error_text(e: DisplayNameError) -> Seq<char> {
    match e {
        DisplayNameError::LenCharMaxViolated => "DisplayName is too long, must be less than 10 chars"@,
    }
}

impl View for DisplayName {
    type V = Seq<char>;

    closed spec fn view(&self) -> Seq<char> {
        self.0@
    }
}

impl PartialEq for DisplayName {
    fn eq(&self, other: &Self) -> (r: bool) {
        self.0 == other.0
    }
}

impl vstd::std_specs::cmp::PartialEqSpecImpl for DisplayName {
    open spec fn obeys_eq_spec() -> bool {
        true
    }

    open spec fn eq_spec(&self, other: &Self) -> bool {
        self@ == other@
    }
}

impl Clone for DisplayName {
    fn clone(&self) -> (r: Self)
        ensures
            r@ == self@,
    {
        proof { use_type_invariant(self); }
        DisplayName(self.0.clone())
    }
}

impl DisplayName {
    /// Largest number of characters that a value may hold.
    pub const MAX_CHARS: usize = 10;

    #[verifier::type_invariant]
    closed spec fn inv(self) -> bool {
        display_name_check(self.0@) is Ok
    }

    /// Validates `value` and keeps it unchanged when it passes.
    pub fn try_new(value: &str) -> (r: Result<DisplayName, DisplayNameError>)
        ensures
            match r {
                Ok(v) => display_name_check(value@) is Ok && v@ == value@,
                Err(e) => display_name_check(value@) == Err::<(), DisplayNameError>(e),
            },
    {
        let n = value.unicode_len();
        if n > 10 {
            Err(DisplayNameError::LenCharMaxViolated)
        } else {
            Ok(DisplayName(value.to_owned()))
        }
    }

    /// The validated text.
    pub fn into_inner(self) -> (r: String)
        ensures
            r@ == self@,
            display_name_check(r@) is Ok,
    {
        proof { use_type_invariant(&self); }
        self.0
    }

    /// Borrows the validated text.
    pub fn as_ref(&self) -> (r: &str)
        ensures
            r@ == self@,
            display_name_check(r@) is Ok,
    {
        proof { use_type_invariant(self); }
        self.0.as_str()
    }
}

impl UserFacingError for DisplayNameError {
    fn formatted_error(&self) -> (r: &'static str)
        ensures
            r@ == display_name_error_text(*self),
    {
        match self {
            DisplayNameError::LenCharMaxViolated => "DisplayName is too long, must be less than 10 chars",
        }
    }
}

/// Pattern that an e-mail address must match: a non-blank local part, `@`,
/// a non-blank domain, a dot, and 1 to 64 non-blank characters.
pub const EMAIL_PATTERN: &'static str = "^\\S+@\\S+\\.\\S{1,64}$";

#[verifier::external_type_specification]
#[verifier::external_body]
pub struct ExRegex(regex::Regex);

/// Whether the regular expression compiled from `pattern` by the `regex`
/// crate matches somewhere in `text` (an anchored pattern: the whole text).
pub uninterp spec fn regex_is_match(pattern: Seq<char>, text: Seq<char>) -> bool;

/// Whether `regex::Regex::new` accepts `pattern` (its syntax, under the
/// crate's default size limits).
pub uninterp spec fn regex_compiles(pattern: Seq<char>) -> bool;

/// Calls `regex::Regex::new` and keeps the regex together with the pattern
/// it was compiled from, dropping the error; this is where every
/// [`EmailRegex`] is made. Claims that a regex comes back exactly where
/// [`regex_compiles`] holds of
/// the pattern: with the default limits, compiling is a function of the
/// pattern alone. Claims too that [`EMAIL_PATTERN`] compiles: it uses only
/// anchors, `\S`, a literal `@` and `.`, `+` and `{1,64}`, all of the
/// crate's documented syntax, and its compiled size stays within the
/// default limit. Which other patterns compile is not stated.
#[verifier::external_body]
fn compile_regex(pattern: &str) -> (r: Option<EmailRegex>)
    ensures
        r is Some <==> regex_compiles(pattern@),
        pattern@ == EMAIL_PATTERN@ ==> r is Some,
        r matches Some(re) ==> re@ == pattern@,
{
    match regex::Regex::new(pattern) {
        Ok(regex) => Some(EmailRegex { regex, pattern: pattern.to_owned() }),
        Err(_) => None,
    }
}

/// Calls `regex::Regex::is_match` on the compiled regex that `re` holds.
/// Claims that the answer is [`regex_is_match`] of the pattern that regex
/// was compiled from (`re@`) and the text: matching is a function of the
/// two alone. For [`EMAIL_PATTERN`] it claims the pattern's language,
/// [`email_ok`]: `^` and `$` anchor at the ends of the whole text (no
/// multi-line mode), `\S` is any character outside Unicode's White_Space
/// (the `regex-syntax` table [`is_regex_space`] copies), and `\.` is a dot.
#[verifier::external_body]
fn regex_matches(re: &EmailRegex, text: &str) -> (r: bool)
    ensures
        r == regex_is_match(re@, text@),
        re@ == EMAIL_PATTERN@ ==> r == email_ok(text@),
{
    re.regex.is_match(text)
}

/// The compiled e-mail pattern.
#[derive(Debug)]
pub struct EmailRegex {
    regex: regex::Regex,
    pattern: String,
}

impl View for EmailRegex {
    type V = Seq<char>;

    /// The pattern that the held regex was compiled from.
    closed spec fn view(&self) -> Seq<char> {
        self.pattern@
    }
}

impl EmailRegex {
    /// Compiles [`EMAIL_PATTERN`]; `None` where the `regex` crate refuses it.
    pub fn init() -> (r: Option<EmailRegex>)
        ensures
            r is Some,
            regex_compiles(EMAIL_PATTERN@),
            r matches Some(re) ==> re@ == EMAIL_PATTERN@,
    {
        compile_regex(EMAIL_PATTERN)
    }

    /// Whether `text` matches the held pattern.
    pub fn is_valid(&self, text: &str) -> (r: bool)
        ensures
            r == regex_is_match(self@, text@),
            self@ == EMAIL_PATTERN@ ==> r == email_ok(text@),
    {
        regex_matches(self, text)
    }
}

/// Whether `c` is white space to the `regex` crate's `\s`: Unicode's
/// White_Space property.
pub open spec fn is_regex_space(c: char) -> bool {
    ||| ('\t' <= c && c <= '\r')
    ||| c == ' '
    ||| c == '\u{85}'
    ||| c == '\u{a0}'
    ||| c == '\u{1680}'
    ||| ('\u{2000}' <= c && c <= '\u{200a}')
    ||| c == '\u{2028}'
    ||| c == '\u{2029}'
    ||| c == '\u{202f}'
    ||| c == '\u{205f}'
    ||| c == '\u{3000}'
}

/// Whether `s` is accepted as an e-mail address, the language of
/// [`EMAIL_PATTERN`]: no white space, and an `@` at `at` and a dot at
/// `dot` with at least one character before the `@`, at least one between
/// the two, and 1 to 64 after the dot.
pub open spec fn email_ok(s: Seq<char>) -> bool {
    &&& forall|i: int| 0 <= i < s.len() ==> !is_regex_space(#[trigger] s[i])
    &&& exists|at: int, dot: int|
        #![trigger s[at], s[dot]]
        1 <= at && at + 2 <= dot && dot + 2 <= s.len() && s.len() <= dot + 65
            && s[at] == '@' && s[dot] == '.'
}

/// Why a candidate e-mail address was refused.
#[derive(Debug)]
pub enum EmailError {
    InvalidEmail(String),
}

impl EmailError {
    /// The error as text: `Invalid email: ` followed by the refused address.
    pub fn to_string(&self) -> (r: String)
        ensures
            match self {
                EmailError::InvalidEmail(email) => r@ == "Invalid email: "@ + email@,
            },
    {
        match self {
            EmailError::InvalidEmail(email) => {
                let mut s = String::from_str("Invalid email: ");
                s.append(email.as_str());
                s
            },
        }
    }
}

impl UserFacingError for EmailError {
    fn formatted_error(&self) -> (r: &'static str)
        ensures
            r@ == "Email is not valid, Format: your_name@explame.com"@,
    {
        match self {
            EmailError::InvalidEmail(_) => "Email is not valid, Format: your_name@explame.com",
        }
    }
}

/// Checks `email` with an already compiled e-mail pattern.
pub fn is_valid_email_with(re: &EmailRegex, email: &str) -> (r: Result<(), EmailError>)
    requires
        re@ == EMAIL_PATTERN@,
    ensures
        match r {
            Ok(()) => email_ok(email@),
            Err(EmailError::InvalidEmail(s)) => !email_ok(email@) && s@ == email@,
        },
{
    if re.is_valid(email) {
        Ok(())
    } else {
        Err(EmailError::InvalidEmail(email.to_owned()))
    }
}

/// Checks `email` against [`EMAIL_PATTERN`], compiling the pattern first.
/// The pattern always compiles, so the answer is its verdict.
pub fn is_valid_email(email: &str) -> (r: Result<(), EmailError>)
    ensures
        match r {
            Ok(()) => email_ok(email@),
            Err(EmailError::InvalidEmail(s)) => !email_ok(email@) && s@ == email@,
        },
{
    match EmailRegex::init() {
        Some(re) => is_valid_email_with(&re, email),
        None => Err(EmailError::InvalidEmail(email.to_owned())),
    }
}

/// An e-mail address that matches [`EMAIL_PATTERN`].
#[derive(Debug)]
pub struct Email(String);

impl View for Email {
    type V = Seq<char>;

    closed spec fn view(&self) -> Seq<char> {
        self.0@
    }
}

impl PartialEq for Email {
    fn eq(&self, other: &Self) -> (r: bool) {
        self.0 == other.0
    }
}

impl vstd::std_specs::cmp::PartialEqSpecImpl for Email {
    open spec fn obeys_eq_spec() -> bool {
        true
    }

    open spec fn eq_spec(&self, other: &Self) -> bool {
        self@ == other@
    }
}

impl Clone for Email {
    fn clone(&self) -> (r: Self)
        ensures
            r@ == self@,
    {
        proof { use_type_invariant(self); }
        Email(self.0.clone())
    }
}

impl Email {
    #[verifier::type_invariant]
    closed spec fn inv(self) -> bool {
        email_ok(self.0@)
    }

    /// Validates `value` as an e-mail address and keeps it unchanged.
    pub fn try_new(value: &str) -> (r: Result<Email, EmailError>)
        ensures
            match r {
                Ok(v) => email_ok(value@) && v@ == value@,
                Err(EmailError::InvalidEmail(s)) => !email_ok(value@) && s@ == value@,
            },
    {
        match is_valid_email(value) {
            Ok(()) => Ok(Email(value.to_owned())),
            Err(e) => Err(e),
        }
    }

    /// Validates `value` with an already compiled pattern.
    pub fn try_new_with(re: &EmailRegex, value: &str) -> (r: Result<Email, EmailError>)
        requires
            re@ == EMAIL_PATTERN@,
        ensures
            match r {
                Ok(v) => email_ok(value@) && v@ == value@,
                Err(EmailError::InvalidEmail(s)) => !email_ok(value@) && s@ == value@,
            },
    {
        match is_valid_email_with(re, value) {
            Ok(()) => Ok(Email(value.to_owned())),
            Err(e) => Err(e),
        }
    }

    /// The validated address.
    pub fn into_inner(self) -> (r: String)
        ensures
            r@ == self@,
            email_ok(r@),
    {
        proof { use_type_invariant(&self); }
        self.0
    }

    /// Borrows the validated address.
    pub fn as_ref(&self) -> (r: &str)
        ensures
            r@ == self@,
            email_ok(r@),
    {
        proof { use_type_invariant(self); }
        self.0.as_str()
    }
}

} // verus!
