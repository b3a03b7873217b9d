//! Validated text types of posts: chat headings and messages, image
//! captions, poll headings and poll choices.

use vstd::prelude::*;

use super::UserFacingError;

verus! {

/// Why a candidate value for [`Heading`] was refused.
#[derive(Clone, Copy, Debug, PartialEq, Eq)]
pub enum HeadingError {
    NotEmptyViolated,
    LenCharMaxViolated,
}

/// A chat heading of 1 to 30 characters.
#[derive(Debug)]
pub struct Heading(String);

/// Outcome of validating `s` as a [`Heading`]: the checks run in the order
/// of the error's variants and the first one that fails is reported.
pub open spec fn heading_check(s: Seq<char>) -> Result<(), HeadingError> {
    if s.len() == 0 {
        Err(HeadingError::NotEmptyViolated)
    } else if s.len() > 30 {
        Err(HeadingError::LenCharMaxViolated)
    } else {
        Ok(())
    }
}

/// The message shown to a user for each validation error.
pub open spec fn heading_error_text(e: HeadingError) -> Seq<char> {
    match e {
        HeadingError::NotEmptyViolated => "Heading cannot be empty"@,
        HeadingError::LenCharMaxViolated => "Heading is too long, must be less than 30 chars"@,
    }
}

impl View for Heading {
    type V = Seq<char>;

    closed spec fn view(&self) -> Seq<char> {
        self.0@
    }
}

impl PartialEq for Heading {
    fn eq(&self, other: &Self) -> (r: bool) {
        self.0 == other.0
    }
}

impl vstd::std_specs::cmp::PartialEqSpecImpl for Heading {
    open spec fn obeys_eq_spec() -> bool {
        true
    }

    open spec fn eq_spec(&self, other: &Self) -> bool {
        self@ == other@
    }
}

impl Clone for Heading {
    fn clone(&self) -> (r: Self)
        ensures
            r@ == self@,
    {
        proof { use_type_invariant(self); }
        Heading(self.0.clone())
    }
}

impl Heading {
    /// Largest number of characters that a value may hold.
    pub const MAX_CHARS: usize = 30;

    #[verifier::type_invariant]
    closed spec fn inv(self) -> bool {
        heading_check(self.0@) is Ok
    }

    /// Validates `value` and keeps it unchanged when it passes.
    pub fn try_new(value: &str) -> (r: Result<Heading, HeadingError>)
        ensures
            match r {
                Ok(v) => heading_check(value@) is Ok && v@ == value@,
                Err(e) => heading_check(value@) == Err::<(), HeadingError>(e),
            },
    {
        let n = value.unicode_len();
        if value.is_empty() {
            Err(HeadingError::NotEmptyViolated)
        } else if n > 30 {
            Err(HeadingError::LenCharMaxViolated)
        } else {
            Ok(Heading(value.to_owned()))
        }
    }

    /// The validated text.
    pub fn into_inner(self) -> (r: String)
        ensures
            r@ == self@,
            heading_check(r@) is Ok,
    {
        proof { use_type_invariant(&self); }
        self.0
    }

    /// Borrows the validated text.
    pub fn as_ref(&self) -> (r: &str)
        ensures
            r@ == self@,
            heading_check(r@) is Ok,
    {
        proof { use_type_invariant(self); }
        self.0.as_str()
    }
}

impl UserFacingError for HeadingError {
    fn formatted_error(&self) -> (r: &'static str)
        ensures
            r@ == heading_error_text(*self),
    {
        match self {
            HeadingError::NotEmptyViolated => "Heading cannot be empty",
            HeadingError::LenCharMaxViolated => "Heading is too long, must be less than 30 chars",
        }
    }
}

/// Why a candidate value for [`Message`] was refused.
#[derive(Clone, Copy, Debug, PartialEq, Eq)]
pub enum MessageError {
    NotEmptyViolated,
    LenCharMinViolated,
    LenCharMaxViolated,
}

/// A chat message of 1 to 100 characters.
#[derive(Debug)]
pub struct Message(String);

/// Outcome of validating `s` as a [`Message`]: the checks run in the order
/// of the error's variants and the first one that fails is reported.
pub open spec fn message_check(s: Seq<char>) -> Result<(), MessageError> {
    if s.len() == 0 {
        Err(MessageError::NotEmptyViolated)
    } else if s.len() < 1 {
        Err(MessageError::LenCharMinViolated)
    } else if s.len() > 100 {
        Err(MessageError::LenCharMaxViolated)
    } else {
        Ok(())
    }
}

/// The message shown to a user for each validation error.
pub open spec fn message_error_text(e: MessageError) -> Seq<char> {
    match e {
        MessageError::NotEmptyViolated => "Message cannot be empty"@,
        MessageError::LenCharMinViolated => "Message is too short, must be more than 1 chars"@,
        MessageError::LenCharMaxViolated => "Message is too long, must be less than 100 chars"@,
    }
}

impl View for Message {
    type V = Seq<char>;

    closed spec fn view(&self) -> Seq<char> {
        self.0@
    }
}

impl PartialEq for Message {
    fn eq(&self, other: &Self) -> (r: bool) {
        self.0 == other.0
    }
}

impl vstd::std_specs::cmp::PartialEqSpecImpl for Message {
    open spec fn obeys_eq_spec() -> bool {
        true
    }

    open spec fn eq_spec(&self, other: &Self) -> bool {
        self@ == other@
    }
}

impl Clone for Message {
    fn clone(&self) -> (r: Self)
        ensures
            r@ == self@,
    {
        proof { use_type_invariant(self); }
        Message(self.0.clone())
    }
}

impl Message {
    /// Largest number of characters that a value may hold.
    pub const MAX_CHARS: usize = 100;

    #[verifier::type_invariant]
    closed spec fn inv(self) -> bool {
        message_check(self.0@) is Ok
    }

    /// Validates `value` and keeps it unchanged when it passes.
    pub fn try_new(value: &str) -> (r: Result<Message, MessageError>)
        ensures
            match r {
                Ok(v) => message_check(value@) is Ok && v@ == value@,
                Err(e) => message_check(value@) == Err::<(), MessageError>(e),
            },
    {
        let n = value.unicode_len();
        if value.is_empty() {
            Err(MessageError::NotEmptyViolated)
        } else if n < 1 {
            Err(MessageError::LenCharMinViolated)
        } else if n > 100 {
            Err(MessageError::LenCharMaxViolated)
        } else {
            Ok(Message(value.to_owned()))
        }
    }

    /// The validated text.
    pub fn into_inner(self) -> (r: String)
        ensures
            r@ == self@,
            message_check(r@) is Ok,
    {
        proof { use_type_invariant(&self); }
        self.0
    }

    /// Borrows the validated text.
    pub fn as_ref(&self) -> (r: &str)
        ensures
            r@ == self@,
            message_check(r@) is Ok,
    {
        proof { use_type_invariant(self); }
        self.0.as_str()
    }
}

impl UserFacingError for MessageError {
    fn formatted_error(&self) -> (r: &'static str)
        ensures
            r@ == message_error_text(*self),
    {
        match self {
            MessageError::NotEmptyViolated => "Message cannot be empty",
            MessageError::LenCharMinViolated => "Message is too short, must be more than 1 chars",
            MessageError::LenCharMaxViolated => "Message is too long, must be less than 100 chars",
        }
    }
}

/// Why a candidate value for [`Caption`] was refused.
#[derive(Clone, Copy, Debug, PartialEq, Eq)]
pub enum CaptionError {
    NotEmptyViolated,
    LenCharMaxViolated,
}

/// An image caption of 1 to 60 characters.
#[derive(Debug)]
pub struct Caption(String);

/// Outcome of validating `s` as a [`Caption`]: the checks run in the order
/// of the error's variants and the first one that fails is reported.
pub open spec fn caption_check(s: Seq<char>) -> Result<(), CaptionError> {
    if s.len() == 0 {
        Err(CaptionError::NotEmptyViolated)
    } else if s.len() > 60 {
        Err(CaptionError::LenCharMaxViolated)
    } else {
        Ok(())
    }
}

/// The message shown to a user for each validation error.
pub open spec fn caption_error_text(e: CaptionError) -> Seq<char> {
    match e {
        CaptionError::NotEmptyViolated => "Caption cannot be empty"@,
        CaptionError::LenCharMaxViolated => "Caption is too long, must be less than 60 chars"@,
    }
}

impl View for Caption {
    type V = Seq<char>;

    closed spec fn view(&self) -> Seq<char> {
        self.0@
    }
}

impl PartialEq for Caption {
    fn eq(&self, other: &Self) -> (r: bool) {
        self.0 == other.0
    }
}

impl vstd::std_specs::cmp::PartialEqSpecImpl for Caption {
    open spec fn obeys_eq_spec() -> bool {
        true
    }

    open spec fn eq_spec(&self, other: &Self) -> bool {
        self@ == other@
    }
}

impl Clone for Caption {
    fn clone(&self) -> (r: Self)
        ensures
            r@ == self@,
    {
        proof { use_type_invariant(self); }
        Caption(self.0.clone())
    }
}

impl Caption {
    /// Largest number of characters that a value may hold.
    pub const MAX_CHARS: usize = 60;

    #[verifier::type_invariant]
    closed spec fn inv(self) -> bool {
        caption_check(self.0@) is Ok
    }

    /// Validates `value` and keeps it unchanged when it passes.
    pub fn try_new(value: &str) -> (r: Result<Caption, CaptionError>)
        ensures
            match r {
                Ok(v) => caption_check(value@) is Ok && v@ == value@,
                Err(e) => caption_check(value@) == Err::<(), CaptionError>(e),
            },
    {
        let n = value.unicode_len();
        if value.is_empty() {
            Err(CaptionError::NotEmptyViolated)
        } else if n > 60 {
            Err(CaptionError::LenCharMaxViolated)
        } else {
            Ok(Caption(value.to_owned()))
        }
    }

    /// The validated text.
    pub fn into_inner(self) -> (r: String)
        ensures
            r@ == self@,
            caption_check(r@) is Ok,
    {
        proof { use_type_invariant(&self); }
        self.0
    }

    /// Borrows the validated text.
    pub fn as_ref(&self) -> (r: &str)
        ensures
            r@ == self@,
            caption_check(r@) is Ok,
    {
        proof { use_type_invariant(self); }
        self.0.as_str()
    }
}

impl UserFacingError for CaptionError {
    fn formatted_error(&self) -> (r: &'static str)
        ensures
            r@ == caption_error_text(*self),
    {
        match self {
            CaptionError::NotEmptyViolated => "Caption cannot be empty",
            CaptionError::LenCharMaxViolated => "Caption is too long, must be less than 60 chars",
        }
    }
}

/// Why a candidate value for [`PollHeading`] was refused.
#[derive(Clone, Copy, Debug, PartialEq, Eq)]
pub enum PollHeadingError {
    NotEmptyViolated,
    LenCharMaxViolated,
}

/// A poll heading of 1 to 50 characters.
#[derive(Debug)]
pub struct PollHeading(String);

/// Outcome of validating `s` as a [`PollHeading`]: the checks run in the order
/// of the error's variants and the first one that fails is reported.
pub open spec fn poll_heading_check(s: Seq<char>) -> Result<(), PollHeadingError> {
    if s.len() == 0 {
        Err(PollHeadingError::NotEmptyViolated)
    } else if s.len() > 50 {
        Err(PollHeadingError::LenCharMaxViolated)
    } else {
        Ok(())
    }
}

/// The message shown to a user for each validation error.
pub open spec fn poll_heading_error_text(e: PollHeadingError) -> Seq<char> {
    match e {
        PollHeadingError::NotEmptyViolated => "Poll heading cannot be empty"@,
        PollHeadingError::LenCharMaxViolated => "Poll Heading is too long, must be less than 50 chars"@,
    }
}

impl View for PollHeading {
    type V = Seq<char>;

    closed spec fn view(&self) -> Seq<char> {
        self.0@
    }
}

impl PartialEq for PollHeading {
    fn eq(&self, other: &Self) -> (r: bool) {
        self.0 == other.0
    }
}

impl vstd::std_specs::cmp::PartialEqSpecImpl for PollHeading {
    open spec fn obeys_eq_spec() -> bool {
        true
    }

    open spec fn eq_spec(&self, other: &Self) -> bool {
        self@ == other@
    }
}

impl Clone for PollHeading {
    fn clone(&self) -> (r: Self)
        ensures
            r@ == self@,
    {
        proof { use_type_invariant(self); }
        PollHeading(self.0.clone())
    }
}

impl PollHeading {
    /// Largest number of characters that a value may hold.
    pub const MAX_CHARS: usize = 50;

    #[verifier::type_invariant]
    closed spec fn inv(self) -> bool {
        poll_heading_check(self.0@) is Ok
    }

    /// Validates `value` and keeps it unchanged when it passes.
    pub fn try_new(value: &str) -> (r: Result<PollHeading, PollHeadingError>)
        ensures
            match r {
                Ok(v) => poll_heading_check(value@) is Ok && v@ == value@,
                Err(e) => poll_heading_check(value@) == Err::<(), PollHeadingError>(e),
            },
    {
        let n = value.unicode_len();
        if value.is_empty() {
            Err(PollHeadingError::NotEmptyViolated)
        } else if n > 50 {
            Err(PollHeadingError::LenCharMaxViolated)
        } else {
            Ok(PollHeading(value.to_owned()))
        }
    }

    /// The validated text.
    pub fn into_inner(self) -> (r: String)
        ensures
            r@ == self@,
            poll_heading_check(r@) is Ok,
    {
        proof { use_type_invariant(&self); }
        self.0
    }

    /// Borrows the validated text.
    pub fn as_ref(&self) -> (r: &str)
        ensures
            r@ == self@,
            poll_heading_check(r@) is Ok,
    {
        proof { use_type_invariant(self); }
        self.0.as_str()
    }
}

impl UserFacingError for PollHeadingError {
    fn formatted_error(&self) -> (r: &'static str)
        ensures
            r@ == poll_heading_error_text(*self),
    {
        match self {
            PollHeadingError::NotEmptyViolated => "Poll heading cannot be empty",
            PollHeadingError::LenCharMaxViolated => "Poll Heading is too long, must be less than 50 chars",
        }
    }
}

/// Why a candidate value for [`PollChoiceDescription`] was refused.
#[derive(Clone, Copy, Debug, PartialEq, Eq)]
pub enum PollChoiceDescriptionError {
    NotEmptyViolated,
    LenCharMaxViolated,
}

/// The text of one poll choice, 1 to 80 characters.
#[derive(Debug)]
pub struct PollChoiceDescription(String);

/// Outcome of validating `s` as a [`PollChoiceDescription`]: the checks run in the order
/// of the error's variants and the first one that fails is reported.
pub open spec fn poll_choice_description_check(s: Seq<char>) -> Result<(), PollChoiceDescriptionError> {
    if s.len() == 0 {
        Err(PollChoiceDescriptionError::NotEmptyViolated)
    } else if s.len() > 80 {
        Err(PollChoiceDescriptionError::LenCharMaxViolated)
    } else {
        Ok(())
    }
}

/// The message shown to a user for each validation error.
pub open spec fn poll_choice_description_error_text(e: PollChoiceDescriptionError) -> Seq<char> {
    match e {
        PollChoiceDescriptionError::NotEmptyViolated => "PollChoiceDescriptionError cannot be empty"@,
        PollChoiceDescriptionError::LenCharMaxViolated => "PollChoiceDescriptionError is too long, must be less than 80 chars"@,
    }
}

impl View for PollChoiceDescription {
    type V = Seq<char>;

    closed spec fn view(&self) -> Seq<char> {
        self.0@
    }
}

impl PartialEq for PollChoiceDescription {
    fn eq(&self, other: &Self) -> (r: bool) {
        self.0 == other.0
    }
}

impl vstd::std_specs::cmp::PartialEqSpecImpl for PollChoiceDescription {
    open spec fn obeys_eq_spec() -> bool {
        true
    }

    open spec fn eq_spec(&self, other: &Self) -> bool {
        self@ == other@
    }
}

impl Clone for PollChoiceDescription {
    fn clone(&self) -> (r: Self)
        ensures
            r@ == self@,
    {
        proof { use_type_invariant(self); }
        PollChoiceDescription(self.0.clone())
    }
}

impl PollChoiceDescription {
    /// Largest number of characters that a value may hold.
    pub const MAX_CHARS: usize = 80;

    #[verifier::type_invariant]
    closed spec fn inv(self) -> bool {
        poll_choice_description_check(self.0@) is Ok
    }

    /// Validates `value` and keeps it unchanged when it passes.
    pub fn try_new(value: &str) -> (r: Result<PollChoiceDescription, PollChoiceDescriptionError>)
        ensures
            match r {
                Ok(v) => poll_choice_description_check(value@) is Ok && v@ == value@,
                Err(e) => poll_choice_description_check(value@) == Err::<(), PollChoiceDescriptionError>(e),
            },
    {
        let n = value.unicode_len();
        if value.is_empty() {
            Err(PollChoiceDescriptionError::NotEmptyViolated)
        } else if n > 80 {
            Err(PollChoiceDescriptionError::LenCharMaxViolated)
        } else {
            Ok(PollChoiceDescription(value.to_owned()))
        }
    }

    /// The validated text.
    pub fn into_inner(self) -> (r: String)
        ensures
            r@ == self@,
            poll_choice_description_check(r@) is Ok,
    {
        proof { use_type_invariant(&self); }
        self.0
    }

    /// Borrows the validated text.
    pub fn as_ref(&self) -> (r: &str)
        ensures
            r@ == self@,
            poll_choice_description_check(r@) is Ok,
    {
        proof { use_type_invariant(self); }
        self.0.as_str()
    }
}

impl UserFacingError for PollChoiceDescriptionError {
    fn formatted_error(&self) -> (r: &'static str)
        ensures
            r@ == poll_choice_description_error_text(*self),
    {
        match self {
            PollChoiceDescriptionError::NotEmptyViolated => "PollChoiceDescriptionError cannot be empty",
            PollChoiceDescriptionError::LenCharMaxViolated => "PollChoiceDescriptionError is too long, must be less than 80 chars",
        }
    }
}

} // verus!
