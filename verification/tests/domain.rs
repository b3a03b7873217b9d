use uchat::domain::post::{
    Caption, CaptionError, Heading, HeadingError, Message, MessageError, PollChoiceDescription,
    PollChoiceDescriptionError, PollHeading, PollHeadingError,
};
use uchat::domain::user::{
    is_valid_email, DisplayName, DisplayNameError, Email, EmailError, EmailRegex, Password,
    PasswordError, Username, UsernameError,
};
use uchat::domain::UserFacingError;

#[test]
fn username_lengths() {
    assert_eq!(Username::try_new("").unwrap_err(), UsernameError::NotEmptyViolated);
    assert_eq!(Username::try_new("ab").unwrap_err(), UsernameError::LenCharMinViolated);
    assert_eq!(Username::try_new("abc").unwrap().into_inner(), "abc");
    assert_eq!(Username::try_new("abcdefghij").unwrap().as_ref(), "abcdefghij");
    assert_eq!(Username::try_new("abcdefghijk").unwrap_err(), UsernameError::LenCharMaxViolated);
}

#[test]
fn username_counts_characters_not_bytes() {
    // ten characters, thirty bytes
    let name = "用户名用户名用户名用";
    assert_eq!(name.len(), 30);
    assert!(Username::try_new(name).is_ok());
    assert_eq!(Username::try_new("用户").unwrap_err(), UsernameError::LenCharMinViolated);
}

#[test]
fn password_lengths() {
    assert!(matches!(Password::try_new(""), Err(PasswordError::NotEmptyViolated)));
    assert!(matches!(Password::try_new("1234567"), Err(PasswordError::LenCharMinViolated)));
    assert!(Password::try_new("12345678").is_ok());
    assert!(Password::try_new("123456789012345").is_ok());
    assert!(matches!(Password::try_new("1234567890123456"), Err(PasswordError::LenCharMaxViolated)));
}

#[test]
fn display_name_may_be_empty() {
    assert_eq!(DisplayName::try_new("").unwrap().into_inner(), "");
    assert!(DisplayName::try_new("0123456789").is_ok());
    assert_eq!(DisplayName::try_new("0123456789a").unwrap_err(), DisplayNameError::LenCharMaxViolated);
    assert_eq!(DisplayName::MAX_CHARS, 10);
}

#[test]
fn post_text_lengths() {
    assert_eq!(Heading::try_new("").unwrap_err(), HeadingError::NotEmptyViolated);
    assert!(Heading::try_new(&"h".repeat(30)).is_ok());
    assert_eq!(Heading::try_new(&"h".repeat(31)).unwrap_err(), HeadingError::LenCharMaxViolated);
    assert_eq!(Message::try_new("").unwrap_err(), MessageError::NotEmptyViolated);
    assert!(Message::try_new("m").is_ok());
    assert!(Message::try_new(&"m".repeat(100)).is_ok());
    assert_eq!(Message::try_new(&"m".repeat(101)).unwrap_err(), MessageError::LenCharMaxViolated);
    assert_eq!(Caption::try_new("").unwrap_err(), CaptionError::NotEmptyViolated);
    assert!(Caption::try_new(&"c".repeat(60)).is_ok());
    assert_eq!(Caption::try_new(&"c".repeat(61)).unwrap_err(), CaptionError::LenCharMaxViolated);
    assert_eq!(PollHeading::try_new("").unwrap_err(), PollHeadingError::NotEmptyViolated);
    assert!(PollHeading::try_new(&"p".repeat(50)).is_ok());
    assert_eq!(PollHeading::try_new(&"p".repeat(51)).unwrap_err(), PollHeadingError::LenCharMaxViolated);
    assert_eq!(
        PollChoiceDescription::try_new("").unwrap_err(),
        PollChoiceDescriptionError::NotEmptyViolated
    );
    assert!(PollChoiceDescription::try_new(&"d".repeat(80)).is_ok());
    assert_eq!(
        PollChoiceDescription::try_new(&"d".repeat(81)).unwrap_err(),
        PollChoiceDescriptionError::LenCharMaxViolated
    );
    assert_eq!(Heading::MAX_CHARS, 30);
    assert_eq!(Message::MAX_CHARS, 100);
    assert_eq!(Caption::MAX_CHARS, 60);
    assert_eq!(PollHeading::MAX_CHARS, 50);
    assert_eq!(PollChoiceDescription::MAX_CHARS, 80);
}

#[test]
fn validated_values_clone_unchanged() {
    let m = Message::try_new("hello").unwrap();
    assert_eq!(m.clone().into_inner(), "hello");
}

#[test]
fn error_texts() {
    assert_eq!(UsernameError::NotEmptyViolated.formatted_error(), "Username cannot be empty");
    assert_eq!(
        UsernameError::LenCharMinViolated.formatted_error(),
        "Username is too short, must be more than 3 chars"
    );
    assert_eq!(
        PasswordError::LenCharMaxViolated.formatted_error(),
        "Password is too long, must be less than 15 chars"
    );
    assert_eq!(
        DisplayNameError::LenCharMaxViolated.formatted_error(),
        "DisplayName is too long, must be less than 10 chars"
    );
    assert_eq!(HeadingError::NotEmptyViolated.formatted_error(), "Heading cannot be empty");
    assert_eq!(
        MessageError::LenCharMinViolated.formatted_error(),
        "Message is too short, must be more than 1 chars"
    );
    assert_eq!(
        CaptionError::LenCharMaxViolated.formatted_error(),
        "Caption is too long, must be less than 60 chars"
    );
    assert_eq!(PollHeadingError::NotEmptyViolated.formatted_error(), "Poll heading cannot be empty");
    assert_eq!(
        PollChoiceDescriptionError::LenCharMaxViolated.formatted_error(),
        "PollChoiceDescriptionError is too long, must be less than 80 chars"
    );
    assert_eq!(
        EmailError::InvalidEmail("x".to_string()).formatted_error(),
        "Email is not valid, Format: your_name@explame.com"
    );
}

#[test]
fn email_addresses() {
    assert!(is_valid_email("your_name@example.com").is_ok());
    assert!(Email::try_new("a@b.c").is_ok());
    assert!(Email::try_new("no-at-sign.com").is_err());
    assert!(Email::try_new("a@b").is_err());
    assert!(Email::try_new("a b@c.d").is_err());
    assert!(Email::try_new("").is_err());
    let long_tld = format!("a@b.{}", "x".repeat(65));
    assert!(Email::try_new(&long_tld).is_err());
    let ok_tld = format!("a@b.{}", "x".repeat(64));
    assert!(Email::try_new(&ok_tld).is_ok());
}

#[test]
fn email_error_keeps_the_address() {
    match Email::try_new("bad") {
        Err(e) => assert_eq!(e.to_string(), "Invalid email: bad"),
        Ok(_) => panic!("expected an error"),
    }
}

#[test]
fn email_with_compiled_pattern() {
    let re = EmailRegex::init().unwrap();
    assert!(re.is_valid("me@host.org"));
    assert!(!re.is_valid("me@host"));
    assert_eq!(Email::try_new_with(&re, "me@host.org").unwrap().as_ref(), "me@host.org");
}

#[test]
fn validated_values_compare_by_text() {
    assert_eq!(Username::try_new("abc").unwrap(), Username::try_new("abc").unwrap());
    assert_ne!(Username::try_new("abc").unwrap(), Username::try_new("abd").unwrap());
    assert!(Password::try_new("password1").unwrap() == Password::try_new("password1").unwrap());
    assert_eq!(Heading::try_new("h").unwrap(), Heading::try_new("h").unwrap());
    assert_eq!(Email::try_new("a@b.c").unwrap(), Email::try_new("a@b.c").unwrap());
}
