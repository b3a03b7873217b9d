use uchat::client::notifications::KeyedNotifications;
use uchat::client::pages::{chat, edit_profile, image, login, poll, quick_respond, register};
use uchat::client::pages::{too_long, wrong_len};
use uchat::client::route::{profile_view, Route};
use uchat::client::toaster::{Toast, ToastKind, Toaster};
use uchat::domain::ids::UserId;
use uchat::domain::user::EmailRegex;
use uchat::endpoint::Update;

#[test]
fn notifications_set_replace_remove() {
    let mut n = KeyedNotifications::default();
    assert!(!n.has_messages());
    n.set("a", "first");
    n.set("b", "second");
    n.set("a", "third");
    let mut msgs = n.messages();
    msgs.sort();
    assert_eq!(msgs, vec!["second".to_string(), "third".to_string()]);
    n.remove("a");
    assert_eq!(n.messages(), vec!["second".to_string()]);
    n.remove("missing");
    assert!(n.has_messages());
    n.remove("b");
    assert!(!n.has_messages());
    assert!(n.messages().is_empty());
}

#[test]
fn notifications_clone_is_equal() {
    let mut n = KeyedNotifications::new();
    n.set("k", "v");
    let c = n.clone();
    assert_eq!(c.messages(), vec!["v".to_string()]);
}

#[test]
fn toaster_ids_increase() {
    let mut t = Toaster::default();
    t.push(Toast { message: "one".to_string(), expires: 10, kind: ToastKind::Info });
    t.push(Toast { message: "two".to_string(), expires: 20, kind: ToastKind::Error });
    assert_eq!(t.len(), 2);
    assert_eq!(t.get(0).unwrap().message, "one");
    assert_eq!(t.get(1).unwrap().kind, ToastKind::Error);
    let mut ids = t.ids();
    ids.sort();
    assert_eq!(ids, vec![0, 1]);
    t.remove(0);
    assert!(t.get(0).is_none());
    assert_eq!(t.ids(), vec![1]);
    t.increment_id();
    t.push(Toast { message: "three".to_string(), expires: 30, kind: ToastKind::Success });
    assert!(t.get(2).is_none());
    assert_eq!(t.get(3).unwrap().message, "three");
}

#[test]
fn toaster_expiry() {
    let mut t = Toaster::new();
    t.push_at("a", ToastKind::Info, 1000, 500);
    t.push_at("b", ToastKind::Info, 1000, 3000);
    t.push_at("c", ToastKind::Info, i64::MAX - 1, 10);
    assert_eq!(t.get(0).unwrap().expires, 1500);
    assert_eq!(t.get(2).unwrap().expires, i64::MAX);
    let mut ids = t.expired_ids(2000);
    ids.sort();
    assert_eq!(ids, vec![0]);
    let mut ids = t.expired_ids(5000);
    ids.sort();
    assert_eq!(ids, vec![0, 1]);
    assert!(t.expired_ids(1500).is_empty());
    t.remove_expired(2000);
    let mut ids = t.ids();
    ids.sort();
    assert_eq!(ids, vec![1, 2]);
    t.remove_expired(i64::MAX);
    assert_eq!(t.ids(), vec![2]);
}

#[test]
fn toaster_kinds() {
    let mut t = Toaster::new();
    t.success("ok", 3000);
    t.info("fyi", 3000);
    t.error("bad", 3000);
    assert_eq!(t.get(0).unwrap().kind, ToastKind::Success);
    assert_eq!(t.get(1).unwrap().kind, ToastKind::Info);
    assert_eq!(t.get(2).unwrap().kind, ToastKind::Error);
    assert_eq!(t.get(2).unwrap().message, "bad");
    assert_eq!(ToastKind::Error.style(), "bg-rose-300 border-rose-400");
}

#[test]
fn login_form() {
    let mut s = login::PageState::new();
    assert!(!s.can_submit());
    s.on_username_input("ab");
    assert_eq!(
        s.form_errors().messages(),
        vec!["Username is too short, must be more than 3 chars".to_string()]
    );
    s.on_password_input("password1");
    assert!(!s.can_submit());
    assert!(s.request().is_none());
    s.on_username_input("alice");
    assert!(!s.form_errors().has_messages());
    assert!(s.can_submit());
    let req = s.request().unwrap();
    assert_eq!(req.username.as_ref(), "alice");
    assert_eq!(req.password.as_ref(), "password1");
    s.on_login_failed("wrong password");
    assert_eq!(s.server_messages().messages(), vec!["wrong password".to_string()]);
}

#[test]
fn register_form() {
    let mut s = register::PageState::new();
    s.on_username_input("bob");
    s.on_password_input("short");
    assert!(!s.can_submit());
    s.on_password_input("longenough");
    assert!(s.can_submit());
    assert_eq!(s.request().unwrap().username.into_inner(), "bob");
}

#[test]
fn chat_form() {
    let mut s = chat::PageState::default();
    assert!(!s.can_submit());
    s.message = "hello".to_string();
    assert!(s.can_submit());
    let c = s.to_chat().unwrap();
    assert!(c.heading.is_none());
    s.heading = "h".repeat(31);
    assert!(!s.can_submit());
    assert!(s.to_chat().is_none());
    s.heading = "title".to_string();
    let c = s.to_chat().unwrap();
    assert_eq!(c.heading.unwrap().as_ref(), "title");
    assert_eq!(c.message.as_ref(), "hello");
}

#[test]
fn image_form() {
    let mut s = image::PageState::default();
    assert!(!s.can_submit());
    s.image = Some("data:image/png;base64,AAAA".to_string());
    assert!(s.can_submit());
    assert!(s.caption().unwrap().is_none());
    s.caption = "c".repeat(61);
    assert!(!s.can_submit());
    assert!(s.caption().is_err());
}

#[test]
fn poll_form() {
    let mut s = poll::PageState::default();
    assert_eq!(s.next_id, 2);
    assert_eq!(s.poll_choices.len(), 2);
    assert!(!s.can_submit());
    s.heading = "Lunch?".to_string();
    s.replace_choice(0, "pizza");
    assert!(!s.can_submit());
    s.replace_choice(1, "soup");
    assert!(s.can_submit());
    s.push_choice("");
    assert_eq!(s.next_id, 3);
    assert!(!s.can_submit());
    s.remove_choice(2);
    assert!(s.can_submit());
    s.push_choice("salad");
    s.replace_choice(1, "soup!");
    let ds: Vec<String> = s.descriptions().unwrap().iter().map(|d| d.as_ref().to_string()).collect();
    assert_eq!(ds, vec!["pizza".to_string(), "soup!".to_string(), "salad".to_string()]);
    assert_eq!(s.poll_heading().unwrap().as_ref(), "Lunch?");
    s.remove_choice(1);
    s.remove_choice(3);
    assert!(!s.can_submit());
    s.replace_choice(0, "");
    assert!(s.descriptions().is_none());
}

#[test]
fn quick_reply() {
    assert!(!quick_respond::can_submit(""));
    assert!(quick_respond::can_submit("hi"));
    assert!(quick_respond::reply_chat("hi").is_some());
    assert!(quick_respond::can_submit(&"x".repeat(100)));
    assert!(!quick_respond::can_submit(&"x".repeat(101)));
    // 34 characters of 3 bytes each: 102 bytes
    assert!(!quick_respond::can_submit(&"用".repeat(34)));
}

#[test]
fn length_counters() {
    assert!(wrong_len("", 10));
    assert!(!wrong_len("abc", 3));
    assert!(wrong_len("abcd", 3));
    assert!(!too_long("", 3));
    assert!(too_long("abcd", 3));
}

#[test]
fn edit_profile_form() {
    let re = EmailRegex::init().unwrap();
    let mut s = edit_profile::PageState::new();
    assert!(s.can_submit());
    s.on_email_input(&re, "nope");
    assert!(!s.can_submit());
    s.on_email_input(&re, "");
    assert!(s.can_submit());
    s.on_email_input(&re, "me@host.org");
    s.on_display_name_input("Alice");
    s.on_password_input("password1");
    assert_eq!(s.form_errors().messages(), vec!["Password must match".to_string()]);
    s.on_password_confirmation_input("password1");
    assert!(s.can_submit());
    s.on_image_loaded("data:image/png;base64,AAAA".to_string());
    let req = s.request().unwrap();
    match req.display_name {
        Update::Change(d) => assert_eq!(d, "Alice"),
        _ => panic!("display name should change"),
    }
    match req.email {
        Update::Change(e) => assert_eq!(e, "me@host.org"),
        _ => panic!("email should change"),
    }
    match req.password {
        Update::Change(p) => assert_eq!(p.as_ref(), "password1"),
        _ => panic!("password should change"),
    }
    match req.profile_image {
        Update::Change(d) => assert_eq!(d, "data:image/png;base64,AAAA"),
        _ => panic!("image should change"),
    }
}

#[test]
fn edit_profile_loaded_and_cleared() {
    let mut s = edit_profile::PageState::new();
    s.on_profile_loaded(None, Some("me@host.org".to_string()), Some("http://x/img".to_string()));
    let req = s.request().unwrap();
    assert!(matches!(req.display_name, Update::SetNull));
    assert!(matches!(req.password, Update::NoChange));
    assert!(matches!(req.profile_image, Update::NoChange));
    s.on_password_input("bad");
    assert!(s.request().is_none());
    s.on_password_input("");
    assert!(s.request().is_some());
}

#[test]
fn quick_reply_chat() {
    let c = quick_respond::reply_chat("thanks").unwrap();
    assert!(c.heading.is_none());
    assert_eq!(c.message.as_ref(), "thanks");
    assert!(quick_respond::reply_chat("").is_none());
}

#[test]
fn routes() {
    assert!(Route::Login.hides_navbar());
    assert!(Route::Register.hides_navbar());
    assert!(!Route::Home.hides_navbar());
    assert_eq!(profile_view(UserId(5)), Route::ViewProfile { user: UserId(5) });
    assert_eq!(Route::Trending.path(), Some("/posts/trending"));
    assert_eq!(Route::EditProfile.path(), Some("/profile/edit"));
    assert_eq!(profile_view(UserId(5)).path(), None);
}
