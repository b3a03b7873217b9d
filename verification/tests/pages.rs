use uchat::client::local_profile::{on_startup_profile_response, LocalProfile};
use uchat::client::navbar::NavbarState;
use uchat::client::pages::home::{
    announce_retrieval, on_posts_response, shows_trending_link, PostList,
};
use uchat::client::pages::view_profile::{display_name_text, profile_image_src, PageState};
use uchat::client::pages::{chat, edit_profile, image, login, poll, quick_respond, register, NOTICE_MILLIS};
use uchat::client::post_manager::PostManager;
use uchat::client::route::{Navigation, Route};
use uchat::client::toaster::{ToastKind, Toaster};
use uchat::domain::ids::{PostId, UserId};
use uchat::domain::post::Message;
use uchat::domain::user::DisplayName;
use uchat::endpoint::post::{Chat, Content, LikeStatus, NewPostOk, PublicPost};
use uchat::endpoint::user::{
    FollowAction, FollowUserOk, GetMyProfileOk, PublicUserProfile, UpdateProfileOk, ViewProfileOk,
};

fn profile(id: u128, following: bool) -> PublicUserProfile {
    PublicUserProfile {
        id: UserId(id),
        display_name: None,
        handle: "alice".to_string(),
        profile_image: None,
        created_at: 0,
        am_following: following,
    }
}

fn post(id: u128, text: &str) -> PublicPost {
    PublicPost {
        id: PostId(id),
        by_user: profile(1, false),
        content: Content::Chat(Chat { heading: None, message: Message::try_new(text).unwrap() }),
        time_posted: 0,
        reply_to: None,
        like_status: LikeStatus::NoReaction,
        bookmarked: false,
        boosted: false,
        likes: 0,
        dislikes: 0,
        boosts: 0,
    }
}

const NOW: i64 = 1_000_000;

fn only_toast(t: &Toaster) -> (String, ToastKind) {
    assert_eq!(t.len(), 1);
    let id = t.ids()[0];
    let toast = t.get(id).unwrap();
    assert_eq!(toast.expires, NOW + 3000);
    (toast.message.clone(), toast.kind)
}

#[test]
fn view_profile_shows_profile_and_posts() {
    let mut state = PageState::new();
    let mut posts = PostManager::new();
    posts.populate(vec![post(9, "old")]);
    let req = state.request(&mut posts, UserId(7));
    assert_eq!(req.for_user, UserId(7));
    assert!(posts.ids().is_empty());
    let mut toaster = Toaster::new();
    let ok = ViewProfileOk { profile: profile(7, true), posts: vec![post(1, "a"), post(2, "b")] };
    state.on_profile_response(&mut posts, &mut toaster, Ok(ok), NOW);
    assert_eq!(state.profile.as_ref().unwrap().id, UserId(7));
    assert_eq!(posts.ids(), vec![PostId(1), PostId(2)]);
    assert_eq!(toaster.len(), 0);
}

#[test]
fn view_profile_failure_is_an_error_toast() {
    let mut state = PageState::new();
    let mut posts = PostManager::new();
    let mut toaster = Toaster::new();
    state.on_profile_response(&mut posts, &mut toaster, Err("offline".to_string()), NOW);
    assert!(state.profile.is_none());
    assert_eq!(only_toast(&toaster), ("Failed to retrieve posts: offline".to_string(), ToastKind::Error));
}

#[test]
fn follow_button_and_request() {
    let mut state = PageState::new();
    assert_eq!(state.follow_button(Some(UserId(1))), None);
    assert_eq!(state.follow_request(UserId(7)).action, FollowAction::Follow);
    state.profile = Some(profile(7, true));
    assert_eq!(state.follow_button(Some(UserId(7))), None);
    assert_eq!(state.follow_button(None), None);
    assert_eq!(state.follow_button(Some(UserId(1))), Some("Unfollow"));
    let req = state.follow_request(UserId(7));
    assert_eq!(req.action, FollowAction::UnFollow);
    assert_eq!(req.user_id, UserId(7));
    let mut toaster = Toaster::new();
    state.on_follow_response(&mut toaster, Ok(FollowUserOk { status: FollowAction::UnFollow }), NOW);
    assert!(!state.profile.as_ref().unwrap().am_following);
    assert_eq!(state.follow_button(Some(UserId(1))), Some("Follow"));
    state.on_follow_response(&mut toaster, Err("nope".to_string()), NOW);
    assert!(!state.profile.as_ref().unwrap().am_following);
    assert_eq!(only_toast(&toaster), ("Failed to update follow status: nope".to_string(), ToastKind::Error));
}

#[test]
fn profile_texts() {
    let mut p = profile(3, false);
    assert_eq!(display_name_text(&p), "(None)");
    assert_eq!(profile_image_src(&p), "");
    p.display_name = Some(DisplayName::try_new("Bob").unwrap());
    p.profile_image = Some("http://x/img.png".to_string());
    assert_eq!(display_name_text(&p), "Bob");
    assert_eq!(profile_image_src(&p), "http://x/img.png");
}

#[test]
fn home_lists_posts_or_reports_failure() {
    let mut toaster = Toaster::new();
    let mut shown = PostManager::new();
    shown.populate(vec![post(9, "kept")]);
    announce_retrieval(&mut shown, &mut toaster, PostList::Home, NOW);
    assert_eq!(shown.ids(), vec![PostId(9)]);
    assert_eq!(only_toast(&toaster), ("Retrieving posts".to_string(), ToastKind::Info));
    let mut t2 = Toaster::new();
    announce_retrieval(&mut shown, &mut t2, PostList::Trending, NOW);
    assert_eq!(only_toast(&t2).0, "Retrieving trending posts");

    let mut posts = PostManager::new();
    assert!(shows_trending_link(&posts));
    let mut t3 = Toaster::new();
    on_posts_response(&mut posts, &mut t3, Ok(vec![post(5, "x"), post(6, "y")]), NOW);
    assert_eq!(posts.ids(), vec![PostId(5), PostId(6)]);
    assert!(!shows_trending_link(&posts));
    assert_eq!(t3.len(), 0);
    on_posts_response(&mut posts, &mut t3, Err("down".to_string()), NOW);
    assert!(shows_trending_link(&posts));
    assert_eq!(only_toast(&t3), ("Failed to retrive posts: down".to_string(), ToastKind::Error));
}

#[test]
fn edit_profile_responses() {
    let mut state = edit_profile::PageState::new();
    let mut toaster = Toaster::new();
    edit_profile::announce_profile_retrieval(&mut toaster, NOW);
    assert_eq!(only_toast(&toaster), ("Retrieving profile ...".to_string(), ToastKind::Info));
    let mut t = Toaster::new();
    let got = GetMyProfileOk {
        display_name: Some("Al".to_string()),
        email: None,
        profile_image: Some("http://x/a.png".to_string()),
        user_id: UserId(4),
    };
    state.on_profile_response(&mut t, Ok(got), NOW);
    assert_eq!(state.display_name(), "Al");
    assert_eq!(state.email(), "");
    assert_eq!(t.len(), 0);
    state.on_profile_response(&mut t, Err("gone".to_string()), NOW);
    assert_eq!(state.display_name(), "Al");
    assert_eq!(only_toast(&t), ("Failed to retrive profile: gone".to_string(), ToastKind::Error));

    let mut local = LocalProfile::new();
    let mut t4 = Toaster::new();
    let next = edit_profile::on_update_response(
        &mut local,
        &mut t4,
        Ok(UpdateProfileOk { profile_image: Some("http://x/b.png".to_string()) }),
        NOW,
    );
    assert_eq!(next, Some(Navigation::Push(Route::Home)));
    assert_eq!(local.image.as_deref(), Some("http://x/b.png"));
    assert_eq!(only_toast(&t4), ("profile updated".to_string(), ToastKind::Success));
    let mut t5 = Toaster::new();
    let next = edit_profile::on_update_response(&mut local, &mut t5, Err("bad".to_string()), NOW);
    assert_eq!(next, None);
    assert_eq!(local.image.as_deref(), Some("http://x/b.png"));
    assert_eq!(only_toast(&t5), ("Failed to update profile: bad".to_string(), ToastKind::Error));
}

#[test]
fn login_and_register_success_record_the_user() {
    let mut local = LocalProfile::new();
    assert_eq!(register::on_register_succeeded(&mut local, UserId(8)), Navigation::Push(Route::Home));
    assert_eq!(local.user_id, Some(UserId(8)));
    assert_eq!(local.image, None);
    let next = login::on_login_succeeded(&mut local, UserId(9), Some("http://x/c.png".to_string()));
    assert_eq!(next, Navigation::Push(Route::Home));
    assert_eq!(local.user_id, Some(UserId(9)));
    assert_eq!(local.image.as_deref(), Some("http://x/c.png"));
}

#[test]
fn new_post_responses() {
    let mut t = Toaster::new();
    assert_eq!(chat::on_post_response(&mut t, Ok(NewPostOk { post_id: PostId(1) }), NOW), Some(Navigation::Replace(Route::Home)));
    assert_eq!(only_toast(&t), ("Posted!".to_string(), ToastKind::Success));
    let mut t = Toaster::new();
    assert_eq!(image::on_post_response(&mut t, Err("big".to_string()), NOW), None);
    assert_eq!(only_toast(&t), ("Post failed: big".to_string(), ToastKind::Error));
    let mut t = Toaster::new();
    assert_eq!(poll::on_post_response(&mut t, Ok(NewPostOk { post_id: PostId(2) }), NOW), Some(Navigation::Replace(Route::Home)));
    assert_eq!(only_toast(&t), ("Poll Success!".to_string(), ToastKind::Success));
    let mut t = Toaster::new();
    assert_eq!(poll::on_post_response(&mut t, Err("no".to_string()), NOW), None);
    assert_eq!(only_toast(&t), ("Poll failed: no".to_string(), ToastKind::Error));
}

#[test]
fn chat_new_post_and_image_read() {
    let mut form = chat::PageState::default();
    assert!(form.to_new_post().is_none());
    form.message = "hello".to_string();
    let p = form.to_new_post().unwrap();
    match p.content {
        Content::Chat(c) => {
            assert_eq!(c.message.as_ref(), "hello");
            assert!(c.heading.is_none());
        },
    }
    assert!(p.options.reply_to.is_none());

    let mut img = image::PageState::default();
    let mut t = Toaster::new();
    img.on_image_read(&mut t, Ok("data:image/png;base64,AA==".to_string()), NOW);
    assert_eq!(img.image.as_deref(), Some("data:image/png;base64,AA=="));
    assert_eq!(t.len(), 0);
    img.on_image_read(&mut t, Err("unreadable".to_string()), NOW);
    assert_eq!(img.image.as_deref(), Some("data:image/png;base64,AA=="));
    assert_eq!(only_toast(&t), ("error loading file: unreadable".to_string(), ToastKind::Error));
}

#[test]
fn poll_choices_never_overwrite() {
    let mut form = poll::PageState::default();
    form.push_choice("c");
    assert_eq!(form.poll_choices.len(), 3);
    assert_eq!(form.poll_choices.get(&2).map(|s| s.as_str()), Some("c"));
    form.remove_choice(0);
    form.push_choice("d");
    assert_eq!(form.poll_choices.len(), 3);
    assert_eq!(form.next_id, 4);
}

#[test]
fn bookmarked_page_clears_before_its_request() {
    let mut posts = PostManager::new();
    posts.populate(vec![post(1, "a")]);
    let mut t = Toaster::new();
    announce_retrieval(&mut posts, &mut t, PostList::Bookmarked, NOW);
    assert!(shows_trending_link(&posts));
    assert_eq!(only_toast(&t), ("Retrieving posts".to_string(), ToastKind::Info));
    assert_eq!(NOTICE_MILLIS, 3000);
}

#[test]
fn quick_reply_responses() {
    let mut opened = true;
    let mut t = Toaster::new();
    quick_respond::on_reply_response(&mut opened, &mut t, Err("x".to_string()), NOW);
    assert!(opened);
    assert_eq!(only_toast(&t), ("Reply failed: x".to_string(), ToastKind::Error));
    let mut t = Toaster::new();
    quick_respond::on_reply_response(&mut opened, &mut t, Ok(NewPostOk { post_id: PostId(3) }), NOW);
    assert!(!opened);
    assert_eq!(only_toast(&t), ("Reply success".to_string(), ToastKind::Success));
}

#[test]
fn startup_profile_or_login() {
    let mut local = LocalProfile::new();
    let mut t = Toaster::new();
    let got = GetMyProfileOk {
        display_name: None,
        email: None,
        profile_image: Some("http://x/p.png".to_string()),
        user_id: UserId(6),
    };
    assert_eq!(on_startup_profile_response(&mut local, &mut t, Ok(got), NOW), None);
    assert_eq!(local.user_id, Some(UserId(6)));
    assert_eq!(local.image.as_deref(), Some("http://x/p.png"));
    assert_eq!(t.len(), 0);
    let mut fresh = LocalProfile::new();
    let next = on_startup_profile_response(&mut fresh, &mut t, Err("401".to_string()), NOW);
    assert_eq!(next, Some(Navigation::Push(Route::Login)));
    assert_eq!(fresh.user_id, None);
    assert_eq!(only_toast(&t), ("please login or create account.".to_string(), ToastKind::Error));
}

#[test]
fn navbar_popup_toggles() {
    let mut nav = NavbarState::new();
    assert!(nav.hide_new_post_popup);
    nav.on_post_click();
    assert!(!nav.hide_new_post_popup);
    nav.on_post_click();
    assert!(nav.hide_new_post_popup);
    assert!(!nav.shown_on(&Route::Login));
    assert!(!nav.shown_on(&Route::Register));
    assert!(nav.shown_on(&Route::Home));
}

#[test]
fn expiry_loop_step() {
    let mut t = Toaster::new();
    assert!(!t.expire_step(NOW));
    t.push_at("a", ToastKind::Info, NOW, 3000);
    t.push_at("b", ToastKind::Info, NOW, 10);
    assert!(t.expire_step(NOW + 100));
    assert_eq!(t.len(), 1);
    assert!(t.expire_step(NOW + 5000));
    assert_eq!(t.len(), 0);
    assert!(!t.expire_step(NOW + 6000));
}
