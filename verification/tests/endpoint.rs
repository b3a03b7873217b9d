use uchat::domain::ids::PostId;
use uchat::domain::post::Message;
use uchat::endpoint::app_url::user_content;
use uchat::endpoint::post::{
    Bookmark, BookmarkAction, Chat, Content, NewPost, NewPostOptions, React, LikeStatus,
};
use uchat::endpoint::trending::TrendingPosts;
use uchat::endpoint::user::{CreateUser, Login};
use uchat::endpoint::Endpoint;

#[test]
fn urls() {
    assert_eq!(Login::URL, "/account/login");
    assert_eq!(CreateUser::URL, "/account/create");
    assert_eq!(NewPost::URL, "/post/new");
    assert_eq!(Bookmark::URL, "/posts/bookmark");
    assert_eq!(React::URL, "/posts/react");
    assert_eq!(TrendingPosts::URL, "/posts/trending");
    assert_eq!(TrendingPosts.url(), "/posts/trending");
    let b = Bookmark { post_id: PostId(7), action: BookmarkAction::Add };
    assert_eq!(b.url(), "/posts/bookmark");
    let r = React { post_id: PostId(7), like_status: LikeStatus::Like };
    assert_eq!(r.url(), "/posts/react");
}

#[test]
fn bookmark_action_as_bool() {
    assert!(bool::from(BookmarkAction::Add));
    assert!(!bool::from(BookmarkAction::Remove));
}

#[test]
fn chat_into_content() {
    let chat = Chat { heading: None, message: Message::try_new("hi").unwrap() };
    let content: Content = chat.into();
    match content {
        Content::Chat(c) => assert_eq!(c.message.as_ref(), "hi"),
    }
}

#[test]
fn default_post_options() {
    let o = NewPostOptions::default();
    assert!(o.reply_to.is_none());
    assert!(o.direct_message_to.is_none());
    assert!(o.time_posted > 1_600_000_000_000);
}

#[test]
fn image_route_pattern() {
    assert_eq!(user_content::ROOT, "usercontent/");
    assert_eq!(user_content::IMAGES, "img/");
    assert_eq!(user_content::image_route(), "/usercontent/img/:id");
}

#[test]
fn request_failed_text() {
    let f = uchat::endpoint::RequestFailed { msg: "unauthorized".to_string() };
    assert_eq!(f.to_string(), "unauthorized");
}
