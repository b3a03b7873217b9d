use uchat::client::post_manager::PostManager;
use uchat::domain::ids::{PostId, UserId};
use uchat::domain::post::Message;
use uchat::endpoint::post::{Chat, Content, LikeStatus, PublicPost};
use uchat::endpoint::user::PublicUserProfile;

fn post(id: u128, text: &str) -> PublicPost {
    PublicPost {
        id: PostId(id),
        by_user: PublicUserProfile {
            id: UserId(1),
            display_name: None,
            handle: "alice".to_string(),
            profile_image: None,
            created_at: 0,
            am_following: false,
        },
        content: Content::Chat(Chat { heading: None, message: Message::try_new(text).unwrap() }),
        time_posted: 0,
        reply_to: None,
        like_status: LikeStatus::NoReaction,
        bookmarked: false,
        boosted: false,
        likes: 0,
        dislikes: 0,
        boosts: 0,
    }
}

fn text(p: &PublicPost) -> String {
    match &p.content {
        Content::Chat(c) => c.message.as_ref().to_string(),
    }
}

#[test]
fn populate_keeps_order_and_last_duplicate() {
    let mut m = PostManager::default();
    m.populate(vec![post(3, "a"), post(1, "b"), post(3, "c"), post(2, "d")]);
    let ids: Vec<u128> = m.ids().iter().map(|p| p.0).collect();
    assert_eq!(ids, vec![3, 1, 2]);
    assert_eq!(text(m.get(&PostId(3)).unwrap()), "c");
    assert!(m.get(&PostId(9)).is_none());
}

#[test]
fn remove_swaps_last_into_place() {
    let mut m = PostManager::new();
    m.populate(vec![post(1, "a"), post(2, "b"), post(3, "c"), post(4, "d")]);
    m.remove(&PostId(2));
    let ids: Vec<u128> = m.ids().iter().map(|p| p.0).collect();
    assert_eq!(ids, vec![1, 4, 3]);
    m.remove(&PostId(7));
    assert_eq!(m.ids().len(), 3);
    m.clear();
    assert!(m.ids().is_empty());
}

#[test]
fn update_in_place() {
    let mut m = PostManager::new();
    m.populate(vec![post(1, "a"), post(2, "b")]);
    let changed = m.update(PostId(1), |p: &PublicPost| {
        let mut q = p.clone();
        q.likes = p.likes + 1;
        q.bookmarked = true;
        q
    });
    assert!(changed);
    assert_eq!(m.get(&PostId(1)).unwrap().likes, 1);
    assert!(m.get(&PostId(1)).unwrap().bookmarked);
    let ids: Vec<u128> = m.ids().iter().map(|p| p.0).collect();
    assert_eq!(ids, vec![1, 2]);
    assert!(!m.update(PostId(5), |p: &PublicPost| p.clone()));
}
