use uchat::query::{new_async_pool, PoolState};
use uchat::server::image::{decode_image_file, split_once, USER_CONTENT_DIR};

#[test]
fn decodes_stored_data_url() {
    let f = decode_image_file("data:image/png;base64,aGVsbG8=").unwrap();
    assert_eq!(f.mime, "image/png");
    assert_eq!(f.data, b"hello".to_vec());
}

#[test]
fn refuses_malformed_image_files() {
    assert!(decode_image_file("no comma here").is_none());
    assert!(decode_image_file("image/png;base64,aGVsbG8=").is_none());
    assert!(decode_image_file("data:image/png,aGVsbG8=").is_none());
    assert!(decode_image_file("data:image/png;base64,not base64!").is_none());
}

#[test]
fn splits_at_first_occurrence() {
    assert_eq!(split_once("a,b,c", ","), Some(("a", "b,c")));
    assert_eq!(split_once("abc", ","), None);
    assert_eq!(split_once("x;base64;base64", ";base64"), Some(("x", ";base64")));
    assert_eq!(split_once("ü,ö", ","), Some(("ü", "ö")));
    assert_eq!(USER_CONTENT_DIR, "usercontent");
}

#[test]
fn pool_holds_one_connection() {
    let pool = new_async_pool("postgres://login@localhost/sample");
    assert_eq!(pool.state().max_size, 1);
    assert_eq!(pool.connection_url(), "postgres://login@localhost/sample");
    assert_eq!(PoolState::default().max_size, 0);
}
