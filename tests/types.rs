use sohablog::enums::Status;
use sohablog::error::Kind;
use sohablog::types::{CommentStatus, ContentStatus, ContentType, EnumType, Error, UserStatus};

#[test]
fn content_type_codes() {
    assert_eq!(<ContentType as EnumType>::try_from(0), Ok(ContentType::Article));
    assert_eq!(<ContentType as EnumType>::try_from(1), Ok(ContentType::SinglePage));
    assert_eq!(<ContentType as EnumType>::try_from(2), Err(Error::Unknown));
    assert_eq!(ContentType::SinglePage.number(), 1);
}

#[test]
fn content_status_codes() {
    for n in 0..5 {
        assert_eq!(<ContentStatus as EnumType>::try_from(n).map(|s| s.number()), Ok(n));
    }
    assert_eq!(<ContentStatus as EnumType>::try_from(-1), Err(Error::Unknown));
    assert_eq!(<ContentStatus as EnumType>::try_from(4), Ok(ContentStatus::WithAccessOnly));
}

#[test]
fn content_status_visibility() {
    assert!(ContentStatus::Normal.is_visible_to_public());
    assert!(ContentStatus::Hidden.is_visible_to_public());
    assert!(!ContentStatus::WithAccessOnly.is_visible_to_public());
    assert!(ContentStatus::WithAccessOnly.is_visible_to_logged_in());
    assert!(!ContentStatus::Unpublished.is_visible_to_logged_in());
    assert!(!ContentStatus::Deleted.is_visible_to_logged_in());
}

#[test]
fn user_and_comment_status_codes() {
    assert_eq!(<UserStatus as EnumType>::try_from(1), Ok(UserStatus::Deleted));
    assert_eq!(<UserStatus as EnumType>::try_from(2), Err(Error::Unknown));
    assert_eq!(<CommentStatus as EnumType>::try_from(3), Ok(CommentStatus::PendingReview));
    assert_eq!(<CommentStatus as EnumType>::try_from(4), Err(Error::Unknown));
    assert_eq!(CommentStatus::Spam.number(), 2);
    assert_eq!(CommentStatus::default(), CommentStatus::Normal);
}

#[test]
fn status_from_num() {
    assert_eq!(Status::from_num(0), Ok(Status::Normal));
    assert_eq!(Status::from_num(1), Ok(Status::Deleted));
    assert_eq!(Status::from_num(7), Err("Unknown kind: 7".to_string()));
    assert_eq!(Status::from_num(255), Err("Unknown kind: 255".to_string()));
}

#[test]
fn error_kinds_differ() {
    assert_ne!(Kind::Database, Kind::DatabasePool);
}
