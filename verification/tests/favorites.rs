use server::api::comics;
use server::api::favorites::{self, FavoriteResponse};
use server::application::favorite::{
    by_ids_in_order, new_favorite, page_offset, FavoriteInput, FavoriteItem, FavoriteRow,
    FavoriteStoreError,
};
use server::application::history::ReadingHistoryInput;
use server::http_error::HttpError;

fn item(id: &str, title: &str) -> FavoriteItem {
    FavoriteItem {
        comic_id: id.to_string(),
        title: title.to_string(),
        author: "Author".to_string(),
        description: String::new(),
        image: String::new(),
        tags: Vec::new(),
        favorited_at: 1,
    }
}

fn test_input(title: &str) -> FavoriteInput {
    FavoriteInput {
        title: title.into(),
        author: "Author".into(),
        description: "Description".into(),
        image: "cover.jpg".into(),
        tags: vec!["Tag".into()],
    }
}

#[test]
fn reads_requested_favorites_in_the_caller_order() {
    let stored = vec![item("1", "Favorite 1"), item("2", "Favorite 2"), item("3", "Favorite 3")];
    let requested = vec!["3".to_string(), "1".to_string(), "missing".to_string(), "2".to_string()];
    let items = by_ids_in_order(&requested, &stored);
    assert_eq!(
        items.into_iter().map(|item| item.comic_id).collect::<Vec<_>>(),
        ["3", "1", "2"]
    );
    assert!(by_ids_in_order(&Vec::new(), &stored).is_empty());
}

#[test]
fn repeated_ids_read_once_and_the_last_stored_item_wins() {
    let stored = vec![item("1", "first"), item("2", "two"), item("1", "second")];
    let requested = vec!["1".to_string(), "2".to_string(), "1".to_string()];
    let items = by_ids_in_order(&requested, &stored);
    assert_eq!(items.len(), 2);
    assert_eq!(items[0].title, "second");
    assert_eq!(items[1].comic_id, "2");
}

#[test]
fn pages_start_after_the_rows_of_earlier_pages() {
    assert_eq!(page_offset(1, 20), 0);
    assert_eq!(page_offset(2, 1), 1);
    assert_eq!(page_offset(3, 20), 40);
    assert_eq!(page_offset(u32::MAX, 1), (u32::MAX - 1) as i64);
}

#[test]
fn rows_keep_tags_as_json_text() {
    let mut favorite = item("12", "Title");
    favorite.tags = vec!["a".to_string(), "b \"q\"".to_string()];
    let row = favorite.to_row();
    assert_eq!(row.tags, "[\"a\",\"b \\\"q\\\"\"]");
    assert_eq!(row.comic_id, "12");
    let back = FavoriteItem::from_row(row).unwrap();
    assert_eq!(back.tags, favorite.tags);
    assert_eq!(back.favorited_at, 1);
    let broken = FavoriteRow {
        comic_id: "1".into(),
        title: String::new(),
        author: String::new(),
        description: String::new(),
        image: String::new(),
        tags: "not json".into(),
        favorited_at: 0,
    };
    assert!(matches!(
        FavoriteItem::from_row(broken),
        Err(FavoriteStoreError::MalformedTags)
    ));
}

#[test]
fn a_new_favorite_copies_the_input() {
    let favorite = new_favorite("1", test_input("Local"));
    assert_eq!(favorite.comic_id, "1");
    assert_eq!(favorite.title, "Local");
    assert_eq!(favorite.tags, vec!["Tag"]);
    assert!(favorite.favorited_at > 0);
}

#[test]
fn serializes_favorite_without_update_time() {
    let response = FavoriteResponse::from_item(
        FavoriteItem {
            comic_id: "123".into(),
            title: "Example".into(),
            author: "Author".into(),
            description: String::new(),
            image: String::new(),
            tags: Vec::new(),
            favorited_at: 456,
        },
        "/covers/123".into(),
    );
    assert_eq!(response.id, "123");
    assert_eq!(response.image, "/covers/123");
    assert_eq!(response.favorited_at, 456);
}

#[test]
fn validates_comic_ids_and_pages() {
    assert!(comics::validate_comic_id("123").is_ok());
    let error: HttpError = comics::validate_comic_id("12a").unwrap_err();
    assert_eq!(error.status, 400);
    assert_eq!(error.message, "漫画 ID 必须为数字");
    assert!(!error.retryable);
    assert!(comics::validate_comic_id("").is_err());
    assert!(comics::validate_comic_id("１２").is_err());
    let error = favorites::validate_comic_id("-1").unwrap_err();
    assert_eq!(error.message, "收藏漫画 ID 必须为数字");
    assert!(favorites::validate_page(1).is_ok());
    let error = favorites::validate_page(0).unwrap_err();
    assert_eq!((error.status, error.message.as_str()), (400, "页码必须大于 0"));
    assert_eq!(favorites::default_page(), 1);
    assert_eq!(comics::default_page(), 1);
    let error = comics::state_error();
    assert_eq!((error.status, error.retryable), (500, false));
}

#[test]
fn serializes_an_optional_machine_readable_error_code() {
    let error = HttpError::new(409, "state changed".to_string(), true).with_code("favorite_order_stale");
    assert_eq!(error.code, Some("favorite_order_stale"));
    assert!(error.retryable);
    assert_eq!(error.status, 409);
    let plain = HttpError::new(502, "upstream failed".to_string(), true);
    assert_eq!(plain.code, None);
    assert_eq!(plain.message, "upstream failed");
    let internal = HttpError::internal("boom".to_string());
    assert_eq!((internal.status, internal.retryable), (500, false));
}

#[test]
fn reading_is_stamped_with_the_reported_time() {
    let input = ReadingHistoryInput {
        title: "Title".into(),
        author: "Author".into(),
        image: "cover.jpg".into(),
        chapter_id: "12".into(),
        chapter_title: "Chapter".into(),
        page_index: 1,
        page_count: 10,
        last_read_at: Some(30),
    };
    assert_eq!(input.read_at(), 30);
    let unstamped = ReadingHistoryInput {
        last_read_at: None,
        ..input
    };
    assert!(unstamped.read_at() > 30);
}

#[test]
fn tags_text_escapes_controls_quotes_and_backslashes() {
    let mut favorite = item("7", "Title");
    favorite.tags = vec![
        "a\u{1}b".to_string(),
        "t\tn\nq\"s\\".to_string(),
        "é\u{7f}".to_string(),
    ];
    assert_eq!(
        favorite.to_row().tags,
        "[\"a\\u0001b\",\"t\\tn\\nq\\\"s\\\\\",\"é\u{7f}\"]"
    );
    favorite.tags = Vec::new();
    assert_eq!(favorite.to_row().tags, "[]");
}
