use server::jm::models::{
    Comic, ComicPayload, FavoriteCategoryPayload, FavoriteComic, FavoriteComicPayload,
    FavoriteOrder,
};
use server::jm::serde_ext::{
    bool_from_any, lossy_string_vec_from_array_or_scalar, optional_positive_i64_from_any,
    optional_string_from_any, string_from_any, string_from_any_or_default, u32_from_any,
    JsonNumber, JsonShapeError, JsonValue,
};

fn num(v: i64) -> JsonValue {
    if v < 0 {
        JsonValue::Number(JsonNumber::NegInt(v))
    } else {
        JsonValue::Number(JsonNumber::PosInt(v as u64))
    }
}

fn string(s: &str) -> JsonValue {
    JsonValue::String(s.to_string())
}

#[test]
fn deserializes_mixed_scalar_and_array_fields_from_upstream_samples() {
    assert_eq!(string_from_any_or_default(num(12345)), "12345");
    assert_eq!(string_from_any_or_default(JsonValue::Bool(true)), "true");
    assert_eq!(string_from_any_or_default(num(678)), "678");
    assert_eq!(string_from_any_or_default(JsonValue::Null), "");
    assert_eq!(string_from_any_or_default(JsonValue::Bool(false)), "false");
    assert_eq!(
        lossy_string_vec_from_array_or_scalar(JsonValue::Array(vec![
            string("tag-a"),
            num(2),
            JsonValue::Bool(true),
            JsonValue::Null,
            string(""),
        ]))
        .unwrap(),
        vec!["tag-a", "2", "true"]
    );

    assert_eq!(string_from_any(num(54321)).unwrap(), "54321");
    assert_eq!(string_from_any_or_default(num(1423951)), "1423951");
    assert_eq!(
        lossy_string_vec_from_array_or_scalar(string("single-author")).unwrap(),
        vec!["single-author"]
    );
    assert_eq!(lossy_string_vec_from_array_or_scalar(num(7)).unwrap(), vec!["7"]);
    assert_eq!(
        lossy_string_vec_from_array_or_scalar(JsonValue::Array(vec![
            string("actor-a"),
            num(8),
            JsonValue::Bool(false),
        ]))
        .unwrap(),
        vec!["actor-a", "8", "false"]
    );
    assert!(lossy_string_vec_from_array_or_scalar(JsonValue::Null)
        .unwrap()
        .is_empty());
    assert_eq!(u32_from_any(string("1001")), 1001);
    assert_eq!(u32_from_any(JsonValue::Bool(true)), 1);
    assert_eq!(u32_from_any(JsonValue::Null), 0);
    assert_eq!(
        optional_positive_i64_from_any(string("1786371000")),
        Some(1_786_371_000)
    );
    assert_eq!(string_from_any(num(9)).unwrap(), "9");
    assert_eq!(string_from_any(num(10)).unwrap(), "10");
}

#[test]
fn deserializes_remote_favorites_and_mixed_favorite_state() {
    assert_eq!(u32_from_any(string("2")), 2);

    let first = FavoriteComic::from_payload(FavoriteComicPayload {
        id: string_from_any_or_default(num(1455765)),
        name: string_from_any_or_default(string("Example")),
        author: string_from_any_or_default(num(42)),
        description: string_from_any_or_default(JsonValue::Null),
        image: string_from_any_or_default(JsonValue::Bool(false)),
        category: Some(FavoriteCategoryPayload {
            title: string_from_any_or_default(string("Category")),
        }),
        category_sub: Some(FavoriteCategoryPayload {
            title: string_from_any_or_default(string("Category")),
        }),
    });
    let second = FavoriteComic::from_payload(FavoriteComicPayload {
        id: string_from_any_or_default(string("99")),
        name: string_from_any_or_default(JsonValue::Bool(true)),
        author: String::new(),
        description: String::new(),
        image: String::new(),
        category: None,
        category_sub: Some(FavoriteCategoryPayload {
            title: string_from_any_or_default(num(7)),
        }),
    });
    assert_eq!(first.id, "1455765");
    assert_eq!(first.author, "42");
    assert_eq!(first.description, "");
    assert_eq!(first.tags, vec!["Category"]);
    assert_eq!(second.id, "99");
    assert_eq!(second.tags, vec!["7"]);

    assert!(bool_from_any(string("1")));
}

#[test]
fn ignores_invalid_or_non_positive_detail_timestamps() {
    for addtime in [
        JsonValue::Null,
        num(0),
        num(-1),
        string("not-a-timestamp"),
        JsonValue::Bool(true),
    ] {
        assert_eq!(optional_positive_i64_from_any(addtime), None);
    }
}

#[test]
fn reads_flags_from_words_numbers_and_booleans() {
    assert!(bool_from_any(string(" TRUE ")));
    assert!(bool_from_any(string("Yes")));
    assert!(!bool_from_any(string("no")));
    assert!(!bool_from_any(string("2")));
    assert!(bool_from_any(num(-3)));
    assert!(!bool_from_any(num(0)));
    assert!(!bool_from_any(JsonValue::Number(JsonNumber::PosInt(u64::MAX))));
    assert!(!bool_from_any(JsonValue::Number(JsonNumber::Float("1.5".to_string()))));
    assert!(!bool_from_any(JsonValue::Object));
}

#[test]
fn reads_counts_leniently_and_cuts_large_numbers_to_32_bits() {
    assert_eq!(u32_from_any(JsonValue::Number(JsonNumber::PosInt(0x1_0000_0005))), 5);
    assert_eq!(u32_from_any(string("+17")), 17);
    assert_eq!(u32_from_any(string(" 17")), 0);
    assert_eq!(u32_from_any(string("4294967296")), 0);
    assert_eq!(u32_from_any(num(-1)), 0);
    assert_eq!(u32_from_any(JsonValue::Bool(false)), 0);
}

#[test]
fn reads_positive_timestamps_from_trimmed_text_and_large_numbers() {
    assert_eq!(optional_positive_i64_from_any(string("  42\n")), Some(42));
    assert_eq!(optional_positive_i64_from_any(string("+42")), Some(42));
    assert_eq!(optional_positive_i64_from_any(string("-42")), None);
    assert_eq!(
        optional_positive_i64_from_any(string("9223372036854775807")),
        Some(i64::MAX)
    );
    assert_eq!(optional_positive_i64_from_any(string("9223372036854775808")), None);
    assert_eq!(
        optional_positive_i64_from_any(JsonValue::Number(JsonNumber::PosInt(u64::MAX))),
        None
    );
}

#[test]
fn renders_numbers_and_refuses_objects() {
    assert_eq!(string_from_any_or_default(num(-120)), "-120");
    assert_eq!(string_from_any_or_default(num(i64::MIN)), "-9223372036854775808");
    assert_eq!(
        string_from_any_or_default(JsonValue::Number(JsonNumber::PosInt(u64::MAX))),
        "18446744073709551615"
    );
    assert_eq!(string_from_any_or_default(num(0)), "0");
    assert_eq!(
        string_from_any_or_default(JsonValue::Number(JsonNumber::Float("2.5".to_string()))),
        "2.5"
    );
    assert_eq!(string_from_any_or_default(JsonValue::Array(vec![num(1)])), "");
    assert_eq!(
        string_from_any(JsonValue::Object).unwrap_err(),
        JsonShapeError::ExpectedScalar
    );
    assert_eq!(
        lossy_string_vec_from_array_or_scalar(JsonValue::Object).unwrap_err(),
        JsonShapeError::ExpectedStringArrayOrScalar
    );
    assert_eq!(
        JsonShapeError::ExpectedScalar.message(),
        "expected a scalar value"
    );
    assert!(lossy_string_vec_from_array_or_scalar(string(" \t"))
        .unwrap()
        .is_empty());
    assert_eq!(
        lossy_string_vec_from_array_or_scalar(JsonValue::Array(vec![
            JsonValue::Array(vec![string("nested")]),
            string(" padded "),
        ]))
        .unwrap(),
        vec![" padded "]
    );
}

#[test]
fn reads_optional_text_trimmed_and_absent_when_blank() {
    assert_eq!(optional_string_from_any(string("  7788 ")), Some("7788".to_string()));
    assert_eq!(optional_string_from_any(num(12)), Some("12".to_string()));
    assert_eq!(optional_string_from_any(string("\u{3000}\u{a0}")), None);
    assert_eq!(optional_string_from_any(JsonValue::Null), None);
    assert_eq!(optional_string_from_any(JsonValue::Object), None);
}

#[test]
fn favorite_tags_are_trimmed_distinct_and_not_empty() {
    let comic = FavoriteComic::from_payload(FavoriteComicPayload {
        id: "5".to_string(),
        name: String::new(),
        author: String::new(),
        description: String::new(),
        image: String::new(),
        category: Some(FavoriteCategoryPayload {
            title: "  ".to_string(),
        }),
        category_sub: Some(FavoriteCategoryPayload {
            title: " Sub ".to_string(),
        }),
    });
    assert_eq!(comic.tags, vec!["Sub"]);
    let comic = FavoriteComic::from_payload(FavoriteComicPayload {
        id: "6".to_string(),
        name: String::new(),
        author: String::new(),
        description: String::new(),
        image: String::new(),
        category: Some(FavoriteCategoryPayload {
            title: "A".to_string(),
        }),
        category_sub: Some(FavoriteCategoryPayload {
            title: "B".to_string(),
        }),
    });
    assert_eq!(comic.tags, vec!["A", "B"]);
}

#[test]
fn comic_payload_converts_field_for_field_and_orders_have_names() {
    let comic = Comic::from_payload(ComicPayload {
        id: "1".to_string(),
        name: "n".to_string(),
        author: "a".to_string(),
        description: "d".to_string(),
        image: "i".to_string(),
        tags: vec!["t".to_string()],
    });
    assert_eq!(comic.id, "1");
    assert_eq!(comic.tags, vec!["t"]);
    assert_eq!(FavoriteOrder::Mr.as_str(), "mr");
    assert_eq!(FavoriteOrder::Mp.as_str(), "mp");
    assert_eq!(FavoriteOrder::default(), FavoriteOrder::Mr);
}
