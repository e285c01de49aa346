use blog_editor::records::{Blog, Comment};
use blog_editor::resolver::{resolve, Resolution};
use blog_editor::token::parse_index;

fn post(id: Option<&str>, title: &str) -> Blog {
    Blog {
        id: id.map(|s| s.to_string()),
        title: title.to_string(),
        author: "A".to_string(),
        content: "C".to_string(),
        date: "2024-01-01".to_string(),
    }
}

fn three_posts() -> Vec<Blog> {
    vec![
        post(Some("a1"), "first"),
        post(Some("a2"), "second"),
        post(Some("a3"), "third"),
    ]
}

#[test]
fn token_two_resolves_second_identifier() {
    let posts = three_posts();
    match resolve(&posts, "2") {
        Resolution::Resolved(id) => assert_eq!(id, "a2"),
        _ => panic!("token 2 must resolve against three records"),
    }
}

#[test]
fn token_four_rejected_for_three_records() {
    let posts = three_posts();
    assert!(matches!(resolve(&posts, "4"), Resolution::Invalid));
}

#[test]
fn non_numeric_token_rejected_like_zero() {
    let posts = three_posts();
    let from_text = resolve(&posts, "abc");
    let from_zero = resolve(&posts, "0");
    assert!(matches!(from_text, Resolution::Invalid));
    assert!(matches!(from_zero, Resolution::Invalid));
}

#[test]
fn empty_list_rejects_every_token() {
    let posts: Vec<Blog> = Vec::new();
    for token in ["0", "1", "2", "abc", "", "-1", "+1"] {
        assert!(matches!(resolve(&posts, token), Resolution::Invalid));
    }
}

#[test]
fn bounds_are_inclusive() {
    let posts = three_posts();
    match resolve(&posts, "1") {
        Resolution::Resolved(id) => assert_eq!(id, "a1"),
        _ => panic!("token 1 must resolve to the first record"),
    }
    match resolve(&posts, "3") {
        Resolution::Resolved(id) => assert_eq!(id, "a3"),
        _ => panic!("token 3 must resolve to the last record"),
    }
}

#[test]
fn missing_identifier_is_surfaced() {
    let posts = vec![post(None, "orphan")];
    assert!(matches!(resolve(&posts, "1"), Resolution::MissingId));
}

#[test]
fn comments_resolve_the_same_way() {
    let comments = vec![
        Comment {
            id: Some("c1".to_string()),
            post_id: "p1".to_string(),
            user_id: "u1".to_string(),
            user_picture: "pic".to_string(),
            user_name: "name".to_string(),
            content: "hello".to_string(),
            date: "2024-01-01".to_string(),
        },
    ];
    match resolve(&comments, "1") {
        Resolution::Resolved(id) => assert_eq!(id, "c1"),
        _ => panic!("token 1 must resolve the only comment"),
    }
}

#[test]
fn parse_index_reads_decimal_tokens() {
    assert_eq!(parse_index("0"), 0);
    assert_eq!(parse_index("1"), 1);
    assert_eq!(parse_index("42"), 42);
    assert_eq!(parse_index("007"), 7);
    assert_eq!(parse_index("+5"), 5);
}

#[test]
fn parse_index_fails_soft_to_zero() {
    assert_eq!(parse_index(""), 0);
    assert_eq!(parse_index("+"), 0);
    assert_eq!(parse_index("abc"), 0);
    assert_eq!(parse_index("-1"), 0);
    assert_eq!(parse_index("1a"), 0);
    assert_eq!(parse_index("1 "), 0);
    assert_eq!(parse_index("2.5"), 0);
}

#[test]
fn parse_index_rejects_oversized_values() {
    assert_eq!(parse_index("18446744073709551615"), usize::MAX);
    assert_eq!(parse_index("18446744073709551616"), 0);
    assert_eq!(parse_index("99999999999999999999999999"), 0);
}
