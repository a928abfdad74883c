use repo_visibility::paginate::Paginator;
use repo_visibility::query::{build_list_query, envelope, list_request_body};

#[test]
fn first_page_query() {
    assert_eq!(
        build_list_query("octo", 100, None),
        "{ user(login: \"octo\") { repositories(first: 100) { totalCount nodes { name visibility description } pageInfo { hasNextPage endCursor } } } }"
    );
}

#[test]
fn later_page_query_names_the_cursor() {
    assert_eq!(
        build_list_query("octo", 7, Some("Y3Vy")),
        "{ user(login: \"octo\") { repositories(first: 7, after: \"Y3Vy\") { totalCount nodes { name visibility description } pageInfo { hasNextPage endCursor } } } }"
    );
}

#[test]
fn hostile_login_and_cursor_are_escaped() {
    let q = build_list_query("a\"b\\c", 1, Some("x\") { y\n"));
    assert!(q.starts_with("{ user(login: \"a\\\"b\\\\c\") { repositories(first: 1, after: \"x\\\") { y\\n\") {"));
}

#[test]
fn envelope_wraps_quoted_query() {
    assert_eq!(envelope("\"q\""), "{\"query\":\"q\"}");
}

#[test]
fn request_body_is_json_with_the_query() {
    let body = list_request_body("octo", 5, None);
    assert_eq!(
        body,
        "{\"query\":\"{ user(login: \\\"octo\\\") { repositories(first: 5) { totalCount nodes { name visibility description } pageInfo { hasNextPage endCursor } } } }\"}"
    );
    let v: serde_json::Value = serde_json::from_str(&body).unwrap();
    assert_eq!(v["query"].as_str().unwrap(), build_list_query("octo", 5, None));
}

#[test]
fn paginator_body_matches_its_query() {
    let p = Paginator::new("octo".to_string(), 100, 10);
    let body = p.request_body();
    let v: serde_json::Value = serde_json::from_str(&body).unwrap();
    assert_eq!(v["query"].as_str().unwrap(), p.query());
}

#[test]
fn request_body_escapes_control_characters_as_json() {
    let body = list_request_body("a\u{1}b", 1, None);
    assert!(body.starts_with("{\"query\":\"{ user(login: \\\"a\\u0001b\\\")"));
    let v: serde_json::Value = serde_json::from_str(&body).unwrap();
    assert_eq!(v["query"].as_str().unwrap(), build_list_query("a\u{1}b", 1, None));
}
