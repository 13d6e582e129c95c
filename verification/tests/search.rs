use radon::search::{search, search_result_from, search_url, SearchResult};

fn rows_of(r: SearchResult) -> Vec<(String, u64, u64)> {
    match r {
        SearchResult::Rows(rows) => rows.into_iter().map(|r| (r.name, r.stars, r.forks)).collect(),
        _ => panic!("rows were expected"),
    }
}

#[test]
fn a_plain_query_is_asked_as_it_is() {
    assert_eq!(search_url("ripgrep"), "https://api.github.com/search/repositories?q=ripgrep");
    assert_eq!(
        search_url("A-z_0.9~"),
        "https://api.github.com/search/repositories?q=A-z_0.9~"
    );
    assert_eq!(search_url(""), "https://api.github.com/search/repositories?q=");
}

#[test]
fn other_characters_are_escaped() {
    assert_eq!(
        search_url("text editor"),
        "https://api.github.com/search/repositories?q=text%20editor"
    );
    assert_eq!(
        search_url("c++/a&b=c?"),
        "https://api.github.com/search/repositories?q=c%2B%2B%2Fa%26b%3Dc%3F"
    );
    assert_eq!(
        search_url("é€😀"),
        "https://api.github.com/search/repositories?q=%C3%A9%E2%82%AC%F0%9F%98%80"
    );
}

#[test]
fn rows_carry_name_stars_and_forks() {
    let body = r#"{"items": [
        {"full_name": "a/one", "stargazers_count": 12, "forks_count": 3},
        {"full_name": "b/two", "stargazers_count": -1, "forks_count": 2.5},
        {"name": "nameless", "stargazers_count": 99},
        {"full_name": "c/three"}
    ]}"#;
    assert_eq!(
        rows_of(search(body)),
        vec![
            ("a/one".to_string(), 12, 3),
            ("b/two".to_string(), 0, 0),
            ("c/three".to_string(), 0, 0)
        ]
    );
}

#[test]
fn only_the_first_ten_items_are_looked_at() {
    let mut items = Vec::new();
    items.push("{\"stargazers_count\": 1}".to_string());
    for i in 0..14 {
        items.push(format!("{{\"full_name\": \"o/r{}\", \"stargazers_count\": {}}}", i, i));
    }
    let body = format!("{{\"items\": [{}]}}", items.join(","));
    let rows = rows_of(search(&body));
    assert_eq!(rows.len(), 9);
    assert_eq!(rows[0], ("o/r0".to_string(), 0, 0));
    assert_eq!(rows[8], ("o/r8".to_string(), 8, 0));
}

#[test]
fn an_answer_without_items_may_say_why() {
    match search(r#"{"message": "rate limit"}"#) {
        SearchResult::Unexpected(m) => assert_eq!(m, Some("rate limit".to_string())),
        _ => panic!("an unexpected answer was expected"),
    }
    match search(r#"{"items": {"a": 1}}"#) {
        SearchResult::Unexpected(m) => assert_eq!(m, None),
        _ => panic!("an unexpected answer was expected"),
    }
    match search("[]") {
        SearchResult::Unexpected(m) => assert_eq!(m, None),
        _ => panic!("an unexpected answer was expected"),
    }
}

#[test]
fn an_answer_that_is_no_json_is_invalid() {
    assert!(matches!(search("<html>"), SearchResult::Invalid));
    assert!(matches!(search(""), SearchResult::Invalid));
}

#[test]
fn a_parsed_answer_is_read_the_same_way() {
    let doc: serde_json::Value =
        serde_json::from_str(r#"{"items": [{"full_name": "x/y", "forks_count": 7}]}"#).unwrap();
    assert_eq!(rows_of(search_result_from(&doc)), vec![("x/y".to_string(), 0, 7)]);
    let empty: serde_json::Value = serde_json::from_str(r#"{"items": []}"#).unwrap();
    assert_eq!(rows_of(search_result_from(&empty)), Vec::new());
}
