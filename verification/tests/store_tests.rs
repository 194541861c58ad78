use ginger_auth::{
    auth_dir_path, auth_file_path, credential_file_content, json_escape, plan_save, StoreError,
};

#[test]
fn content_is_exact_json_object() {
    assert_eq!(
        credential_file_content("xyz789"),
        "{\"API_TOKEN\":\"xyz789\"}"
    );
}

#[test]
fn content_of_empty_token() {
    assert_eq!(credential_file_content(""), "{\"API_TOKEN\":\"\"}");
}

#[test]
fn escape_plain_text_is_unchanged() {
    assert_eq!(json_escape("abc123"), "abc123");
}

#[test]
fn escape_quote_and_backslash() {
    assert_eq!(json_escape("a\"b"), "a\\\"b");
    assert_eq!(json_escape("a\\b"), "a\\\\b");
}

#[test]
fn escape_short_controls() {
    assert_eq!(json_escape("a\nb\tc\rd"), "a\\nb\\tc\\rd");
    assert_eq!(json_escape("\u{8}\u{c}"), "\\b\\f");
}

#[test]
fn escape_other_controls_as_lowercase_hex() {
    assert_eq!(json_escape("\u{1}"), "\\u0001");
    assert_eq!(json_escape("\u{1f}"), "\\u001f");
    assert_eq!(json_escape("\u{b}"), "\\u000b");
}

#[test]
fn escape_keeps_non_ascii() {
    assert_eq!(json_escape("héllo"), "héllo");
}

#[test]
fn content_agrees_with_a_json_serializer() {
    for token in ["xyz789", "", "we\"ird\\to\nken\u{1f}", "héllo"] {
        let mut map = serde_json::Map::new();
        map.insert(
            "API_TOKEN".to_string(),
            serde_json::Value::String(token.to_string()),
        );
        let expected = serde_json::Value::Object(map).to_string();
        assert_eq!(credential_file_content(token), expected);
    }
}

#[test]
fn paths_are_under_the_home_directory() {
    assert_eq!(auth_dir_path("/home/u"), "/home/u/.ginger-society");
    assert_eq!(auth_file_path("/home/u"), "/home/u/.ginger-society/auth.json");
}

#[test]
fn plan_save_builds_dir_file_and_content() {
    let plan = plan_save(Some("/home/u"), "tok").expect("a home directory was given");
    assert_eq!(plan.dir_path, "/home/u/.ginger-society");
    assert_eq!(plan.file_path, "/home/u/.ginger-society/auth.json");
    assert_eq!(plan.content, "{\"API_TOKEN\":\"tok\"}");
}

#[test]
fn saving_twice_targets_one_file_with_only_the_second_token() {
    let first = plan_save(Some("/h"), "t1").expect("a home directory was given");
    let second = plan_save(Some("/h"), "t2").expect("a home directory was given");
    assert_eq!(first.file_path, second.file_path);
    assert_eq!(first.dir_path, second.dir_path);
    assert_eq!(second.content, "{\"API_TOKEN\":\"t2\"}");
    assert!(!second.content.contains("t1"));
}

#[test]
fn plan_save_without_home_is_refused() {
    let r = plan_save(None, "tok");
    assert_eq!(r, Err(StoreError::HomeDirectoryUnresolved));
}

#[test]
fn store_error_messages_name_path_and_cause() {
    assert_eq!(
        StoreError::HomeDirectoryUnresolved.message(),
        "Failed to locate home directory. Exiting."
    );
    let e = StoreError::DirectoryCreateFailed {
        path: "/home/u/.ginger-society".to_string(),
        cause: "permission denied".to_string(),
    };
    assert_eq!(
        e.message(),
        "Failed to create directory /home/u/.ginger-society: permission denied. Exiting."
    );
    let e = StoreError::FileWriteFailed {
        path: "/home/u/.ginger-society/auth.json".to_string(),
        cause: "disk full".to_string(),
    };
    assert_eq!(
        e.message(),
        "Failed to write to file /home/u/.ginger-society/auth.json: disk full. Exiting."
    );
}

#[test]
fn prepare_save_plans_under_some_home() {
    match ginger_auth::prepare_save("tok") {
        Ok(plan) => {
            assert!(plan.dir_path.ends_with("/.ginger-society"));
            assert!(plan.file_path.ends_with("/.ginger-society/auth.json"));
            assert_eq!(plan.content, "{\"API_TOKEN\":\"tok\"}");
        }
        Err(e) => assert_eq!(e, StoreError::HomeDirectoryUnresolved),
    }
}
