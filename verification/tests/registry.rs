use check_crates::models::{ApiResponse, Crate};
use check_crates::registry::{
    is_search_term, report, search_url, FetchError, SEARCH_ENDPOINT, USER_AGENT,
};
use std::collections::HashMap;

fn found(name: &str, stable: Option<&str>, updated_at: &str) -> Crate {
    Crate {
        id: name.to_string(),
        name: name.to_string(),
        description: Some("a package".to_string()),
        license: Some("MIT".to_string()),
        documentation: None,
        homepage: None,
        repository: None,
        downloads: 1234,
        recent_downloads: Some(12),
        categories: None,
        keywords: Some(vec!["table".to_string()]),
        versions: None,
        max_version: "1.1.0-rc.1".to_string(),
        max_stable_version: stable.map(|v| v.to_string()),
        links: HashMap::new(),
        created_at: "2020-01-01T00:00:00Z".to_string(),
        updated_at: updated_at.to_string(),
        exact_match: Some(false),
    }
}

#[test]
fn search_url_ends_with_the_term() {
    assert_eq!(search_url("serde"), "https://crates.io/api/v1/crates?q=serde");
    assert_eq!(search_url(""), "https://crates.io/api/v1/crates?q=");
    assert_eq!(search_url("a b"), format!("{}a b", SEARCH_ENDPOINT));
}

#[test]
fn client_identifier() {
    assert_eq!(USER_AGENT, "check-crates-client");
}

#[test]
fn search_term_must_not_be_empty() {
    assert!(is_search_term("serde"));
    assert!(is_search_term(" "));
    assert!(!is_search_term(""));
}

#[test]
fn message_of_a_transport_failure() {
    let error = FetchError::Transport("connection refused".to_string());
    assert_eq!(error.message(), "failed to call api :connection refused");
}

#[test]
fn message_of_a_response_read_failure() {
    let error = FetchError::ResponseRead("unexpected end of file".to_string());
    assert_eq!(error.message(), "failed to parse response: unexpected end of file");
}

#[test]
fn message_of_a_decode_failure() {
    let error = FetchError::Decode("missing field `crates` at line 1 column 15".to_string());
    assert_eq!(
        error.message(),
        "failed to deserialize: missing field `crates` at line 1 column 15"
    );
}

#[test]
fn decode_failure_shows_no_line() {
    let cause = "missing field `crates` at line 1 column 15".to_string();
    let shown = report(Err(FetchError::Decode(cause)));
    assert_eq!(
        shown,
        Err("failed to deserialize: missing field `crates` at line 1 column 15".to_string())
    );
    assert!(shown.ok().is_none());
}

#[test]
fn transport_failure_shows_no_line() {
    let cause = "error sending request for url (https://unreachable.invalid/)".to_string();
    let shown = report(Err(FetchError::Transport(cause)));
    assert_eq!(
        shown,
        Err("failed to call api :error sending request for url (https://unreachable.invalid/)"
            .to_string())
    );
}

#[test]
fn response_read_failure_shows_no_line() {
    let shown = report(Err(FetchError::ResponseRead(String::new())));
    assert_eq!(shown, Err("failed to parse response: ".to_string()));
}

#[test]
fn found_packages_are_shown_as_a_table() {
    let response = ApiResponse {
        crates: vec![
            found("abc", Some("1.0.0"), "2024-01-01"),
            found("de", None, "2023-06-15T00:00:00Z"),
        ],
    };
    let shown = report(Ok(response.crates));
    assert_eq!(
        shown,
        Ok(vec![
            "  name  max_stable_version            updated_at".to_string(),
            "  ====  ==================  ====================".to_string(),
            "   abc               1.0.0            2024-01-01".to_string(),
            "    de                      2023-06-15T00:00:00Z".to_string(),
        ])
    );
}

#[test]
fn no_package_found_shows_the_head_alone() {
    let shown = report(Ok(Vec::new()));
    assert_eq!(
        shown,
        Ok(vec![
            "  name  max_stable_version  updated_at".to_string(),
            "  ====  ==================  ==========".to_string(),
        ])
    );
}
