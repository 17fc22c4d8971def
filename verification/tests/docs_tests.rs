use s1_mcp_client_rust::docs::{
    after_body, after_send_error, after_status, attempts_exhausted_message, docs_request_url, retry_backoff,
    should_retry_status,
    validate_docs_query, DocsStep,
};

#[test]
fn retry_backoff_grows_and_caps() {
    let first = retry_backoff(1);
    let second = retry_backoff(2);
    let third = retry_backoff(3);
    let high = retry_backoff(9);

    assert!(second > first);
    assert!(third > second);
    assert_eq!(high, 2_000);
}

#[test]
fn retry_backoff_exact_values() {
    assert_eq!(retry_backoff(0), 300);
    assert_eq!(retry_backoff(1), 300);
    assert_eq!(retry_backoff(2), 600);
    assert_eq!(retry_backoff(3), 1200);
    assert_eq!(retry_backoff(4), 2000);
    assert_eq!(retry_backoff(u32::MAX), 2000);
}

#[test]
fn only_server_errors_are_retryable_statuses() {
    assert!(should_retry_status(500));
    assert!(should_retry_status(502));
    assert!(!should_retry_status(429));
    assert!(!should_retry_status(404));
}

#[test]
fn docs_query_validation() {
    assert_eq!(validate_docs_query("  Player \n", 10).unwrap(), "Player");
    assert_eq!(validate_docs_query(" \t", 10).unwrap_err(), "Error: topic parameter is required");
    assert_eq!(validate_docs_query("NPC", 0).unwrap_err(), "Error: tokens must be a positive integer");
}

#[test]
fn docs_send_errors() {
    assert!(matches!(after_send_error("t", 1, true, false, "x"), DocsStep::Retry { backoff_ms: 300 }));
    match after_send_error("Player", 3, true, true, "x") {
        DocsStep::Finish(Err(m)) => assert_eq!(
            m,
            "Error: Request timed out while fetching documentation for topic 'Player' after 3 attempt(s). Please retry shortly."
        ),
        other => panic!("unexpected {other:?}"),
    }
    match after_send_error("Player", 1, false, false, "dns failure") {
        DocsStep::Finish(Err(m)) => assert_eq!(
            m,
            "Error: Network error while fetching documentation after 1 attempt(s): dns failure. Please check your internet connection and retry."
        ),
        other => panic!("unexpected {other:?}"),
    }
}

#[test]
fn docs_statuses_and_bodies() {
    assert!(matches!(after_status("t", 2, 503), Some(DocsStep::Retry { backoff_ms: 600 })));
    match after_status("Player", 3, 503) {
        Some(DocsStep::Finish(Err(m))) => assert_eq!(
            m,
            "Error: HTTP 503 while fetching documentation for topic 'Player'. Please verify the query and try again later."
        ),
        other => panic!("unexpected {other:?}"),
    }
    assert!(after_status("t", 1, 200).is_none());
    assert!(matches!(after_status("t", 1, 404), Some(DocsStep::Finish(Err(_)))));

    assert_eq!(after_body("Player", Ok("docs".to_string())).unwrap(), "docs");
    assert_eq!(
        after_body("Player", Ok("  \n".to_string())).unwrap(),
        "No documentation found for topic: 'Player'. Try a different search term."
    );
    assert_eq!(
        after_body("Player", Err("eof".to_string())).unwrap_err(),
        "Error: Failed to read documentation response - eof"
    );
    assert_eq!(
        attempts_exhausted_message("Player", None),
        "Error: Unable to fetch documentation for topic 'Player' after 3 attempts due to transient failures: unknown transient failure."
    );
}

#[test]
fn docs_request_url_encodes_the_query() {
    let (topic, url) = docs_request_url("  Player ", 2000).expect("valid query");
    assert_eq!(topic, "Player");
    assert_eq!(url, "https://context7.com/ifbars/s1api/llms.txt?topic=Player&tokens=2000");
    let (_, url) = docs_request_url("NPC AI&more", 5).expect("valid query");
    assert_eq!(url, "https://context7.com/ifbars/s1api/llms.txt?topic=NPC+AI%26more&tokens=5");
    assert_eq!(docs_request_url(" ", 5).unwrap_err(), "Error: topic parameter is required");
}
