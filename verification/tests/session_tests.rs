use classcharts::{session_is_stale, Client, Method, SessionStep};

fn restored_client(last_refreshed: i64) -> Client {
    Client::manual_creation(
        "student_id".to_string(),
        "https://example.test".to_string(),
        "auth_cookies".to_string(),
        "session_id".to_string(),
        last_refreshed,
    )
}

#[test]
fn staleness_is_elapsed_time_over_the_threshold() {
    assert!(!session_is_stale(1000, 1000));
    assert!(!session_is_stale(1180, 1000));
    assert!(session_is_stale(1181, 1000));
    // A last-refreshed time in the future is not stale.
    assert!(!session_is_stale(1000, 2000));
}

#[test]
fn stale_session_triggers_exactly_one_refresh() {
    let mut client = restored_client(1000);

    // Older than the threshold: the next request is preceded by one
    // refresh round trip.
    match client.begin_request(1181) {
        SessionStep::Refresh(ping) => {
            assert_eq!(ping.method, Method::Post);
            assert_eq!(ping.url, "https://example.test/apiv2student/ping");
            assert_eq!(ping.cookie, "auth_cookies");
            assert_eq!(ping.authorization, "Basic session_id");
            assert_eq!(
                ping.content_type,
                Some("application/x-www-form-urlencoded".to_string())
            );
            assert_eq!(ping.body, Some("include_data=true".to_string()));
        }
        SessionStep::Ready => panic!("a stale session must be refreshed first"),
    }

    // The refresh outcome is applied; the same moment needs no
    // second refresh.
    client.apply_refresh("fresh_token".to_string(), 1181);
    assert_eq!(client.session_id, "fresh_token");
    assert!(matches!(client.begin_request(1181), SessionStep::Ready));
}

#[test]
fn fresh_session_triggers_no_refresh() {
    let client = restored_client(1000);
    assert!(matches!(client.begin_request(1100), SessionStep::Ready));
    assert!(matches!(client.begin_request(1180), SessionStep::Ready));
}

#[test]
fn refresh_replaces_only_token_and_time() {
    let mut client = restored_client(500);
    client.apply_refresh("next".to_string(), 900);
    assert_eq!(client.session_id, "next");
    assert_eq!(client.last_session_id_updated, 900);
    assert_eq!(client.student_id, "student_id");
    assert_eq!(client.base_url, "https://example.test");
    assert_eq!(client.auth_cookies, "auth_cookies");
}
