use classcharts::api::student::parse_student_info;
use classcharts::{login_client, login_form_fields, login_session_id, ClientCreationError};

const COOKIE_NAME: &str = "student_session_credentials";
const COOKIE_VALUE: &str = r#"{"session_id":"jf99rm23pdi29dj32fh23i"}"#;

fn login_cookies() -> Vec<(String, String)> {
    vec![
        ("theme".to_string(), "dark".to_string()),
        (COOKIE_NAME.to_string(), COOKIE_VALUE.to_string()),
    ]
}

const STUDENT_INFO_BODY: &str = r#"{
    "success": 1,
    "data": {
        "user": {
            "id": 3949234,
            "name": "Name",
            "first_name": "first_name",
            "last_name": "last_name",
            "avatar_url": "https://example.com",
            "display_behaviour": false,
            "display_parent_behaviour": false,
            "display_homework": false,
            "display_rewards": false,
            "display_detentions": false,
            "display_report_cards": false,
            "display_classes": false,
            "display_announcements": true,
            "display_academic_reports": false,
            "display_attendance": true,
            "display_attendance_type": "instance",
            "display_attendance_percentage": false,
            "display_activity": false,
            "display_mental_health": false,
            "display_mental_health_no_tracker": false,
            "display_timetable": false,
            "is_disabled": false,
            "display_two_way_communications": true,
            "display_absences": false,
            "can_upload_attachments": false,
            "display_event_badges": false,
            "display_avatars": false,
            "display_concern_submission": false,
            "display_custom_fields": false,
            "pupil_concerns_help_text": "",
            "allow_pupils_add_timetable_notes": false,
            "detention_alias_plural_uc": "Detentions",
            "announcements_count": 0,
            "messages_count": 0,
            "pusher_channel_name": "pusher_channel_name",
            "has_birthday": false,
            "has_new_survey": false,
            "survey_id": null
        }
    },
    "meta": {
        "session_id": "jf99rm23pdi29dj32fh23i",
        "version": "27.16.2"
    }
}"#;

#[test]
fn create_client_test() {
    // The mocked login redirect, carrying the session cookie.
    let set_cookie = format!("{}={}", COOKIE_NAME, COOKIE_VALUE);
    let mut client = login_client(
        302,
        Some(set_cookie),
        &login_cookies(),
        "https://example.test".to_string(),
        1000,
    )
    .unwrap();
    assert_eq!(client.student_id, "");

    // The identity fetch right after login fills the student id.
    let info = parse_student_info(STUDENT_INFO_BODY).unwrap();
    client.complete_login(&info.data);

    assert_eq!(client.student_id, "3949234");
    assert_eq!(client.session_id, "jf99rm23pdi29dj32fh23i");
}

#[test]
fn login_without_redirect_fails_before_any_fetch() {
    let set_cookie = format!("{}={}", COOKIE_NAME, COOKIE_VALUE);
    let r = login_client(
        200,
        Some(set_cookie),
        &login_cookies(),
        "https://example.test".to_string(),
        1000,
    );
    assert_eq!(r.unwrap_err(), ClientCreationError::AuthenticationError);
}

#[test]
fn login_without_cookie_header_fails_before_any_fetch() {
    let r = login_client(
        302,
        None,
        &login_cookies(),
        "https://example.test".to_string(),
        1000,
    );
    assert_eq!(r.unwrap_err(), ClientCreationError::AuthenticationError);
}

#[test]
fn login_without_the_named_cookie_is_a_distinct_failure() {
    let cookies = vec![("theme".to_string(), "dark".to_string())];
    let r = login_client(
        302,
        Some("theme=dark".to_string()),
        &cookies,
        "https://example.test".to_string(),
        1000,
    );
    assert_eq!(r.unwrap_err(), ClientCreationError::MissingSesssionCookie(()));
}

#[test]
fn malformed_cookie_json_is_a_distinct_failure() {
    let cookies = vec![(COOKIE_NAME.to_string(), "not-json".to_string())];
    let r = login_client(
        302,
        Some(format!("{}=not-json", COOKIE_NAME)),
        &cookies,
        "https://example.test".to_string(),
        1000,
    );
    assert_eq!(r.unwrap_err(), ClientCreationError::CookieParsingError);
}

#[test]
fn cookie_value_is_percent_decoded() {
    let encoded = "%7B%22session_id%22%3A%22abc123%22%7D";
    assert_eq!(login_session_id(encoded).unwrap(), "abc123");
}

#[test]
fn undecodable_cookie_bytes_are_a_distinct_failure() {
    // Percent-escapes that decode to bytes outside of valid text.
    assert_eq!(
        login_session_id("%FF%FE").unwrap_err(),
        ClientCreationError::StringDecodingError
    );
}

#[test]
fn set_cookie_values_are_joined_with_semicolons() {
    let set_cookie = format!("a=1,b=2,{}={}", COOKIE_NAME, COOKIE_VALUE);
    let cookies = login_cookies();
    let client = login_client(
        302,
        Some(set_cookie),
        &cookies,
        "https://example.test".to_string(),
        1000,
    )
    .unwrap();
    assert_eq!(
        client.auth_cookies,
        format!("a=1;b=2;{}={}", COOKIE_NAME, COOKIE_VALUE)
    );
}

#[test]
fn login_form_uppercases_the_access_code() {
    let fields = login_form_fields("my_code", "01/01/2000");
    assert_eq!(fields.len(), 5);
    assert_eq!(fields[0], ("_method".to_string(), "POST".to_string()));
    assert_eq!(fields[1], ("code".to_string(), "MY_CODE".to_string()));
    assert_eq!(fields[2], ("dob".to_string(), "01/01/2000".to_string()));
    assert_eq!(fields[3], ("remember_me".to_string(), "1".to_string()));
    assert_eq!(
        fields[4],
        ("recaptcha-token".to_string(), "no-token-available".to_string())
    );
}
