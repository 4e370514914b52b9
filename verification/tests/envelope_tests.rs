use classcharts::api::student::parse_student_info;
use classcharts::{cc_parse, parse_session_refresh, ErrorResponse};

#[test]
fn cc_parser_test() {
    let error_body = r#"{"success": 0, "error": "test error"}"#;
    let err = cc_parse(error_body).unwrap_err();
    assert_eq!(
        err,
        ErrorResponse::ClassChartsError(0, "test error".to_string())
    );

    let success_body = r#"{"success": 1, "data": "success", "meta": []}"#;
    let body = cc_parse(success_body).unwrap();
    assert_eq!(body, success_body);
}

#[test]
fn status_only_error_keeps_the_code() {
    let body = r#"{"success": 7}"#;
    let err = cc_parse(body).unwrap_err();
    assert_eq!(err, ErrorResponse::ClassChartsStatusError(7));
}

#[test]
fn error_message_is_carried_exactly() {
    let body = r#"{"success": 3, "error": "maintenance window"}"#;
    let err = cc_parse(body).unwrap_err();
    assert_eq!(
        err,
        ErrorResponse::ClassChartsError(3, "maintenance window".to_string())
    );
}

#[test]
fn malformed_envelope_is_rejected() {
    assert_eq!(
        cc_parse("not json at all").unwrap_err(),
        ErrorResponse::SerdeJsonParsingError
    );
    assert_eq!(
        cc_parse("[1, 2, 3]").unwrap_err(),
        ErrorResponse::SerdeJsonParsingError
    );
    // A probe whose status is not a number is malformed, too.
    assert_eq!(
        cc_parse(r#"{"success": "yes"}"#).unwrap_err(),
        ErrorResponse::SerdeJsonParsingError
    );
}

const STUDENT_INFO_BODY: &str = r#"{
    "success": 1,
    "data": {
        "user": {
            "id": 3949234,
            "name": "Name",
            "first_name": "first_name",
            "last_name": "last_name",
            "avatar_url": "https://example.com",
            "display_behaviour": false,
            "display_parent_behaviour": false,
            "display_homework": false,
            "display_rewards": false,
            "display_detentions": false,
            "display_report_cards": false,
            "display_classes": false,
            "display_announcements": true,
            "display_academic_reports": false,
            "display_attendance": true,
            "display_attendance_type": "instance",
            "display_attendance_percentage": false,
            "display_activity": false,
            "display_mental_health": false,
            "display_mental_health_no_tracker": false,
            "display_timetable": false,
            "is_disabled": false,
            "display_two_way_communications": true,
            "display_absences": false,
            "can_upload_attachments": false,
            "display_event_badges": false,
            "display_avatars": false,
            "display_concern_submission": false,
            "display_custom_fields": false,
            "pupil_concerns_help_text": "",
            "allow_pupils_add_timetable_notes": false,
            "detention_alias_plural_uc": "Detentions",
            "announcements_count": 0,
            "messages_count": 0,
            "pusher_channel_name": "pusher_channel_name",
            "has_birthday": false,
            "has_new_survey": false,
            "survey_id": null
        }
    },
    "meta": {
        "session_id": "jf99rm23pdi29dj32fh23i",
        "version": "27.16.2"
    }
}"#;

#[test]
fn get_student_info_test() {
    let info = parse_student_info(STUDENT_INFO_BODY).unwrap();
    assert_eq!(info.data.user.id, 3949234);
    assert_eq!(info.data.user.name, "Name");
    assert_eq!(info.data.user.display_announcements, true);
    assert_eq!(info.data.user.survey_id, None);
    assert_eq!(info.meta.version, "27.16.2");
}

#[test]
fn numbers_outside_the_read_ranges_are_rejected() {
    // A fractional status has no probe shape.
    assert_eq!(
        cc_parse(r#"{"success": 1.5}"#).unwrap_err(),
        ErrorResponse::SerdeJsonParsingError
    );
    // So has one beyond the largest machine integer.
    assert_eq!(
        cc_parse(r#"{"success": 184467440737095516160}"#).unwrap_err(),
        ErrorResponse::SerdeJsonParsingError
    );
    // A negative status is not a status either.
    assert_eq!(
        cc_parse(r#"{"success": -1}"#).unwrap_err(),
        ErrorResponse::SerdeJsonParsingError
    );
}

#[test]
fn session_refresh_reads_the_new_token() {
    let session = parse_session_refresh(STUDENT_INFO_BODY).unwrap();
    assert_eq!(session.meta.session_id, "jf99rm23pdi29dj32fh23i");
    assert_eq!(session.data.user.id, 3949234);
}

#[test]
fn session_refresh_fails_on_application_errors() {
    let err = parse_session_refresh(r#"{"success": 0, "error": "expired"}"#).unwrap_err();
    assert_eq!(err, ErrorResponse::ClassChartsError(0, "expired".to_string()));
}

#[test]
fn decoding_twice_yields_equal_values() {
    let first = parse_student_info(STUDENT_INFO_BODY).unwrap();
    let second = parse_student_info(STUDENT_INFO_BODY).unwrap();
    assert_eq!(first, second);

    let error_body = r#"{"success": 0, "error": "test error"}"#;
    assert_eq!(cc_parse(error_body), cc_parse(error_body));
}
