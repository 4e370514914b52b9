use classcharts::api::activity::{parse_activity_response, LastId};
use classcharts::api::announcements::parse_announcements_response;
use classcharts::api::attendance::{parse_attendance_response, AttendancePeriodStatus, LateMinutes};
use classcharts::api::badges::parse_badges_response;
use classcharts::api::behaviour::parse_behaviour_response;
use classcharts::api::detentions::{parse_detentions_response, DetentionAttended};
use classcharts::api::homework::{parse_homeworks_response, DisplayDate, HomeworkState};
use classcharts::api::lessons::parse_lessons_response;
use classcharts::api::pupilfields::parse_pupilfields_response;
use classcharts::api::rewards::{
    parse_purchase_response, parse_rewards_response, PurchasedCount,
};
use classcharts::{ErrorResponse, JsonValue};

#[test]
fn get_activity_meta_test() {
    let body = r##"{
        "success": 1,
        "data": [],
        "meta": {
            "start_date": "2023-08-24T23:00:00+00:00",
            "end_date": "2023-09-24T22:59:59+00:00",
            "last_id": false,
            "step_size": "week",
            "detention_alias_uc": "Detention"
        }
    }"##;
    let activity = parse_activity_response(body).unwrap();
    assert!(activity.data.is_empty());
    assert_eq!(activity.meta.start_date, "2023-08-24T23:00:00+00:00");
    assert_eq!(activity.meta.end_date, "2023-09-24T22:59:59+00:00");
    assert_eq!(activity.meta.step_size, "week");
    assert_eq!(activity.meta.last_id, Some(LastId::Boolean(false)));
    assert_eq!(activity.meta.detention_alias_uc, "Detention");
}

#[test]
fn get_activity_test() {
    let body = r##"{
        "success": 1,
        "data": [
            {
                "id": 3459349,
                "type": "behaviour",
                "polarity": "positive",
                "reason": "Reason",
                "score": 1,
                "timestamp": "2023-04-21 10:00:00",
                "timestamp_custom_time": null,
                "style": {
                    "border_color": null,
                    "custom_class": null
                },
                "pupil_name": "Pupil Name",
                "lesson_name": "Lesson Name",
                "teacher_name": "Teacher Name",
                "room_name": null,
                "note": null,
                "_can_delete": false,
                "badges": "",
                "detention_date": null,
                "detention_time": null,
                "detention_location": null,
                "detention_type": null
            }
        ],
        "meta": {
            "start_date": "2023-08-24T23:00:00+00:00",
            "end_date": "2023-09-24T22:59:59+00:00",
            "last_id": 1,
            "step_size": "week",
            "detention_alias_uc": "Detention"
        }
    }"##;
    let activity = parse_activity_response(body).unwrap();
    assert_eq!(activity.data.len(), 1);
    let point = &activity.data[0];
    assert_eq!(point.id, 3459349);
    assert_eq!(point.point_type, "behaviour");
    assert_eq!(point.polarity, "positive");
    assert_eq!(point.score, 1);
    assert_eq!(point.lesson_name, Some("Lesson Name".to_string()));
    assert_eq!(point.room_name, None);
    assert_eq!(point.badges, Some("".to_string()));
    assert_eq!(activity.meta.last_id, Some(LastId::Number(1)));
}

#[test]
fn get_announcements_test() {
    let body = r##"{
        "success": 1,
        "data": [
            {
                "id": 2384823,
                "title": "Title",
                "description": "<p>Description</p>",
                "school_name": "School Name",
                "teacher_name": "Teacher name",
                "school_logo": "https://example.com",
                "sticky": "yes",
                "state": "viewed",
                "timestamp": "2023-02-23T10:00:00+00:00",
                "attachments": [],
                "for_pupils": [],
                "comment_visibility": "none",
                "allow_comments": "no",
                "allow_reactions": "no",
                "allow_consent": "no",
                "priority_pinned": "no",
                "requires_consent": "no",
                "can_change_consent": false,
                "consent": null,
                "pupil_consents": []
            }
        ],
        "meta": []
    }"##;
    let announcements = parse_announcements_response(body).unwrap();
    assert_eq!(announcements.data.len(), 1);
    let a = &announcements.data[0];
    assert_eq!(a.id, 2384823);
    assert_eq!(a.title, "Title");
    assert_eq!(a.sticky, true);
    assert_eq!(a.allow_comments, false);
    assert_eq!(a.state, Some("viewed".to_string()));
    assert_eq!(a.consent, None);
    assert!(a.attachments.is_empty());
    assert!(announcements.meta.is_empty());
}

#[test]
fn get_attendance_test() {
    let body = r##"{
        "success": 1,
        "data": {
            "2023-08-25": {
                "AM": { "code": "#", "status": "ignore", "late_minutes": 0 },
                "PM": { "code": "#", "status": "ignore", "late_minutes": 0 },
                "Period 1": { "code": "", "late_minutes": "", "status": "ignore" },
                "Period 2": { "code": "", "late_minutes": "", "status": "ignore" },
                "Period Tut": { "code": "", "late_minutes": "", "status": "ignore" },
                "Period 3": { "code": "", "late_minutes": "", "status": "ignore" },
                "Period 4": { "code": "", "late_minutes": "", "status": "ignore" },
                "Period 5": { "code": "", "late_minutes": "", "status": "ignore" }
            }
        },
        "meta": {
            "dates": ["2023-08-25"],
            "sessions": ["AM", "PM", "Period 1", "Period 2", "Period Tut", "Period 3", "Period 4", "Period 5", "Period 6"],
            "start_date": "2023-08-25T00:00:00+00:00",
            "end_date": "2023-08-25T16:00:00+00:00",
            "percentage": "100",
            "percentage_singe_august": "100"
        }
    }"##;
    let attendance = parse_attendance_response(body).unwrap();
    assert_eq!(attendance.data.len(), 1);
    let (date, day) = &attendance.data[0];
    assert_eq!(date, "2023-08-25");
    assert_eq!(day.len(), 8);
    assert_eq!(day[0].0, "AM");
    assert_eq!(day[0].1.code, "#");
    assert_eq!(day[0].1.status, AttendancePeriodStatus::Ignore);
    assert_eq!(day[0].1.late_minutes, LateMinutes::Number(0));
    assert_eq!(day[2].1.late_minutes, LateMinutes::Text("".to_string()));
    assert_eq!(attendance.meta.sessions.len(), 9);
    assert_eq!(attendance.meta.percentage, "100");
}

#[test]
fn get_badges_test() {
    let body = r##"{
        "success": 1,
        "data": [
            {
                "id": 59345,
                "name": "Test",
                "icon": "https://example.com",
                "colour": "#000",
                "created_date": "2023-08-25T00:00:00+00:00",
                "pupil_badges": [{
                    "timestamp": "2023-08-25T00:00:00+00:00",
                    "lesson_pupil_behaviour": {
                        "reason": "Test",
                        "score": 10,
                        "polarity": "positive",
                        "timestamp": "2023-08-25T00:00:00+00:00",
                        "teacher": {
                            "title": "Mr",
                            "first_name": "first_name",
                            "last_name": "last_name"
                        }
                    },
                    "event": {
                        "label": "Test"
                    }
                }],
                "icon_url": "https://example.com"
            }
        ],
        "meta": []
    }"##;
    let badges = parse_badges_response(body).unwrap();
    assert_eq!(badges.data.len(), 1);
    let badge = &badges.data[0];
    assert_eq!(badge.id, 59345);
    assert_eq!(badge.pupil_badges.len(), 1);
    assert_eq!(badge.pupil_badges[0].lesson_pupil_behaviour.score, 10);
    assert_eq!(badge.pupil_badges[0].lesson_pupil_behaviour.teacher.title, "Mr");
    assert_eq!(badge.pupil_badges[0].event.label, "Test");
}

#[test]
fn get_behaviour_test() {
    let body = r##"{
        "success": 1,
        "data": {
            "timeline": [
                {
                    "positive": 4,
                    "negative": 0,
                    "name": "9/4/2023",
                    "start": "2023-09-04",
                    "end": "2023-09-10"
                },
                {
                    "positive": 3,
                    "negative": 0,
                    "name": "9/11/2023",
                    "start": "2023-09-11",
                    "end": "2023-09-17"
                },
                {
                    "positive": 4,
                    "negative": 0,
                    "name": "9/18/2023",
                    "start": "2023-09-18",
                    "end": "2023-09-24"
                }
            ],
            "positive_reasons": {
                "Test 1": 4,
                "Test 2": 3,
                "Test 3": 4
            },
            "negative_reasons": [],
            "other_positive": [],
            "other_negative": [],
            "other_positive_count": [],
            "other_negative_count": []
        },
        "meta": {
            "start_date": "2023-09-04T00:00:00+00:00",
            "end_date": "2023-09-24T23:59:59+00:00",
            "step_size": "week"
        }
    }"##;
    let behaviour = parse_behaviour_response(body).unwrap();
    assert_eq!(behaviour.data.timeline.len(), 3);
    assert_eq!(behaviour.data.timeline[0].positive, 4);
    assert_eq!(behaviour.data.timeline[1].name, "9/11/2023");
    // Object keys arrive sorted by the parser's ordered map.
    assert_eq!(
        behaviour.data.positive_reasons,
        vec![
            ("Test 1".to_string(), 4),
            ("Test 2".to_string(), 3),
            ("Test 3".to_string(), 4),
        ]
    );
    // The empty-array sentinel decodes to an empty mapping.
    assert!(behaviour.data.negative_reasons.is_empty());
    assert_eq!(behaviour.meta.step_size, "week");
}

#[test]
fn get_detentions_test() {
    let body = r##"{
        "success": 1,
        "data": [
            {
                "id": 345834959,
                "attended": "yes",
                "date": "2023-08-24:00:00+00:00",
                "length": 10,
                "location": "Location",
                "notes": "Notes",
                "time": "16:00",
                "pupil": {
                    "id": 34593945,
                    "first_name": "first_name",
                    "last_name": "last_name",
                    "school": {
                        "opt_notes_names": "yes",
                        "opt_notes_comments": "no",
                        "opt_notes_comments_pupils": "no"
                    }
                },
                "lesson": {
                    "id": 4503459,
                    "name": "Lesson Name",
                    "subject": {
                        "id": 5496945,
                        "name": "Subject Name"
                    }
                },
                "lesson_pupil_behaviour": {
                    "reason": "reason"
                },
                "teacher": {
                    "id": 435345345,
                    "title": "Mr",
                    "first_name": "first_name",
                    "last_name": "last_name"
                },
                "detention_type": {
                    "name": "detention_type"
                }
            }
        ],
        "meta": {
            "detention_alias_plural": "detentions"
        }
    }"##;
    let detentions = parse_detentions_response(body).unwrap();
    assert_eq!(detentions.data.len(), 1);
    let d = &detentions.data[0];
    assert_eq!(d.id, 345834959);
    assert_eq!(d.attended, DetentionAttended::Yes);
    assert_eq!(d.length, Some(10));
    assert_eq!(d.pupil.school.opt_notes_names, true);
    assert_eq!(d.pupil.school.opt_notes_comments, false);
    assert_eq!(d.lesson.as_ref().unwrap().subject.name, "Subject Name");
    assert_eq!(d.teacher.as_ref().unwrap().title, "Mr");
    assert_eq!(d.detention_type.name, "detention_type");
    assert_eq!(detentions.meta.detention_alias_plural, "detentions");
}

#[test]
fn get_homeworks_test() {
    let body = r##"{
        "success": 1,
        "data": [
            {
                "lesson": "Lesson",
                "subject": "Subject",
                "teacher": "Teacher",
                "homework_type": "Homework",
                "id": 5488456,
                "title": "Maths Homework",
                "meta_title": "",
                "description": "<p>Description</p>",
                "issue_date": "2023-09-16",
                "due_date": "2023-09-19",
                "completion_time_unit": "minutes",
                "completion_time_value": "",
                "publish_time": "00:00:00",
                "status": {
                    "id": 3459984,
                    "state": "completed",
                    "mark": null,
                    "mark_relative": 0,
                    "ticked": "yes",
                    "allow_attachments": false,
                    "allow_marking_completed": true,
                    "first_seen_date": "2023-09-15T12:19:16+00:00",
                    "last_seen_date": "2023-09-16T11:17:11+00:00",
                    "attachments": [],
                    "has_feedback": false
                },
                "validated_links": [],
                "validated_attachments": []
            }
        ],
        "meta": {
            "start_date": "2023-09-17",
            "end_date": "2023-10-24",
            "display_type": "due_date",
            "max_files_allowed": 5,
            "allowed_file_types": [
                "doc", "docx", "pdf", "xls", "xlsx", "ppt", "pptx", "pub",
                "txt", "png", "jpeg", "jpg", "gif", "rtf", "mp3", "odt",
                "odp", "csv", "mp4", "mov", "m4a", "sb3", "py"
            ],
            "this_week_due_count": 0,
            "this_week_outstanding_count": 0,
            "this_week_completed_count": 1,
            "allow_attachments": true,
            "display_marks": false
        }
    }"##;
    let homeworks = parse_homeworks_response(body).unwrap();
    assert_eq!(homeworks.data.len(), 1);
    let h = &homeworks.data[0];
    assert_eq!(h.id, 5488456);
    assert_eq!(h.title, "Maths Homework");
    assert_eq!(h.status.state, Some(HomeworkState::Completed));
    assert_eq!(h.status.mark, JsonValue::Null);
    assert_eq!(h.status.ticked, true);
    assert!(h.validated_attachments.is_empty());
    assert_eq!(homeworks.meta.display_type, DisplayDate::DueDate);
    assert_eq!(homeworks.meta.allowed_file_types.len(), 23);
    assert_eq!(homeworks.meta.this_week_completed_count, 1);
}

#[test]
fn get_lessons_test() {
    let body = r##"{
        "success": 1,
        "data": [
            {
                "teacher_name": "Teacher Name",
                "lesson_id": 34599345,
                "lesson_name": "Lesson Name",
                "subject_name": "Subject Name",
                "is_alternative_lesson": false,
                "period_name": "2Tue:P1",
                "period_number": "P1",
                "room_name": "Room Name",
                "date": "2023-09-26",
                "start_time": "2023-09-26T08:45:00+01:00",
                "end_time": "2023-09-26T09:45:00+01:00",
                "key": 349593459,
                "note_abstract": "",
                "note": "",
                "pupil_note_abstract": "",
                "pupil_note": "",
                "pupil_note_raw": ""
            },
            {
                "teacher_name": "Teacher Name",
                "lesson_id": 9348345,
                "lesson_name": "Lesson Name",
                "subject_name": "TUTOR",
                "is_alternative_lesson": false,
                "period_name": "2Tue:Tut",
                "period_number": "Tut",
                "room_name": "Room Name",
                "date": "2023-09-26",
                "start_time": "2023-09-26T10:45:00+01:00",
                "end_time": "2023-09-26T11:05:00+01:00",
                "key": 43858345,
                "note_abstract": "",
                "note": "",
                "pupil_note_abstract": "",
                "pupil_note": "",
                "pupil_note_raw": ""
            }
        ],
        "meta": {
            "dates": ["2023-09-26"],
            "timetable_dates": ["2023-09-26"],
            "periods": [
                { "number": "P1", "start_time": "08:45:00", "end_time": "09:45:00" },
                { "number": "Tut", "start_time": "10:45:00", "end_time": "11:05:00" }
            ],
            "start_time": "2023-09-26T00:00:00+00:00",
            "end_time": "2023-09-26T23:59:59+00:00"
        }
    }"##;
    let lessons = parse_lessons_response(body).unwrap();
    assert_eq!(lessons.data.len(), 2);
    assert_eq!(lessons.data[0].period_number, "P1");
    assert_eq!(lessons.data[0].key, 349593459);
    assert_eq!(lessons.data[1].subject_name, "TUTOR");
    assert_eq!(lessons.meta.dates, vec!["2023-09-26".to_string()]);
    assert_eq!(lessons.meta.start_time, "2023-09-26T00:00:00+00:00");
}

#[test]
fn get_pupilfields_test() {
    let body = r##"{
        "success": 1,
        "data": {
            "note": "Note",
            "fields": [
                {
                    "id": 43583485,
                    "name": "Field Name",
                    "graphic": "#000",
                    "value": "Value"
                }
            ]
        },
        "meta": []
    }"##;
    let pupilfields = parse_pupilfields_response(body).unwrap();
    assert_eq!(pupilfields.data.note, "Note");
    assert_eq!(pupilfields.data.fields.len(), 1);
    assert_eq!(pupilfields.data.fields[0].id, 43583485);
    assert_eq!(pupilfields.data.fields[0].name, "Field Name");
    assert!(pupilfields.meta.is_empty());
}

#[test]
fn purchase_reward_test() {
    let body = r##"{
        "success": 1,
        "data": {
            "order_id": 3458354,
            "single_purchase": "yes",
            "balance": 0
        },
        "meta": []
    }"##;
    let purchase = parse_purchase_response(body).unwrap();
    assert_eq!(purchase.data.order_id, 3458354);
    assert_eq!(purchase.data.single_purchase, true);
    assert_eq!(purchase.data.balance, 0);
}

#[test]
fn purchase_failure_is_reported_as_an_upstream_error() {
    // The service answers a purchase of a missing item with a page
    // that is not JSON at all.
    let err = parse_purchase_response("<html>Internal Server Error</html>").unwrap_err();
    assert_eq!(
        err,
        ErrorResponse::ClassChartsError(
            0,
            "Internal Server Error, the item may not exist.".to_string()
        )
    );
}

#[test]
fn get_rewards_test() {
    let body = r##"{
        "success": 1,
        "data": [
            {
                "id": 84564,
                "name": "Name",
                "description": "Description",
                "photo": "https://example.com",
                "price": 10,
                "stock_control": true,
                "stock": 1,
                "can_purchase": true,
                "unable_to_purchase_reason": "",
                "once_per_pupil": false,
                "purchased": true,
                "purchased_count": "10",
                "price_balance_difference": 0
            }
        ],
        "meta": {
            "pupil_score_balance": 10
        }
    }"##;
    let rewards = parse_rewards_response(body).unwrap();
    assert_eq!(rewards.data.len(), 1);
    let item = &rewards.data[0];
    assert_eq!(item.id, 84564);
    assert_eq!(item.price, 10);
    assert_eq!(item.purchased_count, PurchasedCount::Text("10".to_string()));
    assert_eq!(rewards.meta.pupil_score_balance, 10);
}

#[test]
fn typed_decode_failure_is_distinct_from_envelope_failure() {
    // The envelope reports success, but the payload lacks the typed
    // shape: schema drift surfaces as a decode error.
    let body = r##"{"success": 1, "data": [{"id": "not a number"}], "meta": []}"##;
    assert_eq!(
        parse_badges_response(body).unwrap_err(),
        ErrorResponse::SerdeJsonParsingError
    );
}
