use classcharts::api::activity::ActivityOptions;
use classcharts::api::attendance::AttendanceOptions;
use classcharts::api::behaviour::BehaviourOptions;
use classcharts::api::homework::HomeworkOptions;
use classcharts::{u64_to_string, Client, Date, Method};

fn client() -> Client {
    Client::manual_creation(
        "student_id".to_string(),
        "https://example.test".to_string(),
        "auth_cookies".to_string(),
        "session_id".to_string(),
        0,
    )
}

#[test]
fn get_requests_carry_namespace_and_credentials() {
    let c = client();
    let r = c.build_get("/announcements/student_id");
    assert_eq!(r.method, Method::Get);
    assert_eq!(r.url, "https://example.test/apiv2student/announcements/student_id");
    assert_eq!(r.cookie, "auth_cookies");
    assert_eq!(r.authorization, "Basic session_id");
    assert_eq!(r.content_type, None);
    assert_eq!(r.body, None);
}

#[test]
fn post_requests_carry_namespace_and_credentials() {
    let c = client();
    let r = c.build_post("/purchase/item_id");
    assert_eq!(r.method, Method::Post);
    assert_eq!(r.url, "https://example.test/apiv2student/purchase/item_id");
    assert_eq!(r.authorization, "Basic session_id");
}

#[test]
fn activity_request_without_options_has_an_empty_query() {
    let c = client();
    let r = c.activity_request(&None);
    assert_eq!(r.url, "https://example.test/apiv2student/activity/student_id?");
}

#[test]
fn activity_request_encodes_range_and_cursor() {
    let c = client();
    let options = Some(ActivityOptions {
        from: Some(Date { year: 2023, month: 8, day: 24 }),
        to: Some(Date { year: 2023, month: 9, day: 4 }),
        last_id: Some("3459349".to_string()),
    });
    let r = c.activity_request(&options);
    assert_eq!(
        r.url,
        "https://example.test/apiv2student/activity/student_id?to=2023-09-04&from=2023-08-24&last_id=3459349"
    );
}

#[test]
fn query_values_are_form_encoded() {
    let c = client();
    let options = Some(ActivityOptions {
        from: None,
        to: None,
        last_id: Some("a b&c".to_string()),
    });
    let r = c.activity_request(&options);
    assert_eq!(
        r.url,
        "https://example.test/apiv2student/activity/student_id?last_id=a+b%26c"
    );
}

#[test]
fn attendance_request_encodes_the_range() {
    let c = client();
    let options = Some(AttendanceOptions {
        from: Date { year: 2023, month: 8, day: 25 },
        to: Date { year: 2023, month: 8, day: 25 },
    });
    let r = c.attendance_request(&options);
    assert_eq!(
        r.url,
        "https://example.test/apiv2student/attendance/student_id?to=2023-08-25&from=2023-08-25"
    );
}

#[test]
fn behaviour_request_supports_a_partial_range() {
    let c = client();
    let options = Some(BehaviourOptions {
        from: Some(Date { year: 2023, month: 9, day: 4 }),
        to: None,
    });
    let r = c.behaviour_request(&options);
    assert_eq!(
        r.url,
        "https://example.test/apiv2student/behaviour/student_id?from=2023-09-04"
    );
}

#[test]
fn homeworks_request_sends_only_the_range() {
    let c = client();
    let options = Some(HomeworkOptions {
        display_date: None,
        from: Some(Date { year: 2023, month: 9, day: 16 }),
        to: Some(Date { year: 2023, month: 9, day: 19 }),
    });
    let r = c.homeworks_request(&options);
    assert_eq!(
        r.url,
        "https://example.test/apiv2student/homeworks/student_id?to=2023-09-19&from=2023-09-16"
    );
}

#[test]
fn lessons_request_takes_a_date() {
    let c = client();
    let r = c.lessons_request(&Date { year: 2023, month: 9, day: 26 });
    assert_eq!(
        r.url,
        "https://example.test/apiv2student/timetable/student_id?date=2023-09-26"
    );
}

#[test]
fn simple_resource_requests_use_plain_paths() {
    let c = client();
    assert_eq!(
        c.announcements_request().url,
        "https://example.test/apiv2student/announcements/student_id"
    );
    assert_eq!(
        c.badges_request().url,
        "https://example.test/apiv2student/eventbadges/student_id"
    );
    assert_eq!(
        c.detentions_request().url,
        "https://example.test/apiv2student/detentions/student_id"
    );
    assert_eq!(
        c.pupilfields_request().url,
        "https://example.test/apiv2student/customfields/student_id"
    );
    assert_eq!(
        c.rewards_request().url,
        "https://example.test/apiv2student/rewards/student_id"
    );
}

#[test]
fn purchase_request_names_the_pupil_in_the_body() {
    let c = client();
    let r = c.purchase_request("item_id");
    assert_eq!(r.method, Method::Post);
    assert_eq!(r.url, "https://example.test/apiv2student/purchase/item_id");
    assert_eq!(r.body, Some("pupil_id=student_id".to_string()));
    assert_eq!(r.content_type, None);
}

#[test]
fn ping_request_carries_the_form_body() {
    let c = client();
    let r = c.student_info_request();
    assert_eq!(r.method, Method::Post);
    assert_eq!(r.url, "https://example.test/apiv2student/ping");
    assert_eq!(
        r.content_type,
        Some("application/x-www-form-urlencoded".to_string())
    );
    assert_eq!(r.body, Some("include_data=true".to_string()));
}

#[test]
fn dates_render_zero_padded() {
    assert_eq!(Date { year: 2023, month: 9, day: 4 }.format(), "2023-09-04");
    assert_eq!(Date { year: 987, month: 12, day: 31 }.format(), "0987-12-31");
}

#[test]
fn decimal_rendering_of_identifiers() {
    assert_eq!(u64_to_string(0), "0");
    assert_eq!(u64_to_string(3949234), "3949234");
    assert_eq!(u64_to_string(9876543210), "9876543210");
}
