use classcharts::api::activity::{
    ActivityPager, ActivityPoint, ActivityStyle, FullActivityOptions,
};
use classcharts::Date;

fn point(id: usize) -> ActivityPoint {
    ActivityPoint {
        id,
        point_type: "behaviour".to_string(),
        polarity: "positive".to_string(),
        reason: "Reason".to_string(),
        score: 1,
        timestamp: "2023-04-21 10:00:00".to_string(),
        timestamp_custom_time: None,
        style: ActivityStyle { border_color: None, custom_class: None },
        pupil_name: "Pupil Name".to_string(),
        lesson_name: None,
        teacher_name: "Teacher Name".to_string(),
        room_name: None,
        note: None,
        _can_delete: false,
        badges: None,
        detention_date: None,
        detention_time: None,
        detention_location: None,
        detention_type: None,
    }
}

fn range() -> FullActivityOptions {
    FullActivityOptions {
        from: Date { year: 2023, month: 8, day: 24 },
        to: Date { year: 2023, month: 9, day: 24 },
    }
}

#[test]
fn pagination_concatenates_pages_until_an_empty_one() {
    // Pages of sizes 3, 2 and 0: the walk returns the concatenation
    // of the first two and makes exactly three calls.
    let mut pager = ActivityPager::new();
    let options = range();

    assert_eq!(pager.next_options(&options).last_id, None);
    pager.feed_page(vec![point(1), point(2), point(3)]);
    assert!(!pager.finished);

    assert_eq!(pager.next_options(&options).last_id, Some("3".to_string()));
    pager.feed_page(vec![point(4), point(5)]);
    assert!(!pager.finished);

    // The third call pages on from the last entry of the second page.
    let third = pager.next_options(&options);
    assert_eq!(third.last_id, Some("5".to_string()));
    assert_eq!(third.from, Some(options.from));
    assert_eq!(third.to, Some(options.to));
    pager.feed_page(vec![]);

    assert!(pager.finished);
    assert_eq!(pager.calls, 3);
    let ids: Vec<usize> = pager.collected.iter().map(|p| p.id).collect();
    assert_eq!(ids, vec![1, 2, 3, 4, 5]);
}

#[test]
fn pagination_stops_on_an_empty_first_page() {
    let mut pager = ActivityPager::new();
    pager.feed_page(vec![]);
    assert!(pager.finished);
    assert_eq!(pager.calls, 1);
    assert!(pager.collected.is_empty());
    assert_eq!(pager.last_id, None);
}
