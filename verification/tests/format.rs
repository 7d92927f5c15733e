use at_peek::format::{
    calculate_duration, describe_duration, format_timestamp, formatted_or_raw, shorten_did,
};
use at_peek::progress::{should_report, Milestone};

#[test]
fn long_identifiers_are_cut_short() {
    assert_eq!(shorten_did("did:plc:abcdefghijklmnopqrstuvwx"), "did:plc:abcd...tuvwx");
    assert_eq!(shorten_did("did:plc:0123456789abc"), "did:plc:0123...89abc");
}

#[test]
fn short_identifiers_stay() {
    assert_eq!(shorten_did("did:plc:0123456789ab"), "did:plc:0123456789ab");
    assert_eq!(shorten_did("did:plc:abc"), "did:plc:abc");
    assert_eq!(shorten_did(""), "");
}

#[test]
fn times_are_written_to_the_minute() {
    assert_eq!(format_timestamp("2024-03-05T14:07:59Z"), "2024-03-05 14:07 UTC");
    assert_eq!(format_timestamp("2024-03-05T14:07:59.123+00:00"), "2024-03-05 14:07 UTC");
    assert_eq!(format_timestamp("2024-12-31T23:59:00+02:00"), "2024-12-31 23:59 UTC");
}

#[test]
fn what_is_no_time_stays_as_it_came() {
    assert_eq!(format_timestamp("yesterday"), "yesterday");
    assert_eq!(format_timestamp(""), "");
    assert_eq!(format_timestamp("2024-03-05"), "2024-03-05");
    assert_eq!(formatted_or_raw(None, "raw"), "raw");
    assert_eq!(formatted_or_raw(Some("nice".to_string()), "raw"), "nice");
}

#[test]
fn spans_in_days_and_hours() {
    assert_eq!(describe_duration(86400), "1 day");
    assert_eq!(describe_duration(86400 + 3600), "1 day, 1 hour");
    assert_eq!(describe_duration(2 * 86400 + 5 * 3600 + 59), "2 days, 5 hours");
    assert_eq!(describe_duration(3 * 86400 + 59 * 60), "3 days");
}

#[test]
fn spans_in_hours_and_minutes() {
    assert_eq!(describe_duration(3600), "1 hour");
    assert_eq!(describe_duration(2 * 3600 + 1), "2 hours");
    assert_eq!(describe_duration(3600 + 60), "1 hour, 1 min");
    assert_eq!(describe_duration(23 * 3600 + 59 * 60 + 59), "23 hours, 59 min");
}

#[test]
fn spans_in_minutes_and_seconds() {
    assert_eq!(describe_duration(60), "1 min, 0 sec");
    assert_eq!(describe_duration(125), "2 min, 5 sec");
    assert_eq!(describe_duration(59), "59 sec");
    assert_eq!(describe_duration(0), "0 sec");
}

#[test]
fn spans_backwards_are_written_in_seconds() {
    assert_eq!(describe_duration(-5), "-5 sec");
    assert_eq!(describe_duration(-60), "0 sec");
    assert_eq!(describe_duration(-125), "-5 sec");
    assert_eq!(describe_duration(-86400 * 3 - 7), "-7 sec");
    assert_eq!(describe_duration(i64::MIN), "-8 sec");
    assert_eq!(describe_duration(i64::MAX), "106751991167300 days, 15 hours");
}

#[test]
fn spans_between_two_times() {
    assert_eq!(calculate_duration("2024-01-01T00:00:00Z", "2024-01-02T01:00:00Z"), "1 day, 1 hour");
    assert_eq!(calculate_duration("2024-01-01T00:00:00Z", "2024-01-01T00:02:05Z"), "2 min, 5 sec");
    assert_eq!(
        calculate_duration("2024-01-01T00:00:00+01:00", "2024-01-01T00:00:00Z"),
        "1 hour"
    );
    assert_eq!(calculate_duration("2024-01-01T00:00:05Z", "2024-01-01T00:00:00Z"), "-5 sec");
    assert_eq!(calculate_duration("2024-01-01T00:00:00.900Z", "2024-01-01T00:00:01.100Z"), "0 sec");
}

#[test]
fn spans_of_what_is_no_time_are_unknown() {
    assert_eq!(calculate_duration("", "2024-01-01T00:00:00Z"), "Unknown");
    assert_eq!(calculate_duration("2024-01-01T00:00:00Z", "soon"), "Unknown");
    assert_eq!(calculate_duration("a", "b"), "Unknown");
}

#[test]
fn milestones_report_their_percentages() {
    assert_eq!(Milestone::ResolvingHandle.percent(), 5);
    assert_eq!(Milestone::FetchingPosts.percent(), 15);
    assert_eq!(Milestone::PostsFetched { count: 40 }.percent(), 20);
    assert_eq!(Milestone::AccountLabels.percent(), 25);
    assert_eq!(Milestone::Batch { index: 0, total: 4 }.percent(), 30);
    assert_eq!(Milestone::Batch { index: 1, total: 4 }.percent(), 43);
    assert_eq!(Milestone::Batch { index: 3, total: 4 }.percent(), 71);
    assert_eq!(Milestone::Batch { index: 39, total: 40 }.percent(), 83);
    assert_eq!(Milestone::Analyzing.percent(), 90);
    assert_eq!(Milestone::Processing { done: 100, total: 1000 }.percent(), 90);
    assert_eq!(Milestone::Processing { done: 500, total: 1000 }.percent(), 94);
    assert_eq!(Milestone::Processing { done: 1000, total: 1000 }.percent(), 99);
    assert_eq!(Milestone::Complete.percent(), 100);
}

#[test]
fn milestones_with_counts_that_do_not_fit() {
    assert_eq!(Milestone::Batch { index: 4, total: 4 }.percent(), 85);
    assert_eq!(Milestone::Batch { index: 0, total: 0 }.percent(), 85);
    assert_eq!(Milestone::Processing { done: 5, total: 0 }.percent(), 99);
    assert_eq!(Milestone::Processing { done: 5, total: 4 }.percent(), 99);
    assert_eq!(Milestone::Batch { index: usize::MAX - 1, total: usize::MAX }.percent(), 84);
}

#[test]
fn percentages_never_fall_in_the_course_of_an_analysis() {
    let mut course = vec![
        Milestone::ResolvingHandle,
        Milestone::FetchingPosts,
        Milestone::PostsFetched { count: 230 },
        Milestone::AccountLabels,
    ];
    for index in 0..10 {
        course.push(Milestone::Batch { index, total: 10 });
    }
    course.push(Milestone::Analyzing);
    for done in [100, 200, 230] {
        course.push(Milestone::Processing { done, total: 230 });
    }
    course.push(Milestone::Complete);
    let mut last = 0;
    for milestone in course {
        let percent = milestone.percent();
        assert!(percent >= last);
        assert!(percent <= 100);
        last = percent;
    }
    assert_eq!(last, 100);
}

#[test]
fn milestones_tell_the_reader() {
    assert_eq!(Milestone::ResolvingHandle.message(), "Resolving handle...");
    assert_eq!(Milestone::FetchingPosts.message(), "Fetching posts from PDS...");
    assert_eq!(
        Milestone::PostsFetched { count: 230 }.message(),
        "Fetched 230 posts, querying labels..."
    );
    assert_eq!(Milestone::AccountLabels.message(), "Checking account-level labels...");
    assert_eq!(
        Milestone::Batch { index: 0, total: 10 }.message(),
        "Querying mod.bsky.app: batch 1/10..."
    );
    assert_eq!(
        Milestone::Batch { index: 9, total: 10 }.message(),
        "Querying mod.bsky.app: batch 10/10..."
    );
    assert_eq!(Milestone::Analyzing.message(), "Analyzing results...");
    assert_eq!(
        Milestone::Processing { done: 100, total: 230 }.message(),
        "Processing posts (100/230)..."
    );
    assert_eq!(Milestone::Complete.message(), "Analysis complete!");
}

#[test]
fn the_looking_at_posts_reports_every_hundredth_and_the_last() {
    assert!(should_report(100, 230));
    assert!(should_report(200, 230));
    assert!(should_report(230, 230));
    assert!(!should_report(1, 230));
    assert!(!should_report(99, 230));
    assert!(!should_report(229, 230));
    assert!(should_report(7, 7));
}
