use lfg::reminders::{reminder_instants, reminder_recipients, ReminderSchedule, DAY, HOUR, MINUTE};
use lfg::PostBuilder;

const NOW: i64 = 1_700_000_000;

#[test]
fn far_event_gets_three_reminders() {
    let start = NOW + 10 * DAY;
    assert_eq!(
        reminder_instants(start, NOW),
        vec![start - 7 * DAY, start - 24 * HOUR, start - 30 * MINUTE]
    );
}

#[test]
fn event_in_two_days_skips_week_reminder() {
    let start = NOW + 2 * DAY;
    assert_eq!(reminder_instants(start, NOW), vec![start - DAY, start - 30 * MINUTE]);
}

#[test]
fn event_in_ten_minutes_gets_no_reminder() {
    assert!(reminder_instants(NOW + 10 * MINUTE, NOW).is_empty());
}

#[test]
fn event_in_forty_minutes_gets_half_hour_reminder_only() {
    let start = NOW + 40 * MINUTE;
    assert_eq!(reminder_instants(start, NOW), vec![NOW + 10 * MINUTE]);
}

#[test]
fn reminder_at_now_is_skipped() {
    assert!(reminder_instants(NOW + 30 * MINUTE, NOW).is_empty());
}

#[test]
fn extreme_start_does_not_overflow() {
    assert!(reminder_instants(i64::MIN + 5, NOW).is_empty());
    assert_eq!(reminder_instants(i64::MAX, NOW).len(), 3);
}

#[test]
fn registration_is_idempotent() {
    let mut s = ReminderSchedule::new();
    assert!(s.register(1, 100));
    assert!(!s.register(1, 100));
    assert!(s.register(2, 100));
    assert_eq!(s.len(), 2);
    assert!(s.has(1, 100));
    assert!(!s.has(1, 101));
}

#[test]
fn register_post_twice_adds_nothing_new() {
    let post = PostBuilder::new(1, String::from("x"), NOW + 3 * DAY, String::from("UTC"), String::from(""), 3)
        .id(5)
        .build();
    let mut s = ReminderSchedule::new();
    s.register_post(&post, NOW);
    assert_eq!(s.len(), 2);
    s.register_post(&post, NOW);
    assert_eq!(s.len(), 2);
    s.register_post(&post, NOW + 1);
    assert_eq!(s.len(), 2);
    assert!(s.has(5, NOW + 2 * DAY));
    assert!(s.has(5, NOW + 3 * DAY - 30 * MINUTE));
}

#[test]
fn take_due_splits_by_time() {
    let mut s = ReminderSchedule::new();
    s.register(1, 50);
    s.register(2, 150);
    s.register(3, 100);
    let due = s.take_due(100);
    assert_eq!(due.len(), 2);
    assert_eq!((due[0].post_id, due[0].fire_at), (1, 50));
    assert_eq!((due[1].post_id, due[1].fire_at), (3, 100));
    assert_eq!(s.len(), 1);
    assert!(s.has(2, 150));
    assert!(s.take_due(100).is_empty());
}

#[test]
fn recipients_are_roster_only() {
    let mut post = PostBuilder::new(1, String::from("x"), NOW, String::from("UTC"), String::from(""), 3).build();
    post.fireteam = vec![1, 2];
    post.alternatives = vec![3];
    assert_eq!(reminder_recipients(Some(&post)), vec![1, 2]);
    assert!(reminder_recipients(None).is_empty());
}
