use lfg::reconcile::{
    after_step, first_step, Progress, close_followup, created_seconds, plan_delete, plan_post, plan_thread, sweep_candidates, tolerates, Action,
    CallOutcome, ThreadInfo, UNKNOWN_CHANNEL, UNKNOWN_MESSAGE,
};
use lfg::reminders::{DAY, HOUR, MINUTE};
use lfg::{PostBuilder, PostRow};

const NOW: i64 = 1_700_000_000;

fn record(id: i64, start: i64, mirror: Option<(i64, i64)>) -> PostRow {
    let b = PostBuilder::new(1, String::from("Raid"), start, String::from("UTC"), String::from(""), 6).id(id);
    match mirror {
        Some((c, m)) => b.alt_channel(c).alt_message(m).build(),
        None => b.build(),
    }
}

fn thread(id: i64, idle: i64) -> ThreadInfo {
    ThreadInfo { id, parent: Some(10), last_activity: NOW - idle }
}

#[test]
fn purged_thread_gets_no_reminders() {
    let post = record(7, NOW + 2 * DAY, None);
    let plan = plan_thread(NOW, thread(7, 40 * DAY), Some(&post));
    assert_eq!(plan, vec![Action::DeleteThread(7)]);
    assert!(!plan.iter().any(|a| matches!(a, Action::RegisterReminders(_))));
}

#[test]
fn purge_does_not_need_a_record() {
    assert_eq!(plan_thread(NOW, thread(7, 31 * DAY), None), vec![Action::DeleteThread(7)]);
}

#[test]
fn stale_thread_archived_then_post_steps() {
    let post = record(7, NOW + 2 * DAY, None);
    let plan = plan_thread(NOW, thread(7, 8 * DAY), Some(&post));
    assert_eq!(plan, vec![Action::ArchiveThread(7), Action::RegisterReminders(7)]);
}

#[test]
fn thread_without_record_only_archived() {
    assert_eq!(plan_thread(NOW, thread(7, 8 * DAY), None), vec![Action::ArchiveThread(7)]);
    assert!(plan_thread(NOW, thread(7, DAY), None).is_empty());
}

#[test]
fn imminent_event_gets_reminders_then_lock() {
    let post = record(7, NOW + HOUR, None);
    let plan = plan_thread(NOW, thread(7, MINUTE), Some(&post));
    assert_eq!(plan, vec![Action::RegisterReminders(7), Action::ArchiveThread(7)]);
}

#[test]
fn past_event_drops_mirror_and_locks() {
    let post = record(7, NOW - HOUR, Some((20, 21)));
    let plan = plan_post(NOW, &post);
    assert_eq!(plan, vec![Action::DeleteMessage(20, 21), Action::ArchiveThread(7)]);
}

#[test]
fn future_event_keeps_mirror() {
    let post = record(7, NOW + 3 * DAY, Some((20, 21)));
    assert_eq!(plan_post(NOW, &post), vec![Action::RegisterReminders(7)]);
}

#[test]
fn event_exactly_two_hours_ahead_is_not_locked() {
    let post = record(7, NOW + 2 * HOUR, None);
    assert_eq!(plan_post(NOW, &post), vec![Action::RegisterReminders(7)]);
}

#[test]
fn delete_with_missing_thread_still_removes_record() {
    let post = record(7, NOW, Some((20, 21)));
    let plan = plan_delete(Some(&post));
    assert_eq!(
        plan,
        vec![Action::DeleteThread(7), Action::DeleteMessage(20, 21), Action::RemoveRecord(7)]
    );
    assert!(tolerates(&plan[0], &CallOutcome::Failed(Some(UNKNOWN_CHANNEL))));
    assert!(tolerates(&plan[1], &CallOutcome::Done));
    assert_eq!(plan[2], Action::RemoveRecord(7));
}

#[test]
fn delete_without_record_does_nothing() {
    assert!(plan_delete(None).is_empty());
    let post = record(7, NOW, None);
    assert_eq!(plan_delete(Some(&post)), vec![Action::DeleteThread(7), Action::RemoveRecord(7)]);
}

#[test]
fn tolerance_by_error_class() {
    let gone_channel = CallOutcome::Failed(Some(UNKNOWN_CHANNEL));
    let gone_message = CallOutcome::Failed(Some(UNKNOWN_MESSAGE));
    assert!(tolerates(&Action::ArchiveThread(1), &gone_channel));
    assert!(!tolerates(&Action::ArchiveThread(1), &gone_message));
    assert!(tolerates(&Action::DeleteMessage(1, 2), &gone_message));
    assert!(!tolerates(&Action::DeleteMessage(1, 2), &gone_channel));
    assert!(!tolerates(&Action::DeleteThread(1), &CallOutcome::Failed(Some(50013))));
    assert!(!tolerates(&Action::DeleteThread(1), &CallOutcome::Failed(None)));
    assert!(!tolerates(&Action::RemoveRecord(1), &gone_channel));
    assert!(tolerates(&Action::RemoveRecord(1), &CallOutcome::Done));
}

#[test]
fn candidates_keep_own_channel_then_archived() {
    let active = vec![
        ThreadInfo { id: 1, parent: Some(10), last_activity: 0 },
        ThreadInfo { id: 2, parent: Some(11), last_activity: 0 },
        ThreadInfo { id: 3, parent: None, last_activity: 0 },
        ThreadInfo { id: 4, parent: Some(10), last_activity: 0 },
    ];
    let archived = vec![ThreadInfo { id: 5, parent: Some(10), last_activity: 0 }];
    let ids: Vec<i64> = sweep_candidates(10, &active, &archived).iter().map(|t| t.id).collect();
    assert_eq!(ids, vec![1, 4, 5]);
}

#[test]
fn identifier_creation_time() {
    assert_eq!(created_seconds(175928847299117063), 1462015105);
    assert_eq!(created_seconds(0), 1420070400);
}

#[test]
fn closing_failure_removes_record() {
    assert_eq!(close_followup(7, &CallOutcome::Done), None);
    assert_eq!(close_followup(7, &CallOutcome::Failed(Some(UNKNOWN_CHANNEL))), Some(Action::RemoveRecord(7)));
    assert_eq!(close_followup(7, &CallOutcome::Failed(None)), Some(Action::RemoveRecord(7)));
}

#[test]
fn purged_thread_still_cleans_up_past_post() {
    let post = record(7, NOW - HOUR, Some((20, 21)));
    let plan = plan_thread(NOW, thread(7, 40 * DAY), Some(&post));
    assert_eq!(
        plan,
        vec![Action::DeleteThread(7), Action::DeleteMessage(20, 21), Action::ArchiveThread(7)]
    );
}

#[test]
fn purged_thread_locks_imminent_post_without_reminders() {
    let post = record(7, NOW + HOUR, Some((20, 21)));
    let plan = plan_thread(NOW, thread(7, 40 * DAY), Some(&post));
    assert_eq!(plan, vec![Action::DeleteThread(7), Action::ArchiveThread(7)]);
}

#[test]
fn plan_run_stops_at_first_untolerated_step() {
    let plan = vec![Action::DeleteThread(7), Action::DeleteMessage(1, 2), Action::RemoveRecord(7)];
    assert_eq!(first_step(&plan), Progress::Next(0));
    assert_eq!(first_step(&vec![]), Progress::Finished);
    assert_eq!(after_step(&plan, 0, &CallOutcome::Failed(Some(UNKNOWN_CHANNEL))), Progress::Next(1));
    assert_eq!(after_step(&plan, 1, &CallOutcome::Failed(Some(UNKNOWN_CHANNEL))), Progress::Stopped);
    assert_eq!(after_step(&plan, 1, &CallOutcome::Failed(Some(UNKNOWN_MESSAGE))), Progress::Next(2));
    assert_eq!(after_step(&plan, 2, &CallOutcome::Done), Progress::Finished);
    assert_eq!(after_step(&plan, 2, &CallOutcome::Failed(None)), Progress::Stopped);
    assert_eq!(after_step(&plan, 9, &CallOutcome::Done), Progress::Finished);
}
