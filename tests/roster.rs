use lfg::{Error, PostBuilder, PostRow};

fn post(size: i16, fireteam: Vec<i64>, alternatives: Vec<i64>) -> PostRow {
    let mut row = PostBuilder::new(
        fireteam.first().copied().unwrap_or(1),
        String::from("Last Wish"),
        1_700_000_000,
        String::from("UTC"),
        String::from("Bring snacks"),
        size,
    )
    .id(42)
    .build();
    row.fireteam = fireteam;
    row.alternatives = alternatives;
    row
}

#[test]
fn join_appends_to_roster() {
    let mut row = post(3, vec![1], vec![]);
    assert!(row.join(2, false).is_ok());
    assert_eq!(row.fireteam, vec![1, 2]);
    assert!(row.alternatives.is_empty());
}

#[test]
fn join_as_alternate_appends_to_waiting_list() {
    let mut row = post(3, vec![1], vec![]);
    assert!(row.join(5, true).is_ok());
    assert_eq!(row.fireteam, vec![1]);
    assert_eq!(row.alternatives, vec![5]);
}

#[test]
fn join_rejected_when_full() {
    let mut row = post(3, vec![1, 2, 3], vec![]);
    let r = row.join(4, false);
    assert!(matches!(r, Err(Error::FireteamFull)));
    assert_eq!(row.fireteam, vec![1, 2, 3]);
    assert!(row.alternatives.is_empty());
}

#[test]
fn full_roster_still_takes_alternates() {
    let mut row = post(3, vec![1, 2, 3], vec![]);
    assert!(row.join(4, true).is_ok());
    assert_eq!(row.alternatives, vec![4]);
}

#[test]
fn duplicate_join_rejected() {
    let mut row = post(3, vec![1, 2], vec![7]);
    let r = row.join(2, false);
    assert!(matches!(r, Err(Error::AlreadyJoined)));
    assert_eq!(row.fireteam, vec![1, 2]);
    assert_eq!(row.alternatives, vec![7]);
}

#[test]
fn duplicate_alternate_join_rejected() {
    let mut row = post(3, vec![1], vec![7]);
    assert!(matches!(row.join(7, true), Err(Error::AlreadyJoined)));
    assert_eq!(row.alternatives, vec![7]);
}

#[test]
fn duplicate_check_precedes_capacity_check() {
    let mut row = post(2, vec![1, 2], vec![]);
    assert!(matches!(row.join(2, false), Err(Error::AlreadyJoined)));
}

#[test]
fn alternate_promoted_to_roster() {
    let mut row = post(3, vec![1], vec![7, 8]);
    assert!(row.join(7, false).is_ok());
    assert_eq!(row.fireteam, vec![1, 7]);
    assert_eq!(row.alternatives, vec![8]);
}

#[test]
fn promotion_refused_when_full() {
    let mut row = post(2, vec![1, 2], vec![7]);
    assert!(matches!(row.join(7, false), Err(Error::FireteamFull)));
    assert_eq!(row.fireteam, vec![1, 2]);
    assert_eq!(row.alternatives, vec![7]);
}

#[test]
fn member_moves_to_waiting_list() {
    let mut row = post(3, vec![1, 2], vec![]);
    assert!(row.join(2, true).is_ok());
    assert_eq!(row.fireteam, vec![1]);
    assert_eq!(row.alternatives, vec![2]);
}

#[test]
fn leave_removes_from_both_lists() {
    let mut row = post(3, vec![1, 2], vec![3]);
    row.leave(2);
    assert_eq!(row.fireteam, vec![1]);
    row.leave(3);
    assert!(row.alternatives.is_empty());
}

#[test]
fn leave_twice_same_as_once() {
    let mut once = post(3, vec![1, 2, 3], vec![4]);
    once.leave(2);
    let mut twice = post(3, vec![1, 2, 3], vec![4]);
    twice.leave(2);
    twice.leave(2);
    assert_eq!(once.fireteam, twice.fireteam);
    assert_eq!(once.alternatives, twice.alternatives);
}

#[test]
fn owner_may_leave() {
    let mut row = post(3, vec![1, 2], vec![]);
    row.leave(1);
    assert_eq!(row.fireteam, vec![2]);
    assert_eq!(row.owner, 1);
}

#[test]
fn kick_absent_user_changes_nothing() {
    let mut row = post(3, vec![1, 2], vec![3]);
    assert!(!row.kick(9));
    assert_eq!(row.fireteam, vec![1, 2]);
    assert_eq!(row.alternatives, vec![3]);
}

#[test]
fn kick_present_user_removes_them() {
    let mut row = post(3, vec![1, 2], vec![3]);
    assert!(row.kick(3));
    assert!(row.alternatives.is_empty());
    assert!(row.kick(2));
    assert_eq!(row.fireteam, vec![1]);
}

#[test]
fn is_full_and_contains() {
    let row = post(2, vec![1, 2], vec![3]);
    assert!(row.is_full());
    assert!(row.contains(3));
    assert!(!row.contains(4));
    let row = post(3, vec![1, 2], vec![]);
    assert!(!row.is_full());
}

#[test]
fn operation_sequence_keeps_invariants() {
    let mut row = post(3, vec![1], vec![]);
    let _ = row.join(2, false);
    let _ = row.join(3, true);
    let _ = row.join(3, false);
    let _ = row.join(4, false);
    let _ = row.join(5, true);
    let _ = row.join(5, false);
    row.leave(2);
    let _ = row.join(5, false);
    let _ = row.kick(1);
    let _ = row.join(2, true);
    let _ = row.join(6, false);
    let _ = row.join(7, false);
    assert!(row.fireteam.len() <= 3);
    for u in &row.fireteam {
        assert!(!row.alternatives.contains(u));
    }
    assert_eq!(row.fireteam, vec![3, 5, 6]);
    assert_eq!(row.alternatives, vec![2]);
}

#[test]
fn builder_starts_with_owner_only() {
    let row = PostBuilder::new(
        9,
        String::from("Raid"),
        100,
        String::from("Europe/Paris"),
        String::from("d"),
        6,
    )
    .build();
    assert_eq!(row.id, 0);
    assert_eq!(row.owner, 9);
    assert_eq!(row.fireteam, vec![9]);
    assert!(row.alternatives.is_empty());
    assert_eq!(row.alt_channel, None);
    assert_eq!(row.timezone, "Europe/Paris");
}

#[test]
fn builder_setters() {
    let row = PostBuilder::new(9, String::from("a"), 1, String::from("UTC"), String::from("d"), 3)
        .id(77)
        .activity(String::from("b"))
        .fireteam_size(6)
        .description(String::from("e"))
        .start(500, String::from("Asia/Tokyo"))
        .alt_channel(11)
        .alt_message(12)
        .build();
    assert_eq!(row.id, 77);
    assert_eq!(row.activity, "b");
    assert_eq!(row.fireteam_size, 6);
    assert_eq!(row.description, "e");
    assert_eq!(row.start_time, 500);
    assert_eq!(row.timezone, "Asia/Tokyo");
    assert_eq!(row.alt_channel, Some(11));
    assert_eq!(row.alt_message, Some(12));
}
