use lfg::activities::ActivityCategory;
use lfg::modals::{parse_start_time, Create, Edit, ForumTag, GuildRow, TAG_REQUIRED_CODE};
use lfg::reconcile::CallOutcome;
use lfg::{Error, PostBuilder};

fn tag(id: i64, name: &str) -> ForumTag {
    ForumTag { id, name: String::from(name) }
}

#[test]
fn description_defaults_to_activity() {
    assert_eq!(Create::description(None, "Last Wish"), "Last Wish");
    assert_eq!(Create::description(Some("hi"), "Last Wish"), "hi");
}

#[test]
fn description_capped_in_characters() {
    let long: String = std::iter::repeat('é').take(1500).collect();
    let d = Create::description(Some(long.as_str()), "x");
    assert_eq!(d.chars().count(), 1024);
    let exact: String = std::iter::repeat('a').take(1024).collect();
    assert_eq!(Create::description(Some(exact.as_str()), "x"), exact);
}

#[test]
fn category_found_ignoring_case() {
    assert_eq!(Create::category_for("LAST WISH tonight"), Some(ActivityCategory::Raid));
    assert_eq!(Create::category_for("weekly grandmaster"), Some(ActivityCategory::Vanguard));
    assert_eq!(Create::category_for("gambit"), None);
}

#[test]
fn first_catalogue_match_wins() {
    assert_eq!(Create::category_for("Duality or Last Wish"), Some(ActivityCategory::Raid));
}

#[test]
fn tags_for_activity() {
    let tags = vec![tag(1, "Dungeon"), tag(2, "raid"), tag(3, "RAID"), tag(4, "PvP")];
    assert_eq!(Create::tag_ids("Vault of Glass", &tags), vec![2, 3]);
    assert_eq!(Create::tag_ids("Iron Banner", &tags), vec![4]);
    assert!(Create::tag_ids("gambit", &tags).is_empty());
    assert_eq!(Create::tag_ids("gambit", &vec![tag(9, "")]), vec![9]);
}

#[test]
fn tag_required_reported() {
    assert!(matches!(
        Create::creation_error(&CallOutcome::Failed(Some(TAG_REQUIRED_CODE))),
        Some(Error::TagRequired)
    ));
    assert!(Create::creation_error(&CallOutcome::Failed(Some(10003))).is_none());
    assert!(Create::creation_error(&CallOutcome::Done).is_none());
}

#[test]
fn start_time_in_utc() {
    assert_eq!(parse_start_time("UTC", "2024-01-02 03:04").unwrap(), 1704164640);
}

#[test]
fn start_time_in_local_zone() {
    assert_eq!(parse_start_time("Europe/London", "2024-07-01 12:00").unwrap(), 1719831600);
}

#[test]
fn start_time_bad_format() {
    match parse_start_time("UTC", "tomorrow") {
        Err(Error::InvalidDateTime(hint)) => assert_eq!(hint, "YYYY-MM-DD HH:MM"),
        _ => panic!("expected InvalidDateTime"),
    }
}

#[test]
fn start_time_unknown_zone() {
    assert!(matches!(
        parse_start_time("Mars/Olympus", "2024-01-02 03:04"),
        Err(Error::InvalidDateTime(_))
    ));
}

#[test]
fn start_time_skipped_by_clock_change() {
    assert!(matches!(
        parse_start_time("Europe/London", "2024-03-31 01:30"),
        Err(Error::InvalidDateTime(_))
    ));
}

#[test]
fn edit_keeps_roster_and_owner() {
    let mut row = PostBuilder::new(1, String::from("a"), 10, String::from("UTC"), String::from("d"), 3)
        .id(5)
        .alt_channel(8)
        .alt_message(9)
        .build();
    row.fireteam = vec![1, 2];
    row.alternatives = vec![3];
    let e = Edit::apply(row, String::from("b"), 6, Some("e"), 20, String::from("Asia/Tokyo")).unwrap();
    assert_eq!((e.id, e.owner), (5, 1));
    assert_eq!(e.fireteam, vec![1, 2]);
    assert_eq!(e.alternatives, vec![3]);
    assert_eq!(e.activity, "b");
    assert_eq!(e.fireteam_size, 6);
    assert_eq!(e.description, "e");
    assert_eq!((e.start_time, e.timezone.as_str()), (20, "Asia/Tokyo"));
    assert_eq!((e.alt_channel, e.alt_message), (Some(8), Some(9)));
}

#[test]
fn guild_row_getters() {
    let g = GuildRow { channel_id: 4, scheduled_thread_id: None };
    assert_eq!(g.channel_id(), 4);
    assert_eq!(g.scheduled_thread_id(), None);
}

fn small_post() -> lfg::PostRow {
    let mut row = PostBuilder::new(1, String::from("a"), 10, String::from("UTC"), String::from("d"), 3).id(5).build();
    row.fireteam = vec![1, 2];
    row
}

#[test]
fn edit_caps_description() {
    let long: String = std::iter::repeat('x').take(2000).collect();
    let e = Edit::apply(small_post(), String::from("b"), 3, Some(long.as_str()), 20, String::from("UTC")).unwrap();
    assert_eq!(e.description.chars().count(), 1024);
    let e = Edit::apply(small_post(), String::from("b"), 3, None, 20, String::from("UTC")).unwrap();
    assert_eq!(e.description, "b");
}

#[test]
fn edit_refuses_bad_size() {
    assert!(matches!(
        Edit::apply(small_post(), String::from("b"), 0, None, 20, String::from("UTC")),
        Err(Error::InvalidFireteamSize)
    ));
    assert!(matches!(
        Edit::apply(small_post(), String::from("b"), 1, None, 20, String::from("UTC")),
        Err(Error::InvalidFireteamSize)
    ));
    assert!(Edit::apply(small_post(), String::from("b"), 2, None, 20, String::from("UTC")).is_ok());
}

#[test]
fn creation_size_must_be_positive() {
    assert_eq!(Create::fireteam_size(6).unwrap(), 6);
    assert!(matches!(Create::fireteam_size(0), Err(Error::InvalidFireteamSize)));
    assert!(matches!(Create::fireteam_size(-3), Err(Error::InvalidFireteamSize)));
}
