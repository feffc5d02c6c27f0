use chrono::TimeZone;
use vstd::prelude::*;

use crate::activities::{
    activities, activity_table, category_label, entry_of, Activity, ActivityCategory,
};
use crate::error::Error;
use crate::post::{PostBuilder, PostRow};
use crate::reconcile::CallOutcome;
use crate::text::{contains_text, lower_of, lowercase, has_part, same_text};

verus! {

broadcast use vstd::seq_lib::group_filter_ensures;

/// Longest description a post keeps, in characters.
pub const MAX_DESCRIPTION: usize = 1024;

/// Platform error code for a forum post that needs a classification tag.
pub const TAG_REQUIRED_CODE: i64 = 40067;

/// The format of a start time typed by a user.
pub const START_FORMAT: &'static str = "%Y-%m-%d %H:%M";

/// The same format as users are told it.
pub const START_FORMAT_HINT: &'static str = "YYYY-MM-DD HH:MM";

/// What `NaiveDateTime::parse_from_str` gives for a text and a format: the wall-clock
/// time it names, as seconds since the epoch read as UTC.
pub uninterp spec fn wall_clock_of(text: Seq<char>, format: Seq<char>) -> Option<int>;

/// The instant at which wall-clock time `wall` occurs in the time zone named `zone`,
/// when the zone is known and that time occurs there exactly once.
pub uninterp spec fn zone_instant_of(zone: Seq<char>, wall: int) -> Option<int>;

/// Relies on chrono's `NaiveDateTime::parse_from_str`: the parsed wall-clock time, read
/// as UTC seconds, or nothing when the text does not match the format.
#[verifier::external_body]
fn wall_clock(text: &str, format: &str) -> (r: Option<i64>)
    ensures
        match r {
            Some(v) => wall_clock_of(text@, format@) == Some(v as int),
            None => wall_clock_of(text@, format@) is None,
        },
{
    chrono::NaiveDateTime::parse_from_str(text, format).ok().map(|n| n.and_utc().timestamp())
}

/// Relies on chrono-tz's `Tz::from_str` and chrono's `TimeZone::from_local_datetime`
/// with `single`: the instant of a wall-clock time in a named zone, or nothing when
/// the name is unknown or the time is skipped or repeated there.
#[verifier::external_body]
fn zone_instant(zone: &str, wall: i64) -> (r: Option<i64>)
    ensures
        match r {
            Some(v) => zone_instant_of(zone@, wall as int) == Some(v as int),
            None => zone_instant_of(zone@, wall as int) is None,
        },
{
    let tz: chrono_tz::Tz = zone.parse().ok()?;
    let local = chrono::DateTime::from_timestamp(wall, 0)?.naive_utc();
    tz.from_local_datetime(&local).single().map(|d| d.timestamp())
}

/// The start instant that `text`, read in the user's time zone `zone`, names.
pub open spec fn start_of(zone: Seq<char>, text: Seq<char>) -> Option<int> {
    match wall_clock_of(text, START_FORMAT@) {
        Some(w) => zone_instant_of(zone, w),
        None => None,
    }
}

/// Reads a start time typed as `YYYY-MM-DD HH:MM` in the time zone named `zone`.
pub fn parse_start_time(zone: &str, text: &str) -> (r: Result<i64, Error>)
    ensures
        match r {
            Ok(v) => start_of(zone@, text@) == Some(v as int),
            Err(e) => start_of(zone@, text@) is None && (e matches Error::InvalidDateTime(hint)
                && hint@ == START_FORMAT_HINT@),
        },
{
    let t = match wall_clock(text, START_FORMAT) {
        Some(w) => zone_instant(zone, w),
        None => None,
    };
    match t {
        Some(v) => Ok(v),
        None => Err(Error::InvalidDateTime(String::from_str(START_FORMAT_HINT))),
    }
}

/// The guild settings that post creation needs.
pub struct GuildRow {
    /// The events channel, where posts are created.
    pub channel_id: i64,
    /// A thread that announcements of new posts are forwarded to, if any.
    pub scheduled_thread_id: Option<i64>,
}

impl GuildRow {
    pub fn channel_id(&self) -> (r: i64)
        ensures
            r == self.channel_id,
    {
        self.channel_id
    }

    pub fn scheduled_thread_id(&self) -> (r: Option<i64>)
        ensures
            r == self.scheduled_thread_id,
    {
        self.scheduled_thread_id
    }
}

/// A classification tag that the events channel offers.
pub struct ForumTag {
    pub id: i64,
    pub name: String,
}

/// The description a post keeps: the first `MAX_DESCRIPTION` characters of the one
/// given, or the activity when none is.
pub open spec fn description_of(given: Option<Seq<char>>, activity: Seq<char>) -> Seq<char> {
    match given {
        Some(d) => if d.len() <= MAX_DESCRIPTION { d } else { d.take(MAX_DESCRIPTION as int) },
        None => activity,
    }
}

/// `i` is the index of the first catalogue entry whose lower-cased name occurs in `text`.
pub open spec fn first_in(text: Seq<char>, i: int) -> bool {
    0 <= i < activity_table().len()
        && has_part(text, lower_of(activity_table()[i].0))
        && forall|j: int| 0 <= j < i ==> !has_part(text, lower_of(activity_table()[j].0))
}

/// The category of the first catalogue activity whose name occurs in `activity`,
/// ignoring case.
pub open spec fn category_of(activity: Seq<char>) -> Option<ActivityCategory> {
    let text = lower_of(activity);
    if exists|i: int| first_in(text, i) {
        Some(activity_table()[choose|i: int| first_in(text, i)].1)
    } else {
        None
    }
}

/// The lower-cased tag name that a post about `activity` should carry; empty when the
/// activity is in no category.
pub open spec fn wanted_tag(activity: Seq<char>) -> Seq<char> {
    match category_of(activity) {
        Some(c) => lower_of(category_label(c)),
        None => lower_of(Seq::<char>::empty()),
    }
}

/// The test "the tag's lower-cased name is `want`".
pub open spec fn tag_named(want: Seq<char>) -> spec_fn((i64, Seq<char>)) -> bool {
    |t: (i64, Seq<char>)| lower_of(t.1) == want
}

/// A tag as a value: id and name.
pub open spec fn tag_entry(t: ForumTag) -> (i64, Seq<char>) {
    (t.id, t.name@)
}

/// Post creation.
pub struct Create;

impl Create {
    /// The fireteam size typed into the form, refused when below one.
    pub fn fireteam_size(size: i16) -> (r: Result<i16, Error>)
        ensures
            r is Ok <==> size >= 1,
            r is Ok ==> r->Ok_0 == size,
            r is Err ==> r->Err_0 is InvalidFireteamSize,
    {
        if size < 1 {
            return Err(Error::InvalidFireteamSize);
        }
        Ok(size)
    }

    /// The description a new post keeps.
    pub fn description(given: Option<&str>, activity: &str) -> (r: String)
        ensures
            r@ == description_of(
                match given {
                    Some(d) => Some(d@),
                    None => None,
                },
                activity@,
            ),
    {
        match given {
            Some(d) => {
                let n = d.unicode_len();
                if n <= MAX_DESCRIPTION {
                    String::from_str(d)
                } else {
                    String::from_str(d.substring_char(0, MAX_DESCRIPTION))
                }
            },
            None => String::from_str(activity),
        }
    }

    /// The category of the first catalogue activity whose name occurs in `activity`,
    /// ignoring case.
    pub fn category_for(activity: &str) -> (r: Option<ActivityCategory>)
        ensures
            r == category_of(activity@),
    {
        let text = lowercase(activity);
        let acts = activities();
        let ghost tab = activity_table();
        let mut i: usize = 0;
        while i < acts.len()
            invariant
                acts@.map_values(|a: Activity| entry_of(a)) == tab,
                tab == activity_table(),
                text@ == lower_of(activity@),
                0 <= i <= acts@.len(),
                forall|j: int| 0 <= j < i ==> !has_part(text@, lower_of(tab[j].0)),
            decreases acts@.len() - i,
        {
            let a = acts[i];
            assert(tab[i as int] == entry_of(a));
            let name = lowercase(a.name);
            if contains_text(text.as_str(), name.as_str()) {
                proof {
                    assert(first_in(text@, i as int));
                    assert forall|k: int| first_in(text@, k) implies k == i by {
                        if k < i {
                        } else if k > i {
                            assert(!has_part(text@, lower_of(tab[i as int].0)));
                        }
                    }
                }
                return Some(a.category);
            }
            i = i + 1;
        }
        None
    }

    /// The ids of the offered tags that name the category of `activity`, ignoring case,
    /// in the order offered.
    pub fn tag_ids(activity: &str, available: &Vec<ForumTag>) -> (r: Vec<i64>)
        ensures
            r@ == available@.map_values(|t: ForumTag| tag_entry(t)).filter(tag_named(wanted_tag(activity@))).map_values(
                |t: (i64, Seq<char>)| t.0,
            ),
    {
        proof {
            reveal_strlit("");
            assert(""@ =~= Seq::<char>::empty());
        }
        let want = match Create::category_for(activity) {
            Some(c) => lowercase(c.label()),
            None => lowercase(""),
        };
        let ghost tags = available@.map_values(|t: ForumTag| tag_entry(t));
        let ghost p = tag_named(wanted_tag(activity@));
        let mut r: Vec<i64> = Vec::new();
        let mut i: usize = 0;
        while i < available.len()
            invariant
                tags == available@.map_values(|t: ForumTag| tag_entry(t)),
                p == tag_named(wanted_tag(activity@)),
                want@ == wanted_tag(activity@),
                0 <= i <= available@.len(),
                r@ == tags.subrange(0, i as int).filter(p).map_values(|t: (i64, Seq<char>)| t.0),
            decreases available@.len() - i,
        {
            let tag = &available[i];
            let name = lowercase(tag.name.as_str());
            let ghost before = r@;
            proof {
                assert(tags[i as int] == tag_entry(*tag));
                assert(tags.subrange(0, i + 1) == tags.subrange(0, i as int).push(tags[i as int]));
                tags.subrange(0, i as int).lemma_filter_push(tags[i as int], p);
            }
            if same_text(name.as_str(), want.as_str()) {
                r.push(tag.id);
                assert(r@ =~= before.push(tag.id));
            }
            assert(r@ =~= tags.subrange(0, i + 1).filter(p).map_values(|t: (i64, Seq<char>)| t.0));
            i = i + 1;
        }
        assert(tags.subrange(0, available@.len() as int) == tags);
        r
    }

    /// The error a failed thread creation is reported as: `TagRequired` when the
    /// platform asked for a tag; other failures have no error of their own.
    pub fn creation_error(outcome: &CallOutcome) -> (r: Option<Error>)
        ensures
            r is Some <==> *outcome == CallOutcome::Failed(Some(TAG_REQUIRED_CODE)),
            r is Some ==> r->Some_0 is TagRequired,
    {
        match outcome {
            CallOutcome::Failed(Some(code)) => if *code == TAG_REQUIRED_CODE {
                Some(Error::TagRequired)
            } else {
                None
            },
            _ => None,
        }
    }
}

/// Editing a post.
pub struct Edit;

impl Edit {
    /// The post with its activity, size, description and start replaced; its thread,
    /// owner, lists and mirror stay. The description is capped as on creation. A size
    /// below one, or below the number already on the roster, is refused.
    pub fn apply(
        row: PostRow,
        activity: String,
        fireteam_size: i16,
        description: Option<&str>,
        start_time: i64,
        timezone: String,
    ) -> (r: Result<PostRow, Error>)
        ensures
            r is Err <==> (fireteam_size < 1 || row.fireteam@.len() > fireteam_size as int),
            r is Err ==> r->Err_0 is InvalidFireteamSize,
            r matches Ok(e) ==> {
                &&& e.id == row.id
                &&& e.owner == row.owner
                &&& e.activity@ == activity@
                &&& e.fireteam_size == fireteam_size
                &&& e.description@ == description_of(
                    match description {
                        Some(d) => Some(d@),
                        None => None,
                    },
                    activity@,
                )
                &&& e.start_time == start_time
                &&& e.timezone@ == timezone@
                &&& e.fireteam@ == row.fireteam@
                &&& e.alternatives@ == row.alternatives@
                &&& e.alt_channel == row.alt_channel
                &&& e.alt_message == row.alt_message
            },
    {
        if fireteam_size < 1 || row.fireteam.len() > fireteam_size as usize {
            return Err(Error::InvalidFireteamSize);
        }
        let text = Create::description(description, activity.as_str());
        Ok(PostBuilder::from_row(row).activity(activity).fireteam_size(fireteam_size).description(
            text,
        ).start(start_time, timezone).build())
    }
}

} // verus!
