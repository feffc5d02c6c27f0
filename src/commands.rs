use vstd::prelude::*;

use crate::activities::{activities, activity_table, entry_of, Activity, ActivityEntry};
use crate::modals::ForumTag;
use crate::post::holds;
use crate::text::{contains_text, has_part, lower_of, lowercase, same_text};

verus! {

broadcast use vstd::seq_lib::group_filter_ensures;

/// Fireteam size of an activity that is not in the catalogue.
pub const DEFAULT_FIRETEAM_SIZE: i16 = 3;

/// Most choices that autocompletion offers.
pub const MAX_CHOICES: usize = 25;

/// The slash-command side of the engine.
pub struct Command;

/// The test "the lower-cased name contains the lower-cased query".
pub open spec fn choice_matches(q: Seq<char>) -> spec_fn(ActivityEntry) -> bool {
    |e: ActivityEntry| has_part(lower_of(e.0), lower_of(q))
}

/// The activity names offered for the query `q`: catalogue order, at most
/// `MAX_CHOICES` of them.
pub open spec fn choice_list(q: Seq<char>) -> Seq<Seq<char>> {
    let m = activity_table().filter(choice_matches(q));
    m.take(if m.len() < MAX_CHOICES { m.len() as int } else { MAX_CHOICES as int }).map_values(
        |e: ActivityEntry| e.0,
    )
}

/// A post listed for a user, with the roster it has.
pub struct JoinedRow {
    pub id: i64,
    pub activity: String,
    /// Start instant, in seconds since the Unix epoch.
    pub timestamp: i64,
    pub fireteam: Vec<i64>,
}

impl JoinedRow {
    /// The thread of the post.
    pub fn channel_id(&self) -> (r: i64)
        ensures
            r == self.id,
    {
        self.id
    }

    pub fn activity(&self) -> (r: &str)
        ensures
            r@ == self.activity@,
    {
        self.activity.as_str()
    }

    pub fn timestamp(&self) -> (r: i64)
        ensures
            r == self.timestamp,
    {
        self.timestamp
    }

    pub fn fireteam(&self) -> (r: &Vec<i64>)
        ensures
            r@ == self.fireteam@,
    {
        &self.fireteam
    }
}

/// The test "`user` is on the roster of the row".
pub open spec fn on_roster(user: i64) -> spec_fn(JoinedRow) -> bool {
    |r: JoinedRow| r.fireteam@.contains(user)
}

/// The test "`user` is not on the roster of the row".
pub open spec fn off_roster(user: i64) -> spec_fn(JoinedRow) -> bool {
    |r: JoinedRow| !r.fireteam@.contains(user)
}

/// The test "the tag is applied (when `applied_wanted`) or not applied (otherwise)".
pub open spec fn tag_offer(applied: Seq<i64>, applied_wanted: bool) -> spec_fn(ForumTag) -> bool {
    |t: ForumTag| applied.contains(t.id) == applied_wanted
}

impl Command {
    /// The offered tags a menu lists: those not yet applied when adding, those applied
    /// when removing; in the order offered.
    pub fn tag_choices(offered: &Vec<ForumTag>, applied: &Vec<i64>, adding: bool) -> (r: Vec<i64>)
        ensures
            r@ == offered@.filter(tag_offer(applied@, !adding)).map_values(|t: ForumTag| t.id),
    {
        let ghost p = tag_offer(applied@, !adding);
        let mut r: Vec<i64> = Vec::new();
        let mut i: usize = 0;
        while i < offered.len()
            invariant
                p == tag_offer(applied@, !adding),
                0 <= i <= offered@.len(),
                r@ == offered@.subrange(0, i as int).filter(p).map_values(|t: ForumTag| t.id),
            decreases offered@.len() - i,
        {
            let t = &offered[i];
            let ghost before = r@;
            proof {
                assert(offered@.subrange(0, i + 1) == offered@.subrange(0, i as int).push(*t));
                offered@.subrange(0, i as int).lemma_filter_push(*t, p);
            }
            if holds(applied, t.id) != adding {
                r.push(t.id);
            }
            assert(r@ =~= offered@.subrange(0, i + 1).filter(p).map_values(|t: ForumTag| t.id));
            i = i + 1;
        }
        assert(offered@.subrange(0, offered@.len() as int) == offered@);
        r
    }

    /// The fireteam size of the first catalogue activity named exactly `activity`, or
    /// the default size when none is.
    pub fn fireteam_size_for(activity: &str) -> (r: i16)
        ensures
            (exists|i: int| 0 <= i < activity_table().len()
                && activity_table()[i].0 == activity@
                && r == activity_table()[i].2
                && forall|j: int| 0 <= j < i ==> activity_table()[j].0 != activity@)
            || ((forall|i: int| 0 <= i < activity_table().len() ==> activity_table()[i].0 != activity@)
                && r == DEFAULT_FIRETEAM_SIZE),
    {
        let acts = activities();
        let ghost view = acts@.map_values(|a: Activity| entry_of(a));
        let mut i: usize = 0;
        while i < acts.len()
            invariant
                view == acts@.map_values(|a: Activity| entry_of(a)),
                view == activity_table(),
                0 <= i <= acts@.len(),
                forall|j: int| 0 <= j < i ==> activity_table()[j].0 != activity@,
            decreases acts@.len() - i,
        {
            let a = acts[i];
            assert(view[i as int] == entry_of(a));
            if same_text(a.name, activity) {
                return a.fireteam_size;
            }
            i = i + 1;
        }
        DEFAULT_FIRETEAM_SIZE
    }

    /// The catalogue names that contain `query`, ignoring case, in catalogue order and
    /// at most `MAX_CHOICES` of them.
    pub fn activity_choices(query: &str) -> (r: Vec<&'static str>)
        ensures
            r@.map_values(|s: &'static str| s@) == choice_list(query@),
    {
        let acts = activities();
        let q = lowercase(query);
        let ghost tab = activity_table();
        let ghost p = choice_matches(query@);
        let mut r: Vec<&'static str> = Vec::new();
        let mut i: usize = 0;
        while i < acts.len() && r.len() < MAX_CHOICES
            invariant
                acts@.map_values(|a: Activity| entry_of(a)) == tab,
                tab == activity_table(),
                p == choice_matches(query@),
                q@ == lower_of(query@),
                0 <= i <= acts@.len(),
                r@.len() <= MAX_CHOICES,
                r@.map_values(|s: &'static str| s@) == tab.subrange(0, i as int).filter(p).map_values(
                    |e: ActivityEntry| e.0,
                ),
            decreases acts@.len() - i,
        {
            let a = acts[i];
            let name = lowercase(a.name);
            let ghost before = r@;
            proof {
                assert(tab[i as int] == entry_of(a));
                assert(tab.subrange(0, i + 1) == tab.subrange(0, i as int).push(tab[i as int]));
                tab.subrange(0, i as int).lemma_filter_push(tab[i as int], p);
            }
            if contains_text(name.as_str(), q.as_str()) {
                r.push(a.name);
                assert(r@.map_values(|s: &'static str| s@) =~= before.map_values(|s: &'static str| s@).push(a.name@));
                assert(tab.subrange(0, i + 1).filter(p).map_values(|e: ActivityEntry| e.0) =~= tab.subrange(0, i as int).filter(p).map_values(|e: ActivityEntry| e.0).push(a.name@));
            }
            i = i + 1;
        }
        proof {
            let head = tab.subrange(0, i as int);
            let tail = tab.subrange(i as int, tab.len() as int);
            assert(tab == head + tail);
            Seq::filter_distributes_over_add(head, tail, p);
            let m = tab.filter(p);
            let hf = head.filter(p);
            assert(hf.len() == r@.len());
            if i == acts@.len() {
                assert(tail.len() == 0);
                assert(tail.filter(p) =~= Seq::<ActivityEntry>::empty()) by {
                    reveal(Seq::filter);
                }
                assert(m =~= hf);
                assert(m.take(m.len() as int) =~= m);
            } else {
                assert(hf.len() == MAX_CHOICES);
                assert(m.take(MAX_CHOICES as int) =~= hf);
            }
        }
        r
    }

    /// Splits the listed posts into those where `user` is on the roster and the others,
    /// keeping their order.
    pub fn split_joined(rows: Vec<JoinedRow>, user: i64) -> (r: (Vec<JoinedRow>, Vec<JoinedRow>))
        ensures
            r.0@ == rows@.filter(on_roster(user)),
            r.1@ == rows@.filter(off_roster(user)),
    {
        let ghost all = rows@;
        let mut rest = rows;
        let mut joined: Vec<JoinedRow> = Vec::new();
        let mut others: Vec<JoinedRow> = Vec::new();
        let ghost mut k: int = 0;
        while rest.len() > 0
            invariant
                0 <= k <= all.len(),
                rest@ == all.subrange(k, all.len() as int),
                joined@ == all.subrange(0, k).filter(on_roster(user)),
                others@ == all.subrange(0, k).filter(off_roster(user)),
            decreases rest@.len(),
        {
            let row = rest.remove(0);
            proof {
                assert(row == all[k]);
                assert(all.subrange(0, k + 1) == all.subrange(0, k).push(row));
                all.subrange(0, k).lemma_filter_push(row, on_roster(user));
                all.subrange(0, k).lemma_filter_push(row, off_roster(user));
                assert(rest@ =~= all.subrange(k + 1, all.len() as int));
                k = k + 1;
            }
            if holds(&row.fireteam, user) {
                joined.push(row);
            } else {
                others.push(row);
            }
        }
        assert(all.subrange(0, all.len() as int) == all);
        (joined, others)
    }
}

} // verus!
