use vstd::prelude::*;

use crate::lemmas::lemma_filter_unique;
use crate::post::PostRow;

verus! {

broadcast use {vstd::seq_lib::group_filter_ensures, vstd::seq_lib::lemma_seq_contains_after_push};

/// Seconds in a minute, an hour and a day.
pub const MINUTE: i64 = 60;
pub const HOUR: i64 = 3600;
pub const DAY: i64 = 86400;

/// How long before the start each reminder fires, in seconds.
pub open spec fn reminder_offsets() -> Seq<int> {
    seq![7 * DAY as int, 24 * HOUR as int, 30 * MINUTE as int]
}

/// The test "is later than `now`".
pub open spec fn later_than(now: int) -> spec_fn(int) -> bool {
    |t: int| t > now
}

/// The instants a week, a day and half an hour before `start`.
pub open spec fn reminder_times(start: int) -> Seq<int> {
    reminder_offsets().map_values(|d: int| start - d)
}

/// The reminder instants of a post starting at `start` that are still ahead of `now`,
/// earliest first.
pub open spec fn due_instants(start: int, now: int) -> Seq<int> {
    reminder_times(start).filter(later_than(now))
}

/// A sequence of instants as integers.
pub open spec fn as_ints(s: Seq<i64>) -> Seq<int> {
    s.map_values(|t: i64| t as int)
}

/// The reminder instants to register for a post that starts at `start`: a week,
/// a day and half an hour before it, leaving out those not after `now`.
pub fn reminder_instants(start: i64, now: i64) -> (r: Vec<i64>)
    ensures
        as_ints(r@) == due_instants(start as int, now as int),
{
    let mut r: Vec<i64> = Vec::new();
    let offsets: [i64; 3] = [7 * DAY, 24 * HOUR, 30 * MINUTE];
    let ghost times = reminder_times(start as int);
    let mut i: usize = 0;
    while i < 3
        invariant
            0 <= i <= 3,
            forall|j: int| 0 <= j < 3 ==> offsets@[j] as int == #[trigger] reminder_offsets()[j],
            times == reminder_times(start as int),
            as_ints(r@) == times.subrange(0, i as int).filter(later_than(now as int)),
        decreases 3 - i,
    {
        let d = offsets[i];
        proof {
            assert(times.subrange(0, i + 1) == times.subrange(0, i as int).push(times[i as int]));
            times.subrange(0, i as int).lemma_filter_push(times[i as int], later_than(now as int));
            assert(times[i as int] == start - d);
        }
        if (start as i128) - (d as i128) > now as i128 {
            let ghost prev = r@;
            r.push(start - d);
            assert(as_ints(r@) =~= as_ints(prev).push((start - d) as int));
        }
        i = i + 1;
    }
    assert(times.subrange(0, 3) == times);
    r
}

/// A one-shot reminder: the post it is for and the instant it fires.
#[derive(Clone, Copy, Debug, PartialEq, Eq, Structural)]
pub struct ReminderJob {
    pub post_id: i64,
    pub fire_at: i64,
}

/// The test "fires at or before `now`".
pub open spec fn fires_by(now: i64) -> spec_fn(ReminderJob) -> bool {
    |j: ReminderJob| j.fire_at <= now
}

/// The test "fires after `now`".
pub open spec fn fires_after(now: i64) -> spec_fn(ReminderJob) -> bool {
    |j: ReminderJob| j.fire_at > now
}

/// The reminders waiting to fire. Registration never adds a job that is already
/// waiting, so a schedule built by `register` holds each job at most once.
pub struct ReminderSchedule {
    jobs: Vec<ReminderJob>,
}

impl View for ReminderSchedule {
    type V = Seq<ReminderJob>;

    closed spec fn view(&self) -> Seq<ReminderJob> {
        self.jobs@
    }
}

impl ReminderSchedule {
    pub fn new() -> (r: ReminderSchedule)
        ensures
            r@ == Seq::<ReminderJob>::empty(),
    {
        ReminderSchedule { jobs: Vec::new() }
    }

    pub fn len(&self) -> (r: usize)
        ensures
            r == self@.len(),
    {
        self.jobs.len()
    }

    /// Whether the job for `post_id` at `fire_at` is waiting.
    pub fn has(&self, post_id: i64, fire_at: i64) -> (r: bool)
        ensures
            r == self@.contains(ReminderJob { post_id, fire_at }),
    {
        let mut i: usize = 0;
        while i < self.jobs.len()
            invariant
                0 <= i <= self.jobs@.len(),
                forall|k: int| 0 <= k < i ==> self.jobs@[k] != (ReminderJob { post_id, fire_at }),
            decreases self.jobs@.len() - i,
        {
            let j = self.jobs[i];
            if j.post_id == post_id && j.fire_at == fire_at {
                return true;
            }
            i = i + 1;
        }
        false
    }

    /// Adds the job for `post_id` at `fire_at` unless it is already waiting; returns
    /// whether it was added.
    pub fn register(&mut self, post_id: i64, fire_at: i64) -> (r: bool)
        ensures
            r == !old(self)@.contains(ReminderJob { post_id, fire_at }),
            final(self)@ == if r {
                old(self)@.push(ReminderJob { post_id, fire_at })
            } else {
                old(self)@
            },
            old(self)@.no_duplicates() ==> final(self)@.no_duplicates(),
    {
        if self.has(post_id, fire_at) {
            return false;
        }
        let job = ReminderJob { post_id, fire_at };
        proof {
            let s = self.jobs@;
            if s.no_duplicates() {
                assert forall|a: int, b: int| 0 <= a < b < s.push(job).len() implies s.push(job)[a] != s.push(job)[b] by {
                    if b == s.len() {
                        assert(s[a] == s.push(job)[a]);
                    }
                }
            }
        }
        self.jobs.push(job);
        true
    }

    /// Registers the reminders of `post` that are still ahead of `now`; those already
    /// waiting are not added again.
    pub fn register_post(&mut self, post: &PostRow, now: i64)
        ensures
            forall|j: ReminderJob| #[trigger] final(self)@.contains(j) <==> old(self)@.contains(j)
                || (j.post_id == post.id && due_instants(post.start_time as int, now as int).contains(j.fire_at as int)),
            old(self)@.no_duplicates() ==> final(self)@.no_duplicates(),
            (forall|j: ReminderJob| j.post_id == post.id
                && due_instants(post.start_time as int, now as int).contains(j.fire_at as int)
                ==> old(self)@.contains(j)) ==> final(self)@ == old(self)@,
    {
        let times = reminder_instants(post.start_time, now);
        let ghost due = due_instants(post.start_time as int, now as int);
        let mut i: usize = 0;
        while i < times.len()
            invariant
                0 <= i <= times@.len(),
                as_ints(times@) == due,
                forall|j: ReminderJob| #[trigger] self@.contains(j) <==> old(self)@.contains(j)
                    || (j.post_id == post.id && exists|k: int| 0 <= k < i && times@[k] == j.fire_at),
                old(self)@.no_duplicates() ==> self@.no_duplicates(),
                (forall|j: ReminderJob| j.post_id == post.id && due.contains(j.fire_at as int)
                    ==> old(self)@.contains(j)) ==> self@ == old(self)@,
            decreases times@.len() - i,
        {
            let t = times[i];
            let ghost before = self@;
            proof {
                assert(as_ints(times@)[i as int] == t as int);
                assert(due.contains(t as int)) by {
                    assert(due[i as int] == t as int);
                }
            }
            self.register(post.id, t);
            proof {
                assert forall|j: ReminderJob| #[trigger] self@.contains(j) <==> before.contains(j)
                    || j == (ReminderJob { post_id: post.id, fire_at: t }) by {}
                assert forall|j: ReminderJob| (exists|k: int| 0 <= k < i + 1 && times@[k] == j.fire_at)
                    <==> (exists|k: int| 0 <= k < i && times@[k] == j.fire_at) || t == j.fire_at by {
                    if exists|k: int| 0 <= k < i + 1 && times@[k] == j.fire_at {
                        let k = choose|k: int| 0 <= k < i + 1 && times@[k] == j.fire_at;
                        if k < i {} else { assert(t == j.fire_at); }
                    }
                }
            }
            i = i + 1;
        }
        assert forall|j: ReminderJob| #[trigger] self@.contains(j) <==> old(self)@.contains(j)
            || (j.post_id == post.id && due.contains(j.fire_at as int)) by {
            if due.contains(j.fire_at as int) {
                let k = choose|k: int| 0 <= k < due.len() && due[k] == j.fire_at as int;
                assert(as_ints(times@)[k] == times@[k] as int);
            }
            if exists|k: int| 0 <= k < times@.len() && times@[k] == j.fire_at {
                let k = choose|k: int| 0 <= k < times@.len() && times@[k] == j.fire_at;
                assert(as_ints(times@)[k] == times@[k] as int);
            }
        }
    }

    /// Takes out the jobs due at `now` (those firing at or before it), in order of
    /// registration; the others stay.
    pub fn take_due(&mut self, now: i64) -> (r: Vec<ReminderJob>)
        ensures
            r@ == old(self)@.filter(fires_by(now)),
            final(self)@ == old(self)@.filter(fires_after(now)),
            old(self)@.no_duplicates() ==> final(self)@.no_duplicates(),
    {
        let ghost s = self.jobs@;
        let mut due: Vec<ReminderJob> = Vec::new();
        let mut rest: Vec<ReminderJob> = Vec::new();
        let mut i: usize = 0;
        while i < self.jobs.len()
            invariant
                self.jobs@ == s,
                0 <= i <= s.len(),
                due@ == s.subrange(0, i as int).filter(fires_by(now)),
                rest@ == s.subrange(0, i as int).filter(fires_after(now)),
            decreases s.len() - i,
        {
            let j = self.jobs[i];
            proof {
                assert(s.subrange(0, i + 1) == s.subrange(0, i as int).push(j));
                s.subrange(0, i as int).lemma_filter_push(j, fires_by(now));
                s.subrange(0, i as int).lemma_filter_push(j, fires_after(now));
            }
            if j.fire_at <= now {
                due.push(j);
            } else {
                rest.push(j);
            }
            i = i + 1;
        }
        proof {
            assert(s.subrange(0, s.len() as int) == s);
            if s.no_duplicates() {
                lemma_filter_unique(s, fires_after(now));
            }
        }
        self.jobs = rest;
        due
    }
}

/// Who gets a reminder when it fires: the roster of the post as it is then (never the
/// waiting list), and nobody when the post is gone.
pub fn reminder_recipients(post: Option<&PostRow>) -> (r: Vec<i64>)
    ensures
        r@ == match post {
            Some(p) => p.fireteam@,
            None => Seq::<i64>::empty(),
        },
{
    let mut r: Vec<i64> = Vec::new();
    match post {
        Some(p) => {
            let mut i: usize = 0;
            while i < p.fireteam.len()
                invariant
                    0 <= i <= p.fireteam@.len(),
                    r@ == p.fireteam@.subrange(0, i as int),
                decreases p.fireteam@.len() - i,
            {
                r.push(p.fireteam[i]);
                i = i + 1;
            }
            assert(p.fireteam@.subrange(0, p.fireteam@.len() as int) == p.fireteam@);
        },
        None => {},
    }
    r
}

} // verus!
