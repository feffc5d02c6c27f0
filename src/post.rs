use vstd::prelude::*;

use crate::error::Error;
use crate::lemmas::{lemma_op_keeps_wf, RosterOp};

verus! {

broadcast use vstd::seq_lib::group_filter_ensures;

/// The roster of a post as a mathematical value.
pub struct RosterState {
    pub roster: Seq<i64>,
    pub alternates: Seq<i64>,
    pub capacity: int,
}

/// The test "is not `u`".
pub open spec fn other_than(u: i64) -> spec_fn(i64) -> bool {
    |x: i64| x != u
}

/// `s` with every occurrence of `u` removed, order otherwise kept.
pub open spec fn without(s: Seq<i64>, u: i64) -> Seq<i64> {
    s.filter(other_than(u))
}

/// The invariants that every mutation keeps.
pub open spec fn roster_wf(st: RosterState) -> bool {
    &&& st.roster.no_duplicates()
    &&& st.alternates.no_duplicates()
    &&& forall|u: i64| st.roster.contains(u) ==> !st.alternates.contains(u)
    &&& st.roster.len() <= st.capacity
}

/// The state after `u` leaves: gone from both lists.
pub open spec fn leave_state(st: RosterState, u: i64) -> RosterState {
    RosterState {
        roster: without(st.roster, u),
        alternates: without(st.alternates, u),
        capacity: st.capacity,
    }
}

/// What `join` does: an error, or the state with `u` moved to the end of the target list.
pub open spec fn join_state(st: RosterState, u: i64, alternate: bool) -> Result<RosterState, Error> {
    if alternate {
        if st.alternates.contains(u) {
            Err(Error::AlreadyJoined)
        } else {
            let left = leave_state(st, u);
            Ok(RosterState { alternates: left.alternates.push(u), ..left })
        }
    } else {
        if st.roster.contains(u) {
            Err(Error::AlreadyJoined)
        } else if st.roster.len() == st.capacity {
            Err(Error::FireteamFull)
        } else {
            let left = leave_state(st, u);
            Ok(RosterState { roster: left.roster.push(u), ..left })
        }
    }
}

/// Whether `u` is on either list.
pub open spec fn present(st: RosterState, u: i64) -> bool {
    st.roster.contains(u) || st.alternates.contains(u)
}

/// What `kick` does: `(false, st)` when `u` is absent, else `(true, leave_state(st, u))`.
pub open spec fn kick_state(st: RosterState, u: i64) -> (bool, RosterState) {
    if present(st, u) {
        (true, leave_state(st, u))
    } else {
        (false, st)
    }
}

/// Removes every occurrence of `u` from `v`, keeping the order of the rest.
fn remove_user(v: &mut Vec<i64>, u: i64)
    ensures
        final(v)@ == without(old(v)@, u),
{
    let ghost s = v@;
    let mut out: Vec<i64> = Vec::new();
    let mut i: usize = 0;
    while i < v.len()
        invariant
            v@ == s,
            0 <= i <= s.len(),
            out@ == without(s.subrange(0, i as int), u),
        decreases s.len() - i,
    {
        let x = v[i];
        proof {
            assert(s.subrange(0, i + 1) == s.subrange(0, i as int).push(x));
            s.subrange(0, i as int).lemma_filter_push(x, other_than(u));
        }
        if x != u {
            out.push(x);
        }
        i = i + 1;
    }
    proof {
        assert(s.subrange(0, s.len() as int) == s);
    }
    *v = out;
}

/// Whether `u` occurs in `v`.
pub(crate) fn holds(v: &Vec<i64>, u: i64) -> (r: bool)
    ensures
        r == v@.contains(u),
{
    let mut i: usize = 0;
    while i < v.len()
        invariant
            0 <= i <= v.len(),
            forall|j: int| 0 <= j < i ==> v@[j] != u,
        decreases v.len() - i,
    {
        if v[i] == u {
            return true;
        }
        i = i + 1;
    }
    false
}

/// One event post: the thread it lives in, its schedule and its roster.
pub struct PostRow {
    /// Identifier of the backing thread; the post has the same identifier.
    pub id: i64,
    /// The user who created the post.
    pub owner: i64,
    pub activity: String,
    /// Start instant, in seconds since the Unix epoch.
    pub start_time: i64,
    /// The owner's time zone name, used to show the start in local time.
    pub timezone: String,
    pub description: String,
    /// Largest allowed roster size.
    pub fireteam_size: i16,
    /// The roster, in order of joining.
    pub fireteam: Vec<i64>,
    /// The waiting list, in order of joining.
    pub alternatives: Vec<i64>,
    /// Channel that mirrors a summary of the post, if any.
    pub alt_channel: Option<i64>,
    /// The mirrored summary message, if any.
    pub alt_message: Option<i64>,
}

impl PostRow {
    pub open spec fn roster_state(&self) -> RosterState {
        RosterState {
            roster: self.fireteam@,
            alternates: self.alternatives@,
            capacity: self.fireteam_size as int,
        }
    }

    /// The roster invariants hold.
    pub open spec fn wf(&self) -> bool {
        roster_wf(self.roster_state())
    }

    /// All fields but the two lists are those of `other`.
    pub open spec fn same_details(&self, other: &PostRow) -> bool {
        &&& self.id == other.id
        &&& self.owner == other.owner
        &&& self.activity@ == other.activity@
        &&& self.start_time == other.start_time
        &&& self.timezone@ == other.timezone@
        &&& self.description@ == other.description@
        &&& self.fireteam_size == other.fireteam_size
        &&& self.alt_channel == other.alt_channel
        &&& self.alt_message == other.alt_message
    }

    /// Whether the roster has reached the post's capacity.
    pub fn is_full(&self) -> (r: bool)
        ensures
            r == (self.fireteam@.len() == self.fireteam_size as int),
    {
        self.fireteam_size >= 0 && self.fireteam.len() == self.fireteam_size as usize
    }

    /// Whether `user` is on the roster or on the waiting list.
    pub fn contains(&self, user: i64) -> (r: bool)
        ensures
            r == present(self.roster_state(), user),
    {
        holds(&self.fireteam, user) || holds(&self.alternatives, user)
    }

    /// Removes `user` from both lists; nothing happens when the user is on neither.
    pub fn leave(&mut self, user: i64)
        ensures
            final(self).roster_state() == leave_state(old(self).roster_state(), user),
            final(self).same_details(old(self)),
            old(self).wf() ==> final(self).wf(),
    {
        proof {
            if self.wf() {
                lemma_op_keeps_wf(self.roster_state(), RosterOp::Leave(user));
            }
        }
        remove_user(&mut self.fireteam, user);
        remove_user(&mut self.alternatives, user);
    }

    /// Adds `user` to the roster, or to the waiting list when `alternative` is set,
    /// taking them off the other list.
    pub fn join(&mut self, user: i64, alternative: bool) -> (r: Result<(), Error>)
        ensures
            match join_state(old(self).roster_state(), user, alternative) {
                Ok(st) => r is Ok && final(self).roster_state() == st,
                Err(e) => r == Err::<(), Error>(e) && final(self).roster_state() == old(self).roster_state(),
            },
            final(self).same_details(old(self)),
            old(self).wf() ==> final(self).wf(),
    {
        proof {
            if self.wf() {
                lemma_op_keeps_wf(self.roster_state(), RosterOp::Join(user, alternative));
            }
        }
        if alternative {
            if holds(&self.alternatives, user) {
                return Err(Error::AlreadyJoined);
            }
        } else {
            if holds(&self.fireteam, user) {
                return Err(Error::AlreadyJoined);
            }
            if self.is_full() {
                return Err(Error::FireteamFull);
            }
        }
        self.leave(user);
        if alternative {
            self.alternatives.push(user);
        } else {
            self.fireteam.push(user);
        }
        Ok(())
    }

    /// Removes `user` when present; returns whether anything was removed.
    pub fn kick(&mut self, user: i64) -> (r: bool)
        ensures
            (r, final(self).roster_state()) == kick_state(old(self).roster_state(), user),
            final(self).same_details(old(self)),
            old(self).wf() ==> final(self).wf(),
    {
        proof {
            if self.wf() {
                lemma_op_keeps_wf(self.roster_state(), RosterOp::Kick(user));
            }
        }
        if !self.contains(user) {
            return false;
        }
        self.leave(user);
        true
    }
}

/// Builds a post: a new one with its owner as the only member, or one taken from a
/// stored post to change its details.
pub struct PostBuilder {
    row: PostRow,
}

impl View for PostBuilder {
    type V = PostRow;

    closed spec fn view(&self) -> PostRow {
        self.row
    }
}

impl PostBuilder {
    /// A post of `owner` with the owner on the roster, nobody waiting, no thread yet
    /// (id 0) and no mirrored message.
    pub fn new(
        owner: i64,
        activity: String,
        start_time: i64,
        timezone: String,
        description: String,
        fireteam_size: i16,
    ) -> (r: Self)
        ensures
            r@.id == 0,
            r@.owner == owner,
            r@.activity@ == activity@,
            r@.start_time == start_time,
            r@.timezone@ == timezone@,
            r@.description@ == description@,
            r@.fireteam_size == fireteam_size,
            r@.fireteam@ == seq![owner],
            r@.alternatives@ == Seq::<i64>::empty(),
            r@.alt_channel is None,
            r@.alt_message is None,
            fireteam_size >= 1 ==> r@.wf(),
    {
        let mut fireteam: Vec<i64> = Vec::new();
        fireteam.push(owner);
        assert(fireteam@ =~= seq![owner]);
        PostBuilder {
            row: PostRow {
                id: 0,
                owner,
                activity,
                start_time,
                timezone,
                description,
                fireteam_size,
                fireteam,
                alternatives: Vec::new(),
                alt_channel: None,
                alt_message: None,
            },
        }
    }

    /// Starts from a stored post.
    pub fn from_row(row: PostRow) -> (r: Self)
        ensures
            r@ == row,
    {
        PostBuilder { row }
    }

    pub fn id(self, id: i64) -> (r: Self)
        ensures
            r@ == (PostRow { id, ..self@ }),
    {
        let mut b = self;
        b.row.id = id;
        b
    }

    pub fn activity(self, activity: String) -> (r: Self)
        ensures
            r@ == (PostRow { activity, ..self@ }),
    {
        let mut b = self;
        b.row.activity = activity;
        b
    }

    pub fn fireteam_size(self, size: i16) -> (r: Self)
        ensures
            r@ == (PostRow { fireteam_size: size, ..self@ }),
    {
        let mut b = self;
        b.row.fireteam_size = size;
        b
    }

    pub fn description(self, description: String) -> (r: Self)
        ensures
            r@ == (PostRow { description, ..self@ }),
    {
        let mut b = self;
        b.row.description = description;
        b
    }

    /// Sets the start instant and the time zone it is shown in.
    pub fn start(self, start_time: i64, timezone: String) -> (r: Self)
        ensures
            r@ == (PostRow { start_time, timezone, ..self@ }),
    {
        let mut b = self;
        b.row.start_time = start_time;
        b.row.timezone = timezone;
        b
    }

    pub fn alt_channel(self, channel: i64) -> (r: Self)
        ensures
            r@ == (PostRow { alt_channel: Some(channel), ..self@ }),
    {
        let mut b = self;
        b.row.alt_channel = Some(channel);
        b
    }

    pub fn alt_message(self, message: i64) -> (r: Self)
        ensures
            r@ == (PostRow { alt_message: Some(message), ..self@ }),
    {
        let mut b = self;
        b.row.alt_message = Some(message);
        b
    }

    pub fn build(self) -> (r: PostRow)
        ensures
            r == self@,
    {
        self.row
    }
}

} // verus!
