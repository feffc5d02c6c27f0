use vstd::prelude::*;

use crate::error::Error;
use crate::post::{
    join_state, kick_state, leave_state, other_than, present, roster_wf, without, PostRow,
    RosterState,
};
use crate::reconcile::{
    cleanup_steps, delete_plan, sweep_plan, tolerated, Action, CallOutcome, ThreadInfo, PURGE_AFTER,
    UNKNOWN_CHANNEL,
};
use crate::reminders::{due_instants, later_than, reminder_times, DAY, HOUR, MINUTE};

verus! {

broadcast use vstd::seq_lib::group_filter_ensures;

/// One roster operation, as a caller issues it.
pub enum RosterOp {
    Join(i64, bool),
    Leave(i64),
    Kick(i64),
}

/// The state after one operation; a rejected join leaves the state as it was.
pub open spec fn apply_op(st: RosterState, op: RosterOp) -> RosterState {
    match op {
        RosterOp::Join(u, alternate) => match join_state(st, u, alternate) {
            Ok(next) => next,
            Err(_) => st,
        },
        RosterOp::Leave(u) => leave_state(st, u),
        RosterOp::Kick(u) => kick_state(st, u).1,
    }
}

/// The state after running `ops` in order from `st`.
pub open spec fn run_ops(st: RosterState, ops: Seq<RosterOp>) -> RosterState
    decreases ops.len(),
{
    if ops.len() == 0 {
        st
    } else {
        apply_op(run_ops(st, ops.drop_last()), ops.last())
    }
}

/// Removing a value that is absent changes nothing.
pub proof fn lemma_without_absent(s: Seq<i64>, u: i64)
    requires
        !s.contains(u),
    ensures
        without(s, u) == s,
    decreases s.len(),
{
    reveal(Seq::filter);
    if s.len() > 0 {
        assert(!s.drop_last().contains(u)) by {
            if s.drop_last().contains(u) {
                let j = choose|j: int| 0 <= j < s.drop_last().len() && s.drop_last()[j] == u;
                assert(s[j] == u);
            }
        }
        lemma_without_absent(s.drop_last(), u);
        assert(s.last() != u) by {
            assert(s[s.len() - 1] == s.last());
        }
        assert(s.drop_last().push(s.last()) == s);
    }
}

/// What remains after removing `u` is exactly what was there, but `u`.
pub proof fn lemma_without_contains(s: Seq<i64>, u: i64, x: i64)
    ensures
        without(s, u).contains(x) == (s.contains(x) && x != u),
{
    let p = other_than(u);
    if without(s, u).contains(x) {
        let j = choose|j: int| 0 <= j < without(s, u).len() && without(s, u)[j] == x;
        assert(p(without(s, u)[j]));
        s.lemma_filter_contains_rev(p, x);
    }
    if s.contains(x) && x != u {
        let j = choose|j: int| 0 <= j < s.len() && s[j] == x;
        s.lemma_filter_contains(p, j);
    }
}

/// One operation never lets the roster outgrow the capacity.
pub proof fn lemma_op_keeps_capacity(st: RosterState, op: RosterOp)
    requires
        st.roster.len() <= st.capacity,
    ensures
        apply_op(st, op).roster.len() <= apply_op(st, op).capacity,
{
    match op {
        RosterOp::Join(u, alternate) => {
            if !alternate && !st.roster.contains(u) && st.roster.len() != st.capacity {
                lemma_without_absent(st.roster, u);
            }
        },
        RosterOp::Leave(u) => {},
        RosterOp::Kick(u) => {},
    }
}

/// One operation never puts a user on both lists.
pub proof fn lemma_op_keeps_disjoint(st: RosterState, op: RosterOp)
    requires
        forall|u: i64| st.roster.contains(u) ==> !st.alternates.contains(u),
    ensures
        forall|u: i64|
            apply_op(st, op).roster.contains(u) ==> !apply_op(st, op).alternates.contains(u),
{
    let next = apply_op(st, op);
    assert forall|x: i64| next.roster.contains(x) implies !next.alternates.contains(x) by {
        match op {
            RosterOp::Join(u, alternate) => {
                lemma_without_contains(st.roster, u, x);
                lemma_without_contains(st.alternates, u, x);
                if alternate && !st.alternates.contains(u) {
                    assert(next.alternates == without(st.alternates, u).push(u));
                    assert(next.alternates.contains(x) ==> x == u || without(st.alternates, u).contains(x)) by {
                        if next.alternates.contains(x) {
                            let j = choose|j: int| 0 <= j < next.alternates.len() && next.alternates[j] == x;
                            if j < next.alternates.len() - 1 {
                                assert(without(st.alternates, u)[j] == x);
                            }
                        }
                    }
                } else if !alternate && !st.roster.contains(u) && st.roster.len() != st.capacity {
                    assert(next.roster == without(st.roster, u).push(u));
                    let j = choose|j: int| 0 <= j < next.roster.len() && next.roster[j] == x;
                    if j < next.roster.len() - 1 {
                        assert(without(st.roster, u)[j] == x);
                    }
                }
            },
            RosterOp::Leave(u) => {
                lemma_without_contains(st.roster, u, x);
                lemma_without_contains(st.alternates, u, x);
            },
            RosterOp::Kick(u) => {
                lemma_without_contains(st.roster, u, x);
                lemma_without_contains(st.alternates, u, x);
            },
        }
    }
}

/// Filtering keeps a sequence free of duplicates.
pub proof fn lemma_filter_unique<A>(s: Seq<A>, p: spec_fn(A) -> bool)
    requires
        s.no_duplicates(),
    ensures
        s.filter(p).no_duplicates(),
    decreases s.len(),
{
    reveal(Seq::filter);
    if s.len() > 0 {
        let init = s.drop_last();
        assert(init.no_duplicates()) by {
            assert forall|a: int, b: int| 0 <= a < b < init.len() implies init[a] != init[b] by {
                assert(init[a] == s[a] && init[b] == s[b]);
            }
        }
        lemma_filter_unique(init, p);
        if p(s.last()) {
            let f = init.filter(p);
            assert(!f.contains(s.last())) by {
                if f.contains(s.last()) {
                    init.lemma_filter_contains_rev(p, s.last());
                    let k = choose|k: int| 0 <= k < init.len() && init[k] == s.last();
                    assert(s[k] == s[s.len() - 1]);
                }
            }
            assert forall|a: int, b: int| 0 <= a < b < f.push(s.last()).len() implies f.push(s.last())[a] != f.push(s.last())[b] by {
                if b == f.len() {
                    assert(f.push(s.last())[a] == f[a]);
                }
            }
        }
    }
}

/// Appending a value that is absent keeps a sequence free of duplicates.
pub proof fn lemma_push_unique<A>(s: Seq<A>, x: A)
    requires
        s.no_duplicates(),
        !s.contains(x),
    ensures
        s.push(x).no_duplicates(),
{
    assert forall|a: int, b: int| 0 <= a < b < s.push(x).len() implies s.push(x)[a] != s.push(x)[b] by {
        if b == s.len() {
            assert(s.push(x)[a] == s[a]);
        } else {
            assert(s.push(x)[a] == s[a] && s.push(x)[b] == s[b]);
        }
    }
}

/// Every operation keeps all roster invariants: no user twice on a list, no user on
/// both lists, and the roster within the capacity.
pub proof fn lemma_op_keeps_wf(st: RosterState, op: RosterOp)
    requires
        roster_wf(st),
    ensures
        roster_wf(apply_op(st, op)),
{
    lemma_op_keeps_capacity(st, op);
    lemma_op_keeps_disjoint(st, op);
    let u = match op {
        RosterOp::Join(u, _) => u,
        RosterOp::Leave(u) => u,
        RosterOp::Kick(u) => u,
    };
    lemma_filter_unique(st.roster, other_than(u));
    lemma_filter_unique(st.alternates, other_than(u));
    lemma_without_contains(st.roster, u, u);
    lemma_without_contains(st.alternates, u, u);
    match op {
        RosterOp::Join(_, true) => {
            if !st.alternates.contains(u) {
                lemma_push_unique(without(st.alternates, u), u);
            }
        },
        RosterOp::Join(_, false) => {
            if !st.roster.contains(u) && st.roster.len() != st.capacity {
                lemma_push_unique(without(st.roster, u), u);
            }
        },
        _ => {},
    }
}

/// The roster never exceeds the capacity: if it fits at the start, it fits after
/// every operation of any sequence of joins, leaves and kicks.
pub proof fn lemma_capacity_kept(st: RosterState, ops: Seq<RosterOp>)
    requires
        st.roster.len() <= st.capacity,
    ensures
        forall|k: int| 0 <= k <= ops.len() ==> #[trigger] run_ops(st, ops.take(k)).roster.len() <= st.capacity,
    decreases ops.len(),
{
    if ops.len() > 0 {
        lemma_capacity_kept(st, ops.drop_last());
        assert forall|k: int| 0 <= k <= ops.len() implies #[trigger] run_ops(st, ops.take(k)).roster.len() <= st.capacity by {
            if k < ops.len() {
                assert(ops.take(k) == ops.drop_last().take(k));
            } else {
                assert(ops.take(k) == ops);
                assert(ops.drop_last().take(ops.len() - 1) == ops.drop_last());
                let prev = run_ops(st, ops.drop_last());
                lemma_capacity_preserved_run(st, ops.drop_last());
                lemma_op_keeps_capacity(prev, ops.last());
            }
        }
    } else {
        assert(ops.take(0) == ops);
    }
}

/// Running operations never changes the capacity.
proof fn lemma_capacity_preserved_run(st: RosterState, ops: Seq<RosterOp>)
    ensures
        run_ops(st, ops).capacity == st.capacity,
    decreases ops.len(),
{
    if ops.len() > 0 {
        lemma_capacity_preserved_run(st, ops.drop_last());
    }
}

/// No user is ever on both lists: if the lists are disjoint at the start, they stay
/// disjoint after every operation of any sequence of joins, leaves and kicks.
pub proof fn lemma_disjoint_kept(st: RosterState, ops: Seq<RosterOp>)
    requires
        forall|u: i64| st.roster.contains(u) ==> !st.alternates.contains(u),
    ensures
        forall|k: int, u: i64|
            0 <= k <= ops.len() && #[trigger] run_ops(st, ops.take(k)).roster.contains(u)
                ==> !run_ops(st, ops.take(k)).alternates.contains(u),
    decreases ops.len(),
{
    if ops.len() > 0 {
        lemma_disjoint_kept(st, ops.drop_last());
        assert(ops.drop_last().take(ops.len() - 1) == ops.drop_last());
        lemma_op_keeps_disjoint(run_ops(st, ops.drop_last()), ops.last());
        assert forall|k: int, u: i64|
            0 <= k <= ops.len() && #[trigger] run_ops(st, ops.take(k)).roster.contains(u)
                implies !run_ops(st, ops.take(k)).alternates.contains(u) by {
            if k < ops.len() {
                assert(ops.take(k) == ops.drop_last().take(k));
            } else {
                assert(ops.take(k) == ops);
            }
        }
    } else {
        assert(ops.take(0) == ops);
    }
}

/// Leaving twice leaves the same state as leaving once.
pub proof fn lemma_leave_idempotent(st: RosterState, u: i64)
    ensures
        leave_state(leave_state(st, u), u) == leave_state(st, u),
{
    lemma_without_contains(st.roster, u, u);
    lemma_without_contains(st.alternates, u, u);
    lemma_without_absent(without(st.roster, u), u);
    lemma_without_absent(without(st.alternates, u), u);
}

/// A waiting user who joins the roster while it has room ends up on the roster
/// and off the waiting list.
pub proof fn lemma_promotion(st: RosterState, u: i64)
    requires
        roster_wf(st),
        st.alternates.contains(u),
        st.roster.len() < st.capacity,
    ensures
        join_state(st, u, false) is Ok,
        join_state(st, u, false).unwrap().roster.contains(u),
        !join_state(st, u, false).unwrap().alternates.contains(u),
{
    let next = join_state(st, u, false).unwrap();
    assert(next.roster.last() == u);
    assert(next.roster[next.roster.len() - 1] == u);
    lemma_without_contains(st.alternates, u, u);
}

/// A user already on the roster who joins it again is refused with `AlreadyJoined`,
/// and the state stays as it was.
pub proof fn lemma_duplicate_join(st: RosterState, u: i64)
    requires
        st.roster.contains(u),
    ensures
        join_state(st, u, false) == Err::<RosterState, Error>(Error::AlreadyJoined),
        apply_op(st, RosterOp::Join(u, false)) == st,
{
}

/// Kicking a user who is on neither list reports `false` and changes nothing.
pub proof fn lemma_kick_absent(st: RosterState, u: i64)
    requires
        !present(st, u),
    ensures
        kick_state(st, u) == (false, st),
{
}

/// A thread idle past the purge window is deleted first, and no reminder is ever
/// registered for it, whatever post backs it; the post's clean-up steps (mirror removal,
/// lock) still follow.
pub proof fn lemma_purge_precedes_reminders(now: int, thread: ThreadInfo, record: Option<&PostRow>)
    requires
        thread.last_activity < now - PURGE_AFTER,
    ensures
        sweep_plan(now, thread, record)[0] == Action::DeleteThread(thread.id),
        sweep_plan(now, thread, record) == seq![Action::DeleteThread(thread.id)] + match record {
            Some(p) => cleanup_steps(now, p),
            None => Seq::<Action>::empty(),
        },
        forall|i: int| 0 <= i < sweep_plan(now, thread, record).len()
            ==> !(#[trigger] sweep_plan(now, thread, record)[i] is RegisterReminders),
{
    let plan = sweep_plan(now, thread, record);
    match record {
        Some(p) => {
            let c = cleanup_steps(now, p);
            assert forall|i: int| 0 <= i < plan.len() implies !(#[trigger] plan[i] is RegisterReminders) by {
                if i > 0 {
                    assert(plan[i] == c[i - 1]);
                }
            }
        },
        None => {
            assert(seq![Action::DeleteThread(thread.id)] + Seq::<Action>::empty() =~= plan);
        },
    }
}

/// For a post that starts within a day of `now`, the week and day reminders are already
/// past and are skipped; the half-hour reminder is kept exactly when it is still ahead.
pub proof fn lemma_near_start_reminders(start: int, now: int)
    requires
        start <= now + 24 * HOUR,
    ensures
        due_instants(start, now) == if start - 30 * MINUTE > now {
            seq![start - 30 * MINUTE]
        } else {
            Seq::<int>::empty()
        },
{
    let t = reminder_times(start);
    let p = later_than(now);
    assert(t == seq![start - 7 * DAY, start - 24 * HOUR, start - 30 * MINUTE]);
    assert(t == Seq::<int>::empty().push(start - 7 * DAY).push(start - 24 * HOUR).push(start - 30 * MINUTE));
    Seq::<int>::empty().lemma_filter_push(start - 7 * DAY, p);
    Seq::<int>::empty().push(start - 7 * DAY).lemma_filter_push(start - 24 * HOUR, p);
    Seq::<int>::empty().push(start - 7 * DAY).push(start - 24 * HOUR).lemma_filter_push(start - 30 * MINUTE, p);
    reveal(Seq::filter);
    assert(Seq::<int>::empty().filter(p) == Seq::<int>::empty());
    assert(Seq::<int>::empty().push(start - 30 * MINUTE) == seq![start - 30 * MINUTE]);
}

/// Deleting a post whose thread the platform reports as unknown still completes: that
/// answer counts as done, and the last step removes the post from the store.
pub proof fn lemma_delete_tolerates_missing_thread(p: &PostRow)
    ensures
        delete_plan(Some(p))[0] == Action::DeleteThread(p.id),
        tolerated(Action::DeleteThread(p.id), CallOutcome::Failed(Some(UNKNOWN_CHANNEL))),
        delete_plan(Some(p)).last() == Action::RemoveRecord(p.id),
{
}

} // verus!
