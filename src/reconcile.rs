use vstd::prelude::*;

use crate::post::PostRow;
use crate::reminders::{DAY, HOUR};

verus! {

broadcast use vstd::seq_lib::group_filter_ensures;

/// A thread idle longer than this is deleted from the platform.
pub const PURGE_AFTER: i64 = 30 * DAY;
/// A thread idle longer than this is archived.
pub const ARCHIVE_AFTER: i64 = 7 * DAY;
/// A post is locked (its thread archived) once its start is closer than this.
pub const LOCK_BEFORE: i64 = 2 * HOUR;

/// Platform error code for a channel or thread that no longer exists.
pub const UNKNOWN_CHANNEL: i64 = 10003;
/// Platform error code for a message that no longer exists.
pub const UNKNOWN_MESSAGE: i64 = 10008;

/// Milliseconds from the Unix epoch to the platform's identifier epoch.
pub const ID_EPOCH_MS: u64 = 1420070400000;

/// A step for the platform, the store or the reminder schedule, in the order it is taken.
#[derive(Clone, Copy, Debug, PartialEq, Eq, Structural)]
pub enum Action {
    /// Delete the thread with this id.
    DeleteThread(i64),
    /// Archive the thread with this id.
    ArchiveThread(i64),
    /// Register the reminders of the post with this id that are still ahead.
    RegisterReminders(i64),
    /// Delete a mirrored message: channel, then message.
    DeleteMessage(i64, i64),
    /// Remove the post with this id from the store.
    RemoveRecord(i64),
}

/// How a platform call ended: done, or failed with the platform's error code if it
/// gave one.
#[derive(Clone, Copy, Debug, PartialEq, Eq, Structural)]
pub enum CallOutcome {
    Done,
    Failed(Option<i64>),
}

/// Whether the outcome leaves the action's goal reached: it succeeded, or what it was
/// to remove or archive is already gone.
pub open spec fn tolerated(action: Action, outcome: CallOutcome) -> bool {
    match outcome {
        CallOutcome::Done => true,
        CallOutcome::Failed(Some(code)) => match action {
            Action::DeleteThread(_) => code == UNKNOWN_CHANNEL,
            Action::ArchiveThread(_) => code == UNKNOWN_CHANNEL,
            Action::DeleteMessage(_, _) => code == UNKNOWN_MESSAGE,
            _ => false,
        },
        CallOutcome::Failed(None) => false,
    }
}

/// Whether a run of `action` that ended with `outcome` lets the work go on.
pub fn tolerates(action: &Action, outcome: &CallOutcome) -> (r: bool)
    ensures
        r == tolerated(*action, *outcome),
{
    match outcome {
        CallOutcome::Done => true,
        CallOutcome::Failed(Some(code)) => match action {
            Action::DeleteThread(_) => *code == UNKNOWN_CHANNEL,
            Action::ArchiveThread(_) => *code == UNKNOWN_CHANNEL,
            Action::DeleteMessage(_, _) => *code == UNKNOWN_MESSAGE,
            _ => false,
        },
        CallOutcome::Failed(None) => false,
    }
}

/// Where a run of a plan stands: the index of the next step to take, all steps done,
/// or stopped at a step whose outcome cannot be passed over.
#[derive(Clone, Copy, Debug, PartialEq, Eq, Structural)]
pub enum Progress {
    Next(usize),
    Finished,
    Stopped,
}

/// Where a run of `plan` starts.
pub fn first_step(plan: &Vec<Action>) -> (r: Progress)
    ensures
        r == if plan@.len() == 0 { Progress::Finished } else { Progress::Next(0) },
{
    if plan.len() == 0 {
        Progress::Finished
    } else {
        Progress::Next(0)
    }
}

/// Where a run of `plan` goes after step `i` ended with `outcome`: on to the next
/// step when the outcome is tolerated, finished after the last one, and stopped at the
/// first outcome that is not tolerated. An index past the end counts as finished.
pub fn after_step(plan: &Vec<Action>, i: usize, outcome: &CallOutcome) -> (r: Progress)
    ensures
        r == if i >= plan@.len() {
            Progress::Finished
        } else if !tolerated(plan@[i as int], *outcome) {
            Progress::Stopped
        } else if i + 1 < plan@.len() {
            Progress::Next((i + 1) as usize)
        } else {
            Progress::Finished
        },
{
    if i >= plan.len() {
        return Progress::Finished;
    }
    if !tolerates(&plan[i], outcome) {
        return Progress::Stopped;
    }
    if i + 1 < plan.len() {
        Progress::Next(i + 1)
    } else {
        Progress::Finished
    }
}

/// The mirrored message of a post, when it has one.
pub open spec fn mirror_of(p: &PostRow) -> Option<(i64, i64)> {
    match (p.alt_channel, p.alt_message) {
        (Some(c), Some(m)) => Some((c, m)),
        _ => None,
    }
}

/// The reminder step of a post: registration when its start is still ahead.
pub open spec fn remind_steps(now: int, p: &PostRow) -> Seq<Action> {
    if p.start_time > now {
        seq![Action::RegisterReminders(p.id)]
    } else {
        Seq::empty()
    }
}

/// The clean-up steps of a post: drop its mirrored message once its start has passed,
/// then lock its thread once its start is closer than `LOCK_BEFORE` (or past).
pub open spec fn cleanup_steps(now: int, p: &PostRow) -> Seq<Action> {
    let mirror = match mirror_of(p) {
        Some((c, m)) => if p.start_time < now {
            seq![Action::DeleteMessage(c, m)]
        } else {
            Seq::empty()
        },
        None => Seq::empty(),
    };
    let lock = if p.start_time < now + LOCK_BEFORE {
        seq![Action::ArchiveThread(p.id)]
    } else {
        Seq::empty()
    };
    mirror + lock
}

/// What the sweep does for a post whose thread it keeps, given the time `now`:
/// reminders first, then the clean-up steps.
pub open spec fn post_plan(now: int, p: &PostRow) -> Seq<Action> {
    remind_steps(now, p) + cleanup_steps(now, p)
}

/// What the sweep does for one thread. A thread idle past the purge window is deleted;
/// a post that backs it then gets its clean-up steps but never its reminders. Any other
/// thread is archived when idle past the archive window, and a post that backs it gets
/// all its steps.
pub open spec fn sweep_plan(now: int, thread: ThreadInfo, record: Option<&PostRow>) -> Seq<Action> {
    if thread.last_activity < now - PURGE_AFTER {
        match record {
            Some(p) => seq![Action::DeleteThread(thread.id)] + cleanup_steps(now, p),
            None => seq![Action::DeleteThread(thread.id)],
        }
    } else {
        let archive = if thread.last_activity < now - ARCHIVE_AFTER {
            seq![Action::ArchiveThread(thread.id)]
        } else {
            Seq::empty()
        };
        match record {
            Some(p) => archive + post_plan(now, p),
            None => archive,
        }
    }
}

/// A thread as the sweep sees it.
#[derive(Clone, Copy, Debug, PartialEq, Eq, Structural)]
pub struct ThreadInfo {
    pub id: i64,
    /// The channel the thread belongs to, if known.
    pub parent: Option<i64>,
    /// Instant of its latest activity, in seconds since the Unix epoch.
    pub last_activity: i64,
}

/// Appends `x` and states the result.
fn push_action(v: &mut Vec<Action>, x: Action)
    ensures
        final(v)@ == old(v)@ + seq![x],
{
    v.push(x);
    assert(old(v)@.push(x) =~= old(v)@ + seq![x]);
}

/// Appends the clean-up steps of `p` at time `now`.
fn push_cleanup(r: &mut Vec<Action>, now: i64, p: &PostRow)
    ensures
        final(r)@ == old(r)@ + cleanup_steps(now as int, p),
{
    let ghost start = r@;
    if p.start_time < now {
        if let (Some(c), Some(m)) = (p.alt_channel, p.alt_message) {
            push_action(r, Action::DeleteMessage(c, m));
        }
    }
    if (p.start_time as i128) < (now as i128) + (LOCK_BEFORE as i128) {
        push_action(r, Action::ArchiveThread(p.id));
    }
    assert(r@ =~= start + cleanup_steps(now as int, p));
}

/// The steps for a post whose thread stays, at time `now`.
pub fn plan_post(now: i64, p: &PostRow) -> (r: Vec<Action>)
    ensures
        r@ == post_plan(now as int, p),
{
    let mut r: Vec<Action> = Vec::new();
    if p.start_time > now {
        push_action(&mut r, Action::RegisterReminders(p.id));
    }
    assert(r@ =~= remind_steps(now as int, p));
    push_cleanup(&mut r, now, p);
    r
}

/// The steps of the sweep for one thread at time `now`, with the post stored for it,
/// if any.
pub fn plan_thread(now: i64, thread: ThreadInfo, record: Option<&PostRow>) -> (r: Vec<Action>)
    ensures
        r@ == sweep_plan(now as int, thread, record),
{
    let mut r: Vec<Action> = Vec::new();
    if (thread.last_activity as i128) < (now as i128) - (PURGE_AFTER as i128) {
        push_action(&mut r, Action::DeleteThread(thread.id));
        assert(r@ =~= seq![Action::DeleteThread(thread.id)]);
        if let Some(p) = record {
            push_cleanup(&mut r, now, p);
        }
        return r;
    }
    if (thread.last_activity as i128) < (now as i128) - (ARCHIVE_AFTER as i128) {
        push_action(&mut r, Action::ArchiveThread(thread.id));
    }
    if let Some(p) = record {
        let mut rest = plan_post(now, p);
        r.append(&mut rest);
    }
    assert(r@ =~= sweep_plan(now as int, thread, record));
    r
}

/// What deleting a post does: delete its thread, then its mirrored message if it has
/// one, then remove it from the store. Nothing when no post is stored.
pub open spec fn delete_plan(record: Option<&PostRow>) -> Seq<Action> {
    match record {
        Some(p) => seq![Action::DeleteThread(p.id)] + match mirror_of(p) {
            Some((c, m)) => seq![Action::DeleteMessage(c, m)],
            None => Seq::empty(),
        } + seq![Action::RemoveRecord(p.id)],
        None => Seq::empty(),
    }
}

/// The steps that delete the post `record`, if one is stored.
pub fn plan_delete(record: Option<&PostRow>) -> (r: Vec<Action>)
    ensures
        r@ == delete_plan(record),
{
    let mut r: Vec<Action> = Vec::new();
    if let Some(p) = record {
        push_action(&mut r, Action::DeleteThread(p.id));
        if let (Some(c), Some(m)) = (p.alt_channel, p.alt_message) {
            push_action(&mut r, Action::DeleteMessage(c, m));
        }
        push_action(&mut r, Action::RemoveRecord(p.id));
    }
    assert(r@ =~= delete_plan(record));
    r
}

/// After archiving the thread of a post whose start has passed: a post whose thread
/// could not be archived is removed from the store.
pub fn close_followup(id: i64, archive: &CallOutcome) -> (r: Option<Action>)
    ensures
        r == if *archive == CallOutcome::Done {
            None
        } else {
            Some(Action::RemoveRecord(id))
        },
{
    match archive {
        CallOutcome::Done => None,
        CallOutcome::Failed(_) => Some(Action::RemoveRecord(id)),
    }
}

/// The test "belongs to `channel`".
pub open spec fn in_channel(channel: i64) -> spec_fn(ThreadInfo) -> bool {
    |t: ThreadInfo| t.parent == Some(channel)
}

/// The threads the sweep visits: the active ones of the events channel `channel`, then
/// every archived one listed for it.
pub fn sweep_candidates(channel: i64, active: &Vec<ThreadInfo>, archived: &Vec<ThreadInfo>) -> (r: Vec<ThreadInfo>)
    ensures
        r@ == active@.filter(in_channel(channel)) + archived@,
{
    let mut r: Vec<ThreadInfo> = Vec::new();
    let mut i: usize = 0;
    while i < active.len()
        invariant
            0 <= i <= active@.len(),
            r@ == active@.subrange(0, i as int).filter(in_channel(channel)),
        decreases active@.len() - i,
    {
        let t = active[i];
        proof {
            assert(active@.subrange(0, i + 1) == active@.subrange(0, i as int).push(t));
            active@.subrange(0, i as int).lemma_filter_push(t, in_channel(channel));
        }
        if t.parent == Some(channel) {
            r.push(t);
        }
        i = i + 1;
    }
    assert(active@.subrange(0, active@.len() as int) == active@);
    let ghost head = r@;
    let mut j: usize = 0;
    while j < archived.len()
        invariant
            0 <= j <= archived@.len(),
            r@ == head + archived@.subrange(0, j as int),
        decreases archived@.len() - j,
    {
        r.push(archived[j]);
        j = j + 1;
        assert(r@ =~= head + archived@.subrange(0, j as int));
    }
    assert(archived@.subrange(0, archived@.len() as int) == archived@);
    r
}

/// The creation instant, in seconds since the Unix epoch, that a platform identifier
/// carries in its upper bits (milliseconds since the identifier epoch).
pub open spec fn id_seconds(id: u64) -> int {
    (id as int / 0x40_0000 + ID_EPOCH_MS as int) / 1000
}

/// The creation instant of the object with identifier `id`, in whole seconds.
pub fn created_seconds(id: u64) -> (r: i64)
    ensures
        r as int == id_seconds(id),
{
    let ms: u64 = id / 0x40_0000 + ID_EPOCH_MS;
    (ms / 1000) as i64
}

} // verus!
