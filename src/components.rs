use vstd::prelude::*;

use crate::error::Error;
use crate::post::holds;

verus! {

broadcast use vstd::seq_lib::lemma_seq_contains_after_push;

/// The button side of the engine: owner-only actions.
pub struct Components;

impl Components {
    /// Lets `user` through only when they own the post; otherwise refuses with the
    /// owner's id.
    pub fn check_owner(user: i64, owner: i64) -> (r: Result<(), Error>)
        ensures
            r is Ok <==> user == owner,
            r is Err ==> r->Err_0 == Error::PermissionDenied(owner),
    {
        if user != owner {
            return Err(Error::PermissionDenied(owner));
        }
        Ok(())
    }

    /// The check for the settings menu: a message with no stored post counts as owned by
    /// whoever opens it.
    pub fn check_settings(user: i64, owner: Option<i64>) -> (r: Result<(), Error>)
        ensures
            r is Ok <==> (owner is None || owner == Some(user)),
            r is Err ==> r->Err_0 == Error::PermissionDenied(owner->Some_0),
    {
        match owner {
            Some(o) => Components::check_owner(user, o),
            None => Ok(()),
        }
    }
}

/// Appends `x` to `out` unless it is there already.
fn add_new(out: &mut Vec<i64>, x: i64)
    requires
        old(out)@.no_duplicates(),
    ensures
        final(out)@.no_duplicates(),
        forall|t: i64| #[trigger] final(out)@.contains(t) <==> old(out)@.contains(t) || t == x,
{
    let ghost s0 = out@;
    let mut i: usize = 0;
    while i < out.len()
        invariant
            out@ == s0,
            s0 == old(out)@,
            s0.no_duplicates(),
            0 <= i <= out@.len(),
            forall|j: int| 0 <= j < i ==> out@[j] != x,
        decreases out@.len() - i,
    {
        if out[i] == x {
            assert(out@.contains(x));
            return;
        }
        i = i + 1;
    }
    let ghost s = out@;
    out.push(x);
    assert forall|a: int, b: int| 0 <= a < b < out@.len() implies out@[a] != out@[b] by {
        if b == s.len() {
            assert(out@[a] == s[a]);
        } else {
            assert(out@[a] == s[a] && out@[b] == s[b]);
        }
    }
}

/// Adding and removing the classification tags of a post.
pub struct TagsComponent;

impl TagsComponent {
    /// The tags a thread carries after adding `selected` to `applied`: each tag of
    /// either, once.
    pub fn add(selected: &Vec<i64>, applied: &Vec<i64>) -> (r: Vec<i64>)
        ensures
            r@.no_duplicates(),
            forall|t: i64| #[trigger] r@.contains(t) <==> selected@.contains(t) || applied@.contains(t),
    {
        let mut r: Vec<i64> = Vec::new();
        let mut i: usize = 0;
        while i < selected.len()
            invariant
                0 <= i <= selected@.len(),
                r@.no_duplicates(),
                forall|t: i64| #[trigger] r@.contains(t) <==> exists|j: int| 0 <= j < i && selected@[j] == t,
            decreases selected@.len() - i,
        {
            add_new(&mut r, selected[i]);
            i = i + 1;
        }
        let mut k: usize = 0;
        while k < applied.len()
            invariant
                0 <= k <= applied@.len(),
                r@.no_duplicates(),
                forall|t: i64| #[trigger] r@.contains(t) <==> selected@.contains(t)
                    || exists|j: int| 0 <= j < k && applied@[j] == t,
            decreases applied@.len() - k,
        {
            add_new(&mut r, applied[k]);
            k = k + 1;
        }
        r
    }

    /// The tags a thread carries after removing `selected` from `applied`: each tag of
    /// `applied` that is not selected, once.
    pub fn remove(selected: &Vec<i64>, applied: &Vec<i64>) -> (r: Vec<i64>)
        ensures
            r@.no_duplicates(),
            forall|t: i64| #[trigger] r@.contains(t) <==> applied@.contains(t) && !selected@.contains(t),
    {
        let mut r: Vec<i64> = Vec::new();
        let mut k: usize = 0;
        while k < applied.len()
            invariant
                0 <= k <= applied@.len(),
                r@.no_duplicates(),
                forall|t: i64| #[trigger] r@.contains(t) <==> !selected@.contains(t)
                    && exists|j: int| 0 <= j < k && applied@[j] == t,
            decreases applied@.len() - k,
        {
            let t = applied[k];
            if !holds(selected, t) {
                add_new(&mut r, t);
            }
            k = k + 1;
        }
        r
    }
}

} // verus!
