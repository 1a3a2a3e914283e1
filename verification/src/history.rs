//! Histories of the access index: what holds after any sequence of
//! operations, whatever the cache happened to keep or lose in between.

use vstd::prelude::*;
use crate::cache::CacheEntry;
use crate::ids::Id;
use crate::keys::KeyView;
use crate::model::{
    blank, coherent, courses_key, granted, lemma_grant_keeps_consistent,
    lemma_revoke_keeps_consistent, run, seen_access, seen_list, sound, step, users_key,
    IndexState, Step,
};
use crate::store::StoreState;

verus! {

/// A blank index is sound.
pub proof fn lemma_blank_is_sound(initial_ttl: nat)
    ensures
        sound(blank(initial_ttl)),
{
}

/// No step breaks soundness.
pub proof fn lemma_step_keeps_sound(st: IndexState, s: Step)
    requires
        sound(st),
    ensures
        sound(step(st, s)),
{
    match s {
        Step::Grant { course, user } => {
            if !granted(st.store, course, user) {
                lemma_grant_keeps_consistent(st.store, course, user);
            }
        },
        Step::Revoke { course, user } => {
            if granted(st.store, course, user) {
                lemma_revoke_keeps_consistent(st.store, course, user);
            }
        },
        _ => {},
    }
}

/// Bidirectional consistency over histories: after any sequence of grants,
/// revocations, reads, evictions and passing time, starting from a sound
/// index, the index is sound again.
pub proof fn lemma_run_keeps_sound(st: IndexState, steps: Seq<Step>)
    requires
        sound(st),
    ensures
        sound(run(st, steps)),
    decreases steps.len(),
{
    if steps.len() > 0 {
        lemma_run_keeps_sound(st, steps.drop_last());
        lemma_step_keeps_sound(run(st, steps.drop_last()), steps.last());
    }
}

/// In a sound index the three reads agree on every pair: the access check
/// says yes exactly when the user is in the course's user list, and exactly
/// when the course is in the user's course list.
pub proof fn lemma_reads_agree(st: IndexState, course: Id, user: Id)
    requires
        sound(st),
    ensures
        seen_access(st.store, st.live, course, user) == seen_list(
            st.store,
            st.live,
            users_key(course),
        ).contains(user),
        seen_access(st.store, st.live, course, user) == seen_list(
            st.store,
            st.live,
            courses_key(user),
        ).contains(course),
        seen_access(st.store, st.live, course, user) == granted(st.store, course, user),
{
}

/// After any history that starts from a blank index, the three reads agree
/// on every pair.
pub proof fn lemma_history_reads_agree(
    initial_ttl: nat,
    steps: Seq<Step>,
    course: Id,
    user: Id,
)
    ensures
        ({
            let st = run(blank(initial_ttl), steps);
            &&& seen_access(st.store, st.live, course, user) == seen_list(
                st.store,
                st.live,
                users_key(course),
            ).contains(user)
            &&& seen_access(st.store, st.live, course, user) == seen_list(
                st.store,
                st.live,
                courses_key(user),
            ).contains(course)
        }),
{
    lemma_run_keeps_sound(blank(initial_ttl), steps);
}

/// Granting is strict: a second grant of the same pair changes nothing.
pub proof fn lemma_grant_twice(st: IndexState, course: Id, user: Id)
    ensures
        granted(step(st, Step::Grant { course, user }).store, course, user),
        step(step(st, Step::Grant { course, user }), Step::Grant { course, user }) == step(
            st,
            Step::Grant { course, user },
        ),
{
}

/// Revoking is idempotent: after a revocation the pair has no record, so a
/// second revocation finds nothing to remove and changes nothing.
pub proof fn lemma_revoke_twice(st: IndexState, course: Id, user: Id)
    ensures
        !granted(step(st, Step::Revoke { course, user }).store, course, user),
        step(step(st, Step::Revoke { course, user }), Step::Revoke { course, user }) == step(
            st,
            Step::Revoke { course, user },
        ),
{
}

/// Cache transparency: in an index whose cached copies are fresh, a cache
/// that has lost any of its entries gives the same answer to every read.
pub proof fn lemma_eviction_is_invisible(
    s: StoreState,
    live: Map<KeyView, CacheEntry>,
    thinned: Map<KeyView, CacheEntry>,
    course: Id,
    user: Id,
)
    requires
        coherent(s, live),
        forall|key: KeyView| #[trigger]
            thinned.contains_key(key) ==> live.contains_key(key) && thinned[key].value
                == live[key].value,
    ensures
        coherent(s, thinned),
        seen_access(s, thinned, course, user) == seen_access(s, live, course, user),
        seen_list(s, thinned, courses_key(user)) == seen_list(s, live, courses_key(user)),
        seen_list(s, thinned, users_key(course)) == seen_list(s, live, users_key(course)),
{
}

/// Cache transparency over histories: a write followed by a read gives the
/// read the same answer whether or not the cache was emptied in between.
pub proof fn lemma_read_after_write_ignores_eviction(
    st: IndexState,
    write: Step,
    course: Id,
    user: Id,
)
    requires
        sound(st),
        write is Grant || write is Revoke,
    ensures
        ({
            let kept = step(st, write);
            let lost = IndexState { live: Map::<KeyView, CacheEntry>::empty(), ..kept };
            &&& seen_access(lost.store, lost.live, course, user) == seen_access(
                kept.store,
                kept.live,
                course,
                user,
            )
            &&& seen_list(lost.store, lost.live, courses_key(user)) == seen_list(
                kept.store,
                kept.live,
                courses_key(user),
            )
            &&& seen_list(lost.store, lost.live, users_key(course)) == seen_list(
                kept.store,
                kept.live,
                users_key(course),
            )
        }),
{
}

} // verus!
