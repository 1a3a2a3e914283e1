//! The access index as contracts see it: what the store and the cache hold,
//! what it means for them to agree, and how each operation changes them.

use vstd::prelude::*;
use crate::cache::{live_later, CacheEntry, CachedView};
use crate::ids::{
    lemma_with_id_unique, lemma_without_members, lemma_without_unique, with_id, without, Id,
};
use crate::keys::KeyView;
use crate::storage_utils::{
    DEFAULT_PERSISTENT_TTL, DEFAULT_PERSISTENT_TTL_BUMP, DEFAULT_TEMP_TTL,
};
use crate::store::{Entry, StoreState};

verus! {

/// Ledgers for which a cached copy stays readable.
pub const TEMP_TTL: u32 = DEFAULT_TEMP_TTL;

/// A granted entry with fewer ledgers left than this has its expiry bumped.
pub const TTL_BUMP: u32 = DEFAULT_PERSISTENT_TTL_BUMP;

/// The lifetime that a bump on grant extends an entry to.
pub const TTL_TTL: u32 = DEFAULT_PERSISTENT_TTL;

/// An index entry with fewer ledgers left than this is bumped on revoke.
pub const REVOKE_TTL_BUMP: u32 = 100;

/// The lifetime that a bump on revoke extends an index entry to.
pub const REVOKE_TTL: u32 = 1000;

/// The key of the access record of `user` for `course`.
pub open spec fn access_key(course: Id, user: Id) -> KeyView {
    KeyView::CourseAccess(course, user)
}

/// The key of the course list of `user`.
pub open spec fn courses_key(user: Id) -> KeyView {
    KeyView::UserCourses(user)
}

/// The key of the user list of `course`.
pub open spec fn users_key(course: Id) -> KeyView {
    KeyView::CourseUsers(course)
}

/// Whether the store holds an access record for the pair.
pub open spec fn granted(s: StoreState, course: Id, user: Id) -> bool {
    s.holds(access_key(course, user))
}

/// The stored course list of `user`; empty if it was never created.
pub open spec fn courses_of(s: StoreState, user: Id) -> Seq<Id> {
    s.list(courses_key(user))
}

/// The stored user list of `course`; empty if it was never created.
pub open spec fn users_of(s: StoreState, course: Id) -> Seq<Id> {
    s.list(users_key(course))
}

/// The record and the two indices agree, and no index entry repeats a name.
pub open spec fn consistent(s: StoreState) -> bool {
    &&& forall|course: Id, user: Id| #[trigger]
        granted(s, course, user) <==> courses_of(s, user).contains(course)
    &&& forall|course: Id, user: Id| #[trigger]
        granted(s, course, user) <==> users_of(s, course).contains(user)
    &&& forall|user: Id| (#[trigger] courses_of(s, user)).no_duplicates()
    &&& forall|course: Id| (#[trigger] users_of(s, course)).no_duplicates()
}

/// What a cached copy under `key` has to be in order to be fresh.
pub open spec fn fresh(s: StoreState, key: KeyView) -> CachedView {
    match key {
        KeyView::CourseAccess(course, user) => CachedView::Flag(granted(s, course, user)),
        _ => CachedView::Ids(s.list(key)),
    }
}

/// Every unexpired cache entry is a fresh copy of what the store holds.
pub open spec fn coherent(s: StoreState, live: Map<KeyView, CacheEntry>) -> bool {
    forall|key: KeyView| #[trigger] live.contains_key(key) ==> live[key].value == fresh(s, key)
}

/// The cached flag under `key`, if an unexpired one is there.
pub open spec fn cached_flag(live: Map<KeyView, CacheEntry>, key: KeyView) -> Option<bool> {
    if live.contains_key(key) {
        match live[key].value {
            CachedView::Flag(flag) => Some(flag),
            CachedView::Ids(_) => None,
        }
    } else {
        None
    }
}

/// The cached list under `key`, if an unexpired one is there.
pub open spec fn cached_ids(live: Map<KeyView, CacheEntry>, key: KeyView) -> Option<Seq<Id>> {
    if live.contains_key(key) {
        match live[key].value {
            CachedView::Flag(_) => None,
            CachedView::Ids(list) => Some(list),
        }
    } else {
        None
    }
}

/// The cache after `value` is stored under `key` for the short lifetime.
pub open spec fn memo(live: Map<KeyView, CacheEntry>, key: KeyView, value: CachedView) -> Map<
    KeyView,
    CacheEntry,
> {
    live.insert(key, CacheEntry { value, ttl: TEMP_TTL as nat })
}

/// The answer of a cache-first access check.
pub open spec fn seen_access(
    s: StoreState,
    live: Map<KeyView, CacheEntry>,
    course: Id,
    user: Id,
) -> bool {
    match cached_flag(live, access_key(course, user)) {
        Some(flag) => flag,
        None => granted(s, course, user),
    }
}

/// The answer of a cache-first read of the list under `key`.
pub open spec fn seen_list(s: StoreState, live: Map<KeyView, CacheEntry>, key: KeyView) -> Seq<Id> {
    match cached_ids(live, key) {
        Some(list) => list,
        None => s.list(key),
    }
}

/// The store after both indices are updated for the pair: with `add` the
/// names are appended where absent, without it every occurrence is removed.
/// Either way both entries are written and their expiry bumped.
pub open spec fn mappings_updated(s: StoreState, course: Id, user: Id, add: bool) -> StoreState {
    let courses = if add {
        with_id(courses_of(s, user), course)
    } else {
        without(courses_of(s, user), course)
    };
    let users = if add {
        with_id(users_of(s, course), user)
    } else {
        without(users_of(s, course), user)
    };
    s.set(courses_key(user), courses).set(users_key(course), users).extend(
        courses_key(user),
        TTL_BUMP as nat,
        TTL_TTL as nat,
    ).extend(users_key(course), TTL_BUMP as nat, TTL_TTL as nat)
}

/// The cache after both index copies are refreshed for the pair.
pub open spec fn mappings_cached(
    live: Map<KeyView, CacheEntry>,
    after: StoreState,
    course: Id,
    user: Id,
) -> Map<KeyView, CacheEntry> {
    memo(
        memo(live, courses_key(user), CachedView::Ids(courses_of(after, user))),
        users_key(course),
        CachedView::Ids(users_of(after, course)),
    )
}

/// The store after access is granted to a pair that had none.
pub open spec fn after_grant(s: StoreState, course: Id, user: Id) -> StoreState {
    mappings_updated(
        s.set(access_key(course, user), seq![course, user]).extend(
            access_key(course, user),
            TTL_BUMP as nat,
            TTL_TTL as nat,
        ),
        course,
        user,
        true,
    )
}

/// The cache after access is granted: the three copies are refreshed.
pub open spec fn cache_after_grant(
    live: Map<KeyView, CacheEntry>,
    after: StoreState,
    course: Id,
    user: Id,
) -> Map<KeyView, CacheEntry> {
    memo(
        mappings_cached(live, after, course, user),
        access_key(course, user),
        CachedView::Flag(true),
    )
}

/// The store after `id` is taken out of the index entry under `key`, if that
/// entry exists: the entry is rewritten and its expiry bumped.
pub open spec fn pruned(s: StoreState, key: KeyView, id: Id) -> StoreState {
    if s.holds(key) {
        s.set(key, without(s.list(key), id)).extend(
            key,
            REVOKE_TTL_BUMP as nat,
            REVOKE_TTL as nat,
        )
    } else {
        s
    }
}

/// The store after the access of a pair is revoked.
pub open spec fn after_revoke(s: StoreState, course: Id, user: Id) -> StoreState {
    pruned(
        pruned(s.remove(access_key(course, user)), courses_key(user), course),
        users_key(course),
        user,
    )
}

/// The cache after the access of a pair is revoked: the three copies are gone.
pub open spec fn cache_after_revoke(live: Map<KeyView, CacheEntry>, course: Id, user: Id) -> Map<
    KeyView,
    CacheEntry,
> {
    live.remove(access_key(course, user)).remove(courses_key(user)).remove(users_key(course))
}

/// Store and cache of an access index, as contracts see them.
pub struct IndexState {
    pub store: StoreState,
    pub live: Map<KeyView, CacheEntry>,
}

/// One thing that can happen to an access index.
pub enum Step {
    /// A call to grant access.
    Grant { course: Id, user: Id },
    /// A call to revoke access.
    Revoke { course: Id, user: Id },
    /// A cache-first access check.
    Check { course: Id, user: Id },
    /// A cache-first read of a user's course list.
    ReadCourses { user: Id },
    /// A cache-first read of a course's user list.
    ReadUsers { course: Id },
    /// The cache loses the entry under a key.
    Evict { key: KeyView },
    /// Time passes for the cache.
    Age { ledgers: nat },
}

/// The cache after a cache-first read of the list under `key`.
pub open spec fn list_memoized(st: IndexState, key: KeyView) -> Map<KeyView, CacheEntry> {
    if cached_ids(st.live, key) is Some {
        st.live
    } else {
        memo(st.live, key, CachedView::Ids(st.store.list(key)))
    }
}

/// The index after one step.
pub open spec fn step(st: IndexState, step: Step) -> IndexState {
    match step {
        Step::Grant { course, user } => if granted(st.store, course, user) {
            st
        } else {
            IndexState {
                store: after_grant(st.store, course, user),
                live: cache_after_grant(st.live, after_grant(st.store, course, user), course, user),
            }
        },
        Step::Revoke { course, user } => if granted(st.store, course, user) {
            IndexState {
                store: after_revoke(st.store, course, user),
                live: cache_after_revoke(st.live, course, user),
            }
        } else {
            st
        },
        Step::Check { course, user } => IndexState {
            live: if cached_flag(st.live, access_key(course, user)) is Some {
                st.live
            } else {
                memo(
                    st.live,
                    access_key(course, user),
                    CachedView::Flag(granted(st.store, course, user)),
                )
            },
            ..st
        },
        Step::ReadCourses { user } => IndexState { live: list_memoized(st, courses_key(user)), ..st },
        Step::ReadUsers { course } => IndexState { live: list_memoized(st, users_key(course)), ..st },
        Step::Evict { key } => IndexState { live: st.live.remove(key), ..st },
        Step::Age { ledgers } => IndexState { live: live_later(st.live, ledgers), ..st },
    }
}

/// The index after `steps`, taken in order.
pub open spec fn run(st: IndexState, steps: Seq<Step>) -> IndexState
    decreases steps.len(),
{
    if steps.len() == 0 {
        st
    } else {
        step(run(st, steps.drop_last()), steps.last())
    }
}

/// An index that holds nothing and has cached nothing.
pub open spec fn blank(initial_ttl: nat) -> IndexState {
    IndexState {
        store: StoreState { entries: Map::<KeyView, Entry>::empty(), initial_ttl },
        live: Map::<KeyView, CacheEntry>::empty(),
    }
}

/// Record and indices agree, and every cached copy is fresh.
pub open spec fn sound(st: IndexState) -> bool {
    consistent(st.store) && coherent(st.store, st.live)
}

/// How granting changes what the store says about every pair and every list.
pub proof fn lemma_after_grant(s: StoreState, course: Id, user: Id)
    ensures
        forall|c: Id, u: Id| #[trigger]
            granted(after_grant(s, course, user), c, u) <==> granted(s, c, u) || (c == course && u
                == user),
        forall|u: Id| #[trigger]
            courses_of(after_grant(s, course, user), u) == if u == user {
                with_id(courses_of(s, user), course)
            } else {
                courses_of(s, u)
            },
        forall|c: Id| #[trigger]
            users_of(after_grant(s, course, user), c) == if c == course {
                with_id(users_of(s, course), user)
            } else {
                users_of(s, c)
            },
        forall|key: KeyView|
            key != access_key(course, user) && key != courses_key(user) && key != users_key(course)
                ==> (#[trigger] after_grant(s, course, user).holds(key)) == s.holds(key) && after_grant(
                s,
                course,
                user,
            ).list(key) == s.list(key),
{
}

/// How revoking changes what the store says about every pair and every list.
pub proof fn lemma_after_revoke(s: StoreState, course: Id, user: Id)
    ensures
        forall|c: Id, u: Id| #[trigger]
            granted(after_revoke(s, course, user), c, u) <==> granted(s, c, u) && !(c == course
                && u == user),
        forall|u: Id| #[trigger]
            courses_of(after_revoke(s, course, user), u) == if u == user {
                without(courses_of(s, user), course)
            } else {
                courses_of(s, u)
            },
        forall|c: Id| #[trigger]
            users_of(after_revoke(s, course, user), c) == if c == course {
                without(users_of(s, course), user)
            } else {
                users_of(s, c)
            },
        forall|key: KeyView|
            key != access_key(course, user) && key != courses_key(user) && key != users_key(course)
                ==> (#[trigger] after_revoke(s, course, user).holds(key)) == s.holds(key)
                && after_revoke(s, course, user).list(key) == s.list(key),
{
}

/// Granting access to a pair that has none keeps record and indices in agreement.
pub proof fn lemma_grant_keeps_consistent(s: StoreState, course: Id, user: Id)
    requires
        consistent(s),
        !granted(s, course, user),
    ensures
        consistent(after_grant(s, course, user)),
{
    lemma_after_grant(s, course, user);
    lemma_with_id_unique(courses_of(s, user), course);
    lemma_with_id_unique(users_of(s, course), user);
}

/// Revoking keeps record and indices in agreement.
pub proof fn lemma_revoke_keeps_consistent(s: StoreState, course: Id, user: Id)
    requires
        consistent(s),
    ensures
        consistent(after_revoke(s, course, user)),
{
    lemma_after_revoke(s, course, user);
    lemma_without_members(courses_of(s, user), course);
    lemma_without_members(users_of(s, course), user);
    lemma_without_unique(courses_of(s, user), course);
    lemma_without_unique(users_of(s, course), user);
}

/// Writing the three copies through keeps the cache fresh across a grant.
pub proof fn lemma_grant_keeps_coherent(
    s: StoreState,
    live: Map<KeyView, CacheEntry>,
    course: Id,
    user: Id,
)
    requires
        coherent(s, live),
    ensures
        coherent(
            after_grant(s, course, user),
            cache_after_grant(live, after_grant(s, course, user), course, user),
        ),
{
}

/// Dropping the three copies keeps the cache fresh across a revoke.
pub proof fn lemma_revoke_keeps_coherent(
    s: StoreState,
    live: Map<KeyView, CacheEntry>,
    course: Id,
    user: Id,
)
    requires
        coherent(s, live),
    ensures
        coherent(after_revoke(s, course, user), cache_after_revoke(live, course, user)),
{
}

} // verus!
