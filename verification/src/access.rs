//! The access index: the relation "user may open course", kept as an access
//! record per pair together with two lookup indices, one per user and one per
//! course.
//!
//! The durable store is authoritative. The cache in front of it is written
//! through on every change, so that a cache hit is as fresh as the last
//! write made through this module.

use vstd::prelude::*;
use crate::cache::{CacheValue, EphemeralCache};
use crate::error::Error;
use crate::ids::{append_id, clone_ids, id_seq, remove_id};
use crate::keys::DataKey;
use crate::model::{
    courses_key, courses_of, granted, list_memoized, mappings_cached, mappings_updated, pruned,
    seen_access, seen_list, sound, step, users_key, IndexState, Step, REVOKE_TTL,
    REVOKE_TTL_BUMP, TEMP_TTL, TTL_BUMP, TTL_TTL,
};
use crate::history::lemma_step_keeps_sound;
use crate::store::DurableStore;

verus! {

/// The courses that one user may open.
#[derive(Debug, PartialEq, Eq)]
pub struct UserCourses {
    pub user: String,
    pub courses: Vec<String>,
}

/// The users who may open one course.
#[derive(Debug, PartialEq, Eq)]
pub struct CourseUsers {
    pub course: String,
    pub users: Vec<String>,
}

/// The access index over an injected store and cache.
pub struct AccessIndex<S: DurableStore, C: EphemeralCache> {
    pub store: S,
    pub cache: C,
}

impl<S: DurableStore, C: EphemeralCache> AccessIndex<S, C> {
    /// An index over `store` and `cache`.
    pub fn new(store: S, cache: C) -> (index: Self)
        ensures
            index.store == store,
            index.cache == cache,
    {
        AccessIndex { store, cache }
    }

    /// Store and cache are usable.
    pub open spec fn inv(&self) -> bool {
        self.store.inv() && self.cache.inv()
    }

    /// What store and cache hold.
    pub open spec fn model(&self) -> IndexState {
        IndexState { store: self.store.state(), live: self.cache.live() }
    }
}

fn read_list<S: DurableStore, C: EphemeralCache>(
    index: &mut AccessIndex<S, C>,
    key: &DataKey,
) -> (list: Vec<String>)
    requires
        old(index).inv(),
    ensures
        final(index).inv(),
        id_seq(&list) == seen_list(old(index).model().store, old(index).model().live, key@),
        final(index).model() == (IndexState {
            live: list_memoized(old(index).model(), key@),
            ..old(index).model()
        }),
{
    match index.cache.read(key) {
        Some(CacheValue::Ids(list)) => list,
        _ => {
            let list = match index.store.get(key) {
                Some(stored) => stored,
                None => Vec::new(),
            };
            index.cache.write(key, CacheValue::Ids(clone_ids(&list)), TEMP_TTL);
            list
        },
    }
}

/// Whether `user` may open the course: the cached answer if an unexpired one
/// is there, else what the store holds, which is then cached for a short
/// time. In a sound index the answer is what the store holds.
pub fn has_course_access<S: DurableStore, C: EphemeralCache>(
    index: &mut AccessIndex<S, C>,
    course_id: &String,
    user: &String,
) -> (allowed: bool)
    requires
        old(index).inv(),
    ensures
        final(index).inv(),
        allowed == seen_access(
            old(index).model().store,
            old(index).model().live,
            course_id@,
            user@,
        ),
        final(index).model() == step(
            old(index).model(),
            Step::Check { course: course_id@, user: user@ },
        ),
        sound(old(index).model()) ==> sound(final(index).model()),
{
    let key = DataKey::access(course_id, user);
    match index.cache.read(&key) {
        Some(CacheValue::Flag(flag)) => flag,
        _ => {
            let allowed = index.store.has(&key);
            index.cache.write(&key, CacheValue::Flag(allowed), TEMP_TTL);
            allowed
        },
    }
}

/// The courses that `user` may open, read cache-first; the empty list if the
/// entry was never created. A miss caches the answer for a short time.
pub fn get_or_create_user_courses<S: DurableStore, C: EphemeralCache>(
    index: &mut AccessIndex<S, C>,
    user: &String,
) -> (entry: UserCourses)
    requires
        old(index).inv(),
    ensures
        final(index).inv(),
        entry.user@ == user@,
        id_seq(&entry.courses) == seen_list(
            old(index).model().store,
            old(index).model().live,
            courses_key(user@),
        ),
        final(index).model() == step(old(index).model(), Step::ReadCourses { user: user@ }),
        sound(old(index).model()) ==> sound(final(index).model()),
{
    let key = DataKey::user_courses(user);
    let courses = read_list(index, &key);
    UserCourses { user: user.clone(), courses }
}

/// The users who may open the course, read cache-first; the empty list if
/// the entry was never created. A miss caches the answer for a short time.
pub fn get_or_create_course_users<S: DurableStore, C: EphemeralCache>(
    index: &mut AccessIndex<S, C>,
    course_id: &String,
) -> (entry: CourseUsers)
    requires
        old(index).inv(),
    ensures
        final(index).inv(),
        entry.course@ == course_id@,
        id_seq(&entry.users) == seen_list(
            old(index).model().store,
            old(index).model().live,
            users_key(course_id@),
        ),
        final(index).model() == step(old(index).model(), Step::ReadUsers { course: course_id@ }),
        sound(old(index).model()) ==> sound(final(index).model()),
{
    let key = DataKey::course_users(course_id);
    let users = read_list(index, &key);
    CourseUsers { course: course_id.clone(), users }
}

/// The courses that `user` may open, as the store holds them; the empty list
/// if the entry was never created. The cache is neither read nor written.
pub fn list_user_courses<S: DurableStore, C: EphemeralCache>(
    index: &AccessIndex<S, C>,
    user: &String,
) -> (entry: UserCourses)
    requires
        index.inv(),
    ensures
        entry.user@ == user@,
        id_seq(&entry.courses) == courses_of(index.model().store, user@),
{
    let key = DataKey::user_courses(user);
    let courses = match index.store.get(&key) {
        Some(stored) => stored,
        None => Vec::new(),
    };
    UserCourses { user: user.clone(), courses }
}

/// Brings both indices up to date for the pair, in the store and in the
/// cache. With `add` the course joins the user's list and the user joins the
/// course's list, each unless already there; without it every occurrence of
/// either is removed. Both entries are written, their expiry is bumped, and
/// their cached copies are refreshed.
pub fn update_access_mappings<S: DurableStore, C: EphemeralCache>(
    index: &mut AccessIndex<S, C>,
    course_id: &String,
    user: &String,
    add: bool,
)
    requires
        old(index).inv(),
    ensures
        final(index).inv(),
        final(index).model().store == mappings_updated(
            old(index).model().store,
            course_id@,
            user@,
            add,
        ),
        final(index).model().live == mappings_cached(
            old(index).model().live,
            final(index).model().store,
            course_id@,
            user@,
        ),
{
    let courses_at = DataKey::user_courses(user);
    let users_at = DataKey::course_users(course_id);
    let held_courses = match index.store.get(&courses_at) {
        Some(stored) => stored,
        None => Vec::new(),
    };
    let held_users = match index.store.get(&users_at) {
        Some(stored) => stored,
        None => Vec::new(),
    };
    assert(id_seq(&held_courses) =~= courses_of(index.store.state(), user@));
    assert(id_seq(&held_users) =~= crate::model::users_of(index.store.state(), course_id@));
    let courses = if add {
        append_id(&held_courses, course_id)
    } else {
        remove_id(&held_courses, course_id)
    };
    let users = if add {
        append_id(&held_users, user)
    } else {
        remove_id(&held_users, user)
    };
    index.store.set(&courses_at, &courses);
    index.store.set(&users_at, &users);
    index.store.extend_ttl(&courses_at, TTL_BUMP, TTL_TTL);
    index.store.extend_ttl(&users_at, TTL_BUMP, TTL_TTL);
    index.cache.write(&courses_at, CacheValue::Ids(courses), TEMP_TTL);
    index.cache.write(&users_at, CacheValue::Ids(users), TEMP_TTL);
}

/// Grants `user` access to the course.
///
/// Fails with [`Error::AlreadyGranted`] exactly when the store already holds
/// an access record for the pair; nothing is written then. Otherwise the
/// record is written, the course is appended to the user's list and the user
/// to the course's list, the expiry of all three entries is bumped, and the
/// three cached copies are refreshed.
pub fn grant_access<S: DurableStore, C: EphemeralCache>(
    index: &mut AccessIndex<S, C>,
    course_id: &String,
    user: &String,
) -> (outcome: Result<(), Error>)
    requires
        old(index).inv(),
    ensures
        final(index).inv(),
        outcome == if granted(old(index).model().store, course_id@, user@) {
            Err::<(), Error>(Error::AlreadyGranted)
        } else {
            Ok::<(), Error>(())
        },
        final(index).model() == step(
            old(index).model(),
            Step::Grant { course: course_id@, user: user@ },
        ),
        sound(old(index).model()) ==> sound(final(index).model()),
{
    proof {
        if sound(old(index).model()) {
            lemma_step_keeps_sound(
                old(index).model(),
                Step::Grant { course: course_id@, user: user@ },
            );
        }
    }
    let key = DataKey::access(course_id, user);
    if index.store.has(&key) {
        return Err(Error::AlreadyGranted);
    }
    let mut record: Vec<String> = Vec::new();
    record.push(course_id.clone());
    record.push(user.clone());
    assert(id_seq(&record) =~= seq![course_id@, user@]);
    index.store.set(&key, &record);
    index.store.extend_ttl(&key, TTL_BUMP, TTL_TTL);
    update_access_mappings(index, course_id, user, true);
    index.cache.write(&key, CacheValue::Flag(true), TEMP_TTL);
    Ok(())
}

fn prune<S: DurableStore, C: EphemeralCache>(
    index: &mut AccessIndex<S, C>,
    key: &DataKey,
    id: &String,
)
    requires
        old(index).inv(),
    ensures
        final(index).inv(),
        final(index).model().store == pruned(old(index).model().store, key@, id@),
        final(index).model().live == old(index).model().live,
{
    match index.store.get(key) {
        Some(held) => {
            let kept = remove_id(&held, id);
            index.store.set(key, &kept);
            index.store.extend_ttl(key, REVOKE_TTL_BUMP, REVOKE_TTL);
        },
        None => {},
    }
}

/// Revokes the access of `user` to the course.
///
/// Returns `false`, and writes nothing, exactly when the store holds no
/// access record for the pair. Otherwise the record is removed, the course
/// is taken out of the user's list and the user out of the course's list,
/// the expiry of both index entries is bumped, the three cached copies are
/// dropped, and `true` is returned.
pub fn revoke_access<S: DurableStore, C: EphemeralCache>(
    index: &mut AccessIndex<S, C>,
    course_id: &String,
    user: &String,
) -> (revoked: bool)
    requires
        old(index).inv(),
    ensures
        final(index).inv(),
        revoked == granted(old(index).model().store, course_id@, user@),
        final(index).model() == step(
            old(index).model(),
            Step::Revoke { course: course_id@, user: user@ },
        ),
        sound(old(index).model()) ==> sound(final(index).model()),
{
    proof {
        if sound(old(index).model()) {
            lemma_step_keeps_sound(
                old(index).model(),
                Step::Revoke { course: course_id@, user: user@ },
            );
        }
    }
    let key = DataKey::access(course_id, user);
    if !index.store.has(&key) {
        return false;
    }
    let courses_at = DataKey::user_courses(user);
    let users_at = DataKey::course_users(course_id);
    index.store.remove(&key);
    prune(index, &courses_at, course_id);
    prune(index, &users_at, user);
    index.cache.invalidate(&key);
    index.cache.invalidate(&courses_at);
    index.cache.invalidate(&users_at);
    true
}

/// Drops the cached user list of the course. The store is left alone, so no
/// later read changes its answer in a sound index.
pub fn invalidate_course_access_cache<S: DurableStore, C: EphemeralCache>(
    index: &mut AccessIndex<S, C>,
    course_id: &String,
)
    requires
        old(index).inv(),
    ensures
        final(index).inv(),
        final(index).model() == step(
            old(index).model(),
            Step::Evict { key: users_key(course_id@) },
        ),
        sound(old(index).model()) ==> sound(final(index).model()),
{
    let key = DataKey::course_users(course_id);
    index.cache.invalidate(&key);
}

/// Drops the cached course list of the user. The store is left alone, so no
/// later read changes its answer in a sound index.
pub fn invalidate_user_access_cache<S: DurableStore, C: EphemeralCache>(
    index: &mut AccessIndex<S, C>,
    user: &String,
)
    requires
        old(index).inv(),
    ensures
        final(index).inv(),
        final(index).model() == step(old(index).model(), Step::Evict { key: courses_key(user@) }),
        sound(old(index).model()) ==> sound(final(index).model()),
{
    let key = DataKey::user_courses(user);
    index.cache.invalidate(&key);
}

} // verus!
