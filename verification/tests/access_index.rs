use skillcert::access::{
    get_or_create_course_users, get_or_create_user_courses, grant_access, has_course_access,
    invalidate_course_access_cache, invalidate_user_access_cache, list_user_courses,
    revoke_access, update_access_mappings, AccessIndex, UserCourses,
};
use skillcert::cache::{CacheValue, EphemeralCache, MemoryCache};
use skillcert::error::Error;
use skillcert::keys::DataKey;
use skillcert::model::{TEMP_TTL, TTL_BUMP, TTL_TTL};
use skillcert::store::{DurableStore, MemoryStore};

fn s(text: &str) -> String {
    text.to_string()
}

fn fresh_index() -> AccessIndex<MemoryStore, MemoryCache> {
    AccessIndex::new(MemoryStore::new(16), MemoryCache::new())
}

#[test]
fn test_list_user_courses() {
    let mut index = fresh_index();
    let user = s("GUSER");
    let course_id = s("test_course_123");
    let courses = vec![course_id.clone()];
    let user_courses = UserCourses { user: user.clone(), courses: courses.clone() };

    index.store.set(&DataKey::user_courses(&user), &courses);
    let result = list_user_courses(&index, &user);
    assert_eq!(result, user_courses);
}

#[test]
fn list_user_courses_defaults_to_empty() {
    let index = fresh_index();
    let result = list_user_courses(&index, &s("nobody"));
    assert_eq!(result, UserCourses { user: s("nobody"), courses: vec![] });
}

#[test]
fn grant_then_read_back() {
    let mut index = fresh_index();
    assert_eq!(grant_access(&mut index, &s("c1"), &s("u1")), Ok(()));
    assert!(has_course_access(&mut index, &s("c1"), &s("u1")));
    assert_eq!(get_or_create_user_courses(&mut index, &s("u1")).courses, vec![s("c1")]);
    assert_eq!(get_or_create_course_users(&mut index, &s("c1")).users, vec![s("u1")]);
    assert_eq!(list_user_courses(&index, &s("u1")).courses, vec![s("c1")]);
}

#[test]
fn grant_is_strict() {
    let mut index = fresh_index();
    assert_eq!(grant_access(&mut index, &s("c1"), &s("u1")), Ok(()));
    assert_eq!(grant_access(&mut index, &s("c1"), &s("u1")), Err(Error::AlreadyGranted));
    assert_eq!(get_or_create_user_courses(&mut index, &s("u1")).courses, vec![s("c1")]);
    assert_eq!(get_or_create_course_users(&mut index, &s("c1")).users, vec![s("u1")]);
    assert!(has_course_access(&mut index, &s("c1"), &s("u1")));
}

#[test]
fn revoke_without_grant_changes_nothing() {
    let mut index = fresh_index();
    assert_eq!(grant_access(&mut index, &s("c1"), &s("u1")), Ok(()));
    assert!(!revoke_access(&mut index, &s("c1"), &s("u2")));
    assert!(has_course_access(&mut index, &s("c1"), &s("u1")));
    assert!(!has_course_access(&mut index, &s("c1"), &s("u2")));
    assert_eq!(get_or_create_course_users(&mut index, &s("c1")).users, vec![s("u1")]);
    assert_eq!(get_or_create_user_courses(&mut index, &s("u2")).courses, Vec::<String>::new());
}

#[test]
fn revoke_twice_in_a_row() {
    let mut index = fresh_index();
    assert_eq!(grant_access(&mut index, &s("c1"), &s("u1")), Ok(()));
    assert!(revoke_access(&mut index, &s("c1"), &s("u1")));
    assert!(!revoke_access(&mut index, &s("c1"), &s("u1")));
    assert!(!has_course_access(&mut index, &s("c1"), &s("u1")));
    assert_eq!(get_or_create_user_courses(&mut index, &s("u1")).courses, Vec::<String>::new());
    assert_eq!(get_or_create_course_users(&mut index, &s("c1")).users, Vec::<String>::new());
}

#[test]
fn reads_agree_after_mixed_history() {
    let mut index = fresh_index();
    let courses = ["c1", "c2", "c3"];
    let users = ["u1", "u2", "u3"];
    assert_eq!(grant_access(&mut index, &s("c1"), &s("u1")), Ok(()));
    assert_eq!(grant_access(&mut index, &s("c1"), &s("u2")), Ok(()));
    assert_eq!(grant_access(&mut index, &s("c2"), &s("u1")), Ok(()));
    assert_eq!(grant_access(&mut index, &s("c3"), &s("u3")), Ok(()));
    assert!(revoke_access(&mut index, &s("c1"), &s("u1")));
    assert_eq!(grant_access(&mut index, &s("c2"), &s("u3")), Ok(()));
    assert!(revoke_access(&mut index, &s("c3"), &s("u3")));
    assert_eq!(grant_access(&mut index, &s("c1"), &s("u1")), Ok(()));
    for c in courses {
        for u in users {
            let allowed = has_course_access(&mut index, &s(c), &s(u));
            let in_users = get_or_create_course_users(&mut index, &s(c)).users.contains(&s(u));
            let in_courses = get_or_create_user_courses(&mut index, &s(u)).courses.contains(&s(c));
            assert_eq!(allowed, in_users);
            assert_eq!(allowed, in_courses);
        }
    }
    assert_eq!(get_or_create_course_users(&mut index, &s("c1")).users, vec![s("u2"), s("u1")]);
    assert_eq!(get_or_create_user_courses(&mut index, &s("u1")).courses, vec![s("c2"), s("c1")]);
    assert_eq!(get_or_create_user_courses(&mut index, &s("u3")).courses, vec![s("c2")]);
}

#[test]
fn eviction_between_write_and_read_is_invisible() {
    let mut kept = fresh_index();
    let mut lost = fresh_index();
    for index in [&mut kept, &mut lost] {
        assert_eq!(grant_access(index, &s("c1"), &s("u1")), Ok(()));
        assert_eq!(grant_access(index, &s("c1"), &s("u2")), Ok(()));
        assert!(revoke_access(index, &s("c1"), &s("u1")));
    }
    lost.cache.clear();
    invalidate_user_access_cache(&mut lost, &s("u2"));
    invalidate_course_access_cache(&mut lost, &s("c1"));
    for u in ["u1", "u2", "u3"] {
        assert_eq!(
            has_course_access(&mut kept, &s("c1"), &s(u)),
            has_course_access(&mut lost, &s("c1"), &s(u))
        );
        assert_eq!(
            get_or_create_user_courses(&mut kept, &s(u)),
            get_or_create_user_courses(&mut lost, &s(u))
        );
    }
    assert_eq!(
        get_or_create_course_users(&mut kept, &s("c1")),
        get_or_create_course_users(&mut lost, &s("c1"))
    );
}

#[test]
fn cache_entry_expires_after_its_ttl() {
    let mut cache = MemoryCache::new();
    let key = DataKey::access(&s("c1"), &s("u1"));
    cache.write(&key, CacheValue::Flag(true), TEMP_TTL);
    cache.advance(TEMP_TTL - 1);
    assert!(matches!(cache.read(&key), Some(CacheValue::Flag(true))));
    cache.advance(1);
    assert!(cache.read(&key).is_none());
}

#[test]
fn cache_write_resets_expiry_and_invalidate_removes() {
    let mut cache = MemoryCache::new();
    let key = DataKey::user_courses(&s("u1"));
    cache.write(&key, CacheValue::Ids(vec![s("c1")]), 10);
    cache.advance(9);
    cache.write(&key, CacheValue::Ids(vec![s("c1"), s("c2")]), 10);
    cache.advance(9);
    match cache.read(&key) {
        Some(CacheValue::Ids(list)) => assert_eq!(list, vec![s("c1"), s("c2")]),
        other => panic!("unexpected cache content: {:?}", other),
    }
    cache.invalidate(&key);
    assert!(cache.read(&key).is_none());
    cache.write(&key, CacheValue::Flag(false), 0);
    assert!(cache.read(&key).is_none());
}

#[test]
fn stale_cache_is_served_until_invalidated() {
    let mut index = fresh_index();
    assert_eq!(get_or_create_user_courses(&mut index, &s("u1")).courses, Vec::<String>::new());
    // A write that bypasses the index leaves the cached copy stale.
    index.store.set(&DataKey::user_courses(&s("u1")), &vec![s("c9")]);
    assert_eq!(get_or_create_user_courses(&mut index, &s("u1")).courses, Vec::<String>::new());
    invalidate_user_access_cache(&mut index, &s("u1"));
    assert_eq!(get_or_create_user_courses(&mut index, &s("u1")).courses, vec![s("c9")]);
}

#[test]
fn has_access_caches_a_negative_answer_for_a_short_time() {
    let mut index = fresh_index();
    assert!(!has_course_access(&mut index, &s("c1"), &s("u1")));
    let key = DataKey::access(&s("c1"), &s("u1"));
    assert!(matches!(index.cache.read(&key), Some(CacheValue::Flag(false))));
    index.cache.advance(TEMP_TTL);
    assert!(index.cache.read(&key).is_none());
    assert_eq!(grant_access(&mut index, &s("c1"), &s("u1")), Ok(()));
    assert!(matches!(index.cache.read(&key), Some(CacheValue::Flag(true))));
}

#[test]
fn update_access_mappings_adds_once_and_removes_all() {
    let mut index = fresh_index();
    update_access_mappings(&mut index, &s("c1"), &s("u1"), true);
    update_access_mappings(&mut index, &s("c1"), &s("u1"), true);
    update_access_mappings(&mut index, &s("c2"), &s("u1"), true);
    assert_eq!(list_user_courses(&index, &s("u1")).courses, vec![s("c1"), s("c2")]);
    update_access_mappings(&mut index, &s("c1"), &s("u1"), false);
    assert_eq!(list_user_courses(&index, &s("u1")).courses, vec![s("c2")]);
    assert_eq!(get_or_create_course_users(&mut index, &s("c1")).users, Vec::<String>::new());
    assert_eq!(get_or_create_course_users(&mut index, &s("c2")).users, vec![s("u1")]);
}

#[test]
fn durable_entries_expire_unless_bumped() {
    let mut store = MemoryStore::new(16);
    let plain = DataKey::prerequisites(&s("c1"));
    let bumped = DataKey::prerequisites(&s("c2"));
    store.set(&plain, &vec![s("c3")]);
    store.set(&bumped, &vec![s("c4")]);
    store.extend_ttl(&bumped, TTL_BUMP, TTL_TTL);
    store.advance(16);
    assert_eq!(store.get(&plain), Some(vec![s("c3")]));
    store.advance(1);
    assert_eq!(store.get(&plain), None);
    assert!(!store.has(&plain));
    assert_eq!(store.get(&bumped), Some(vec![s("c4")]));
    store.advance(TTL_TTL - 17);
    assert!(store.has(&bumped));
    store.advance(1);
    assert!(!store.has(&bumped));
}

#[test]
fn bump_leaves_a_long_lived_entry_alone() {
    let mut store = MemoryStore::new(500);
    let key = DataKey::course_users(&s("c1"));
    store.set(&key, &vec![s("u1")]);
    store.extend_ttl(&key, 100, 1000);
    store.advance(500);
    assert!(store.has(&key));
    store.advance(1);
    assert!(!store.has(&key));
}

#[test]
fn granted_entries_outlive_the_initial_lifetime() {
    let mut index = fresh_index();
    assert_eq!(grant_access(&mut index, &s("c1"), &s("u1")), Ok(()));
    index.store.advance(TTL_TTL);
    index.cache.clear();
    assert!(has_course_access(&mut index, &s("c1"), &s("u1")));
    assert_eq!(list_user_courses(&index, &s("u1")).courses, vec![s("c1")]);
    index.store.advance(1);
    index.cache.clear();
    assert!(!has_course_access(&mut index, &s("c1"), &s("u1")));
}

#[test]
fn store_remove_and_overwrite() {
    let mut store = MemoryStore::new(1);
    let a = DataKey::user_courses(&s("u1"));
    let b = DataKey::course_users(&s("u1"));
    store.set(&a, &vec![s("x")]);
    store.set(&b, &vec![s("y")]);
    store.set(&a, &vec![s("z")]);
    assert_eq!(store.get(&a), Some(vec![s("z")]));
    assert_eq!(store.get(&b), Some(vec![s("y")]));
    store.remove(&a);
    assert_eq!(store.get(&a), None);
    assert_eq!(store.get(&b), Some(vec![s("y")]));
    store.remove(&a);
    assert!(store.has(&b));
}
