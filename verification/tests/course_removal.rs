use skillcert::catalog::{CourseCatalog, CourseDirectory, CourseRecords};
use skillcert::gate::Caller;
use skillcert::registry::{
    delete_course, delete_course_modules, first_module_id, u32_to_string, RegistryError,
    MAX_LOOP_GUARD,
};
use skillcert::storage_utils::{
    course_key, is_email_unique, mapping_key_address_string, register_email, user_key,
    DEFAULT_PERSISTENT_TTL, DEFAULT_PERSISTENT_TTL_BUMP, DEFAULT_TEMP_TTL,
};
use skillcert::store::{DurableStore, MemoryStore};
use skillcert::keys::DataKey;

fn s(text: &str) -> String {
    text.to_string()
}

fn signed(principal: &str) -> Caller {
    Caller { principal: s(principal), authenticated: true }
}

struct Registry {
    directory: CourseDirectory,
    next_id: u32,
}

fn registry() -> Registry {
    Registry { directory: CourseDirectory::new(), next_id: 1 }
}

#[allow(clippy::too_many_arguments)]
fn create_course(
    reg: &mut Registry,
    creator: &str,
    _title: &str,
    _description: &str,
    _price: u128,
    _category: Option<&str>,
    _language: Option<&str>,
    _thumbnail_url: Option<&str>,
) -> String {
    let id = format!("{}", reg.next_id);
    reg.next_id += 1;
    reg.directory.register(&id, &s(creator));
    id
}

fn add_module(reg: &mut Registry, course_id: &String, position: u32, _title: &str) -> String {
    let id = first_module_id(course_id, position);
    reg.directory.add_module(&id, course_id);
    id
}

#[test]
fn test_delete_course_success() {
    let mut reg = registry();
    let new_course = create_course(
        &mut reg, "creator", "title", "description", 1000,
        Some("category"), Some("language"), Some("thumbnail_url"),
    );
    assert!(reg.directory.has_course(&new_course));
    assert_eq!(reg.directory.creator_of(&new_course), Some(s("creator")));

    assert_eq!(delete_course(&mut reg.directory, &signed("creator"), &new_course), Ok(()));

    let exists = reg.directory.has_course(&new_course);
    assert!(!exists);
}

#[test]
fn test_delete_course_with_modules() {
    let mut reg = registry();
    let new_course = create_course(
        &mut reg, "creator", "title", "description", 1000,
        Some("category"), Some("language"), Some("thumbnail_url"),
    );
    let module = add_module(&mut reg, &new_course, 0, "Module Title");

    let module_exists = reg.directory.module_course(&module).is_some();
    assert!(module_exists);

    assert_eq!(delete_course(&mut reg.directory, &signed("creator"), &new_course), Ok(()));

    let course_exists = reg.directory.has_course(&new_course);
    assert!(!course_exists);

    let module_exists = reg.directory.module_course(&module).is_some();
    assert!(!module_exists);
}

#[test]
fn test_delete_course_preserves_others() {
    let mut reg = registry();
    let course1 = create_course(
        &mut reg, "creator", "title1", "description1", 1000,
        Some("category1"), Some("language1"), Some("thumbnail_url1"),
    );
    let course2 = create_course(
        &mut reg, "creator", "title2", "description2", 1000,
        Some("category2"), Some("language2"), Some("thumbnail_url2"),
    );

    assert_eq!(delete_course(&mut reg.directory, &signed("creator"), &course1), Ok(()));

    let course1_exists = reg.directory.has_course(&course1);
    assert!(!course1_exists);

    let course2_exists = reg.directory.has_course(&course2);
    assert!(course2_exists);
}

#[test]
fn removal_is_refused_in_order() {
    let mut reg = registry();
    let course = create_course(&mut reg, "creator", "title", "description", 1000, None, None, None);
    let module = add_module(&mut reg, &course, 0, "Module Title");
    let anonymous = Caller { principal: s("creator"), authenticated: false };
    assert_eq!(delete_course(&mut reg.directory, &anonymous, &s("")), Err(RegistryError::Unauthorized));
    assert_eq!(delete_course(&mut reg.directory, &signed("creator"), &s("")), Err(RegistryError::EmptyCourseId));
    assert_eq!(
        delete_course(&mut reg.directory, &signed("creator"), &s("not_found")),
        Err(RegistryError::CourseNotFound)
    );
    assert_eq!(delete_course(&mut reg.directory, &signed("impostor"), &course), Err(RegistryError::Unauthorized));
    assert!(reg.directory.has_course(&course));
    assert_eq!(reg.directory.module_course(&module), Some(course.clone()));
}

#[test]
fn module_ids_are_spelled_out() {
    assert_eq!(first_module_id(&s("7"), 0), s("module_7_0_0"));
    assert_eq!(first_module_id(&s("abc"), 12), s("module_abc_12_0"));
    assert_eq!(first_module_id(&s(""), 1000), s("module__1000_0"));
    assert_eq!(u32_to_string(0), s("0"));
    assert_eq!(u32_to_string(9), s("9"));
    assert_eq!(u32_to_string(10), s("10"));
    assert_eq!(u32_to_string(907), s("907"));
    assert_eq!(u32_to_string(u32::MAX), s("4294967295"));
}

#[test]
fn module_scan_stops_at_the_first_gap() {
    let mut dir = CourseDirectory::new();
    let course = s("c1");
    dir.register(&course, &s("creator"));
    for position in [0, 1, 2, 4] {
        dir.add_module(&first_module_id(&course, position), &course);
    }
    // A module under one of the scanned ids that belongs to another course stays.
    dir.add_module(&first_module_id(&course, 3), &s("c2"));
    dir.add_module(&s("module_c2_0_0"), &s("c2"));
    dir.add_module(&s("module_c1_0_1"), &course);
    let removed = delete_course_modules(&mut dir, &course);
    assert_eq!(
        removed,
        vec![s("module_c1_0_0"), s("module_c1_1_0"), s("module_c1_2_0"), s("module_c1_4_0")]
    );
    assert_eq!(dir.module_course(&s("module_c1_3_0")), Some(s("c2")));
    assert_eq!(dir.module_course(&s("module_c2_0_0")), Some(s("c2")));
    assert_eq!(dir.module_course(&s("module_c1_0_1")), Some(s("c1")));
    assert_eq!(dir.module_course(&s("module_c1_4_0")), None);
    assert!(dir.has_course(&course));

    let mut gapped = CourseDirectory::new();
    gapped.add_module(&first_module_id(&course, 1), &course);
    assert_eq!(delete_course_modules(&mut gapped, &course), Vec::<String>::new());
    assert_eq!(gapped.module_course(&s("module_c1_1_0")), Some(s("c1")));
}

#[test]
fn module_scan_is_bounded() {
    let mut dir = CourseDirectory::new();
    let course = s("big");
    for position in 0..(MAX_LOOP_GUARD + 3) {
        dir.add_module(&first_module_id(&course, position), &course);
    }
    let removed = delete_course_modules(&mut dir, &course);
    assert_eq!(removed.len() as u32, MAX_LOOP_GUARD + 1);
    assert_eq!(dir.module_course(&first_module_id(&course, MAX_LOOP_GUARD)), None);
    assert_eq!(dir.module_course(&first_module_id(&course, MAX_LOOP_GUARD + 1)), Some(s("big")));
}

#[test]
fn directory_records() {
    let mut dir = CourseDirectory::new();
    assert!(!dir.has_course(&s("c1")));
    assert_eq!(dir.creator_of(&s("c1")), None);
    dir.register(&s("c1"), &s("alice"));
    dir.register(&s("c2"), &s("bob"));
    dir.register(&s("c1"), &s("carol"));
    assert_eq!(dir.creator_of(&s("c1")), Some(s("carol")));
    assert_eq!(dir.creator_of(&s("c2")), Some(s("bob")));
    dir.remove_course(&s("c1"));
    assert!(!dir.has_course(&s("c1")));
    assert!(dir.has_course(&s("c2")));
    dir.add_module(&s("m"), &s("c2"));
    dir.remove_module(&s("m"));
    assert_eq!(dir.module_course(&s("m")), None);
    assert!(dir.has_course(&s("c2")));
}

#[test]
fn shared_keys_and_lifetimes() {
    assert_eq!(user_key(&s("profile"), &s("alice")), (s("profile"), s("alice")));
    assert_eq!(course_key(&s("course"), &s("c1")), (s("course"), s("c1")));
    assert_eq!(
        mapping_key_address_string(&s("access"), &s("alice"), &s("c1")),
        (s("access"), (s("alice"), s("c1")))
    );
    assert_eq!(DEFAULT_TEMP_TTL, 900);
    assert_eq!(DEFAULT_PERSISTENT_TTL_BUMP, 518400);
    assert_eq!(DEFAULT_PERSISTENT_TTL, 1036800);
}

#[test]
fn email_register() {
    let mut store = MemoryStore::new(16);
    assert!(is_email_unique(&store, &s("a@b.c")));
    register_email(&mut store, &s("a@b.c"), &s("alice"));
    assert!(!is_email_unique(&store, &s("a@b.c")));
    assert!(is_email_unique(&store, &s("x@b.c")));
    assert_eq!(store.get(&DataKey::email(&s("a@b.c"))), Some(vec![s("alice")]));
    register_email(&mut store, &s("a@b.c"), &s("bob"));
    assert_eq!(store.get(&DataKey::email(&s("a@b.c"))), Some(vec![s("bob")]));
}

#[test]
fn test_delete_course_unauthorized() {
    let mut reg = registry();
    let new_course = create_course(
        &mut reg, "creator", "title", "description", 1000,
        Some("category"), Some("language"), Some("thumbnail_url"),
    );
    assert_eq!(
        delete_course(&mut reg.directory, &signed("impostor"), &new_course),
        Err(RegistryError::Unauthorized)
    );
}

#[test]
fn test_impostor_cannot_delete_course() {
    let mut reg = registry();
    let course = create_course(
        &mut reg,
        "actual_creator",
        "Protected Course",
        "This course should only be deletable by its creator",
        500,
        Some("security"),
        Some("english"),
        None,
    );
    assert_eq!(reg.directory.creator_of(&course), Some(s("actual_creator")));
    assert_eq!(
        delete_course(&mut reg.directory, &signed("someone_else"), &course),
        Err(RegistryError::Unauthorized)
    );
    assert!(reg.directory.has_course(&course));
}

#[test]
fn test_delete_course_not_found() {
    let mut reg = registry();
    let fake_id = s("not_found");
    assert_eq!(
        delete_course(&mut reg.directory, &signed("creator"), &fake_id),
        Err(RegistryError::CourseNotFound)
    );
}
