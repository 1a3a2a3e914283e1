use skillcert::access::{grant_access, AccessIndex};
use skillcert::admin::{
    is_admin, is_regular_admin, is_super_admin, is_system_initialized, require_initialized, require_self, require_self_or_admin, require_super_admin,
    require_user_management_auth, AdminConfig, AdminRoster,
};
use skillcert::cache::MemoryCache;
use skillcert::catalog::CourseDirectory;
use skillcert::error::Error;
use skillcert::gate::{
    has_access, require_admin, require_course_access, require_course_creator,
    require_management_rights, require_profile_access, AuthorityOracle, Caller,
};
use skillcert::registry::{
    create_course_category, generate_sequential_id, next_category_id, CourseCategory,
    RegistryError,
};
use skillcert::keys::DataKey;
use skillcert::storage_utils::{get_admin_config_addresses, is_user_in_admin_list};
use skillcert::store::{DurableStore, MemoryStore};
use skillcert::users::{
    get_user_by_id, get_user_profile_with_privacy, save_user_profile,
    user_management_update_profile, ListedProfile, ProfileError, UserManagement, UserProfile,
};

fn s(text: &str) -> String {
    text.to_string()
}

fn signed(principal: &str) -> Caller {
    Caller { principal: s(principal), authenticated: true }
}

fn unsigned(principal: &str) -> Caller {
    Caller { principal: s(principal), authenticated: false }
}

fn roster(super_admin: &str, admins: &[&str]) -> AdminRoster {
    AdminRoster {
        config: Some(AdminConfig { initialized: true, super_admin: s(super_admin) }),
        admins: Some(admins.iter().map(|a| s(a)).collect()),
    }
}

fn copy(p: &UserProfile) -> UserProfile {
    UserProfile {
        name: p.name.clone(),
        email: p.email.clone(),
        profession: p.profession.clone(),
        goals: p.goals.clone(),
        country: p.country.clone(),
        user: p.user.clone(),
    }
}

#[test]
fn test_sequential_id_generation() {
    let id1 = generate_sequential_id(None);
    let id2 = generate_sequential_id(Some(id1));
    let id3 = generate_sequential_id(Some(id2));

    assert_eq!(id1, 1);
    assert_eq!(id2, 2);
    assert_eq!(id3, 3);
}

#[test]
fn test_admin_list_check() {
    let mut store = MemoryStore::new(16);
    let config_key = DataKey::Admins;
    let user1 = s("GUSER1");
    let user2 = s("GUSER2");

    // Initially no admins
    assert!(!is_user_in_admin_list(&store, &user1, &config_key));

    // Add admin list
    let admins = vec![user1.clone()];
    store.set(&config_key, &admins);

    // Check admin status
    assert!(is_user_in_admin_list(&store, &user1, &config_key));
    assert!(!is_user_in_admin_list(&store, &user2, &config_key));
    assert_eq!(get_admin_config_addresses(&store, &config_key), Some(admins));
    assert_eq!(get_admin_config_addresses(&store, &DataKey::VersionHistory), None);
}

#[test]
fn test_update_profile_success() {
    let user = s("GUSER");

    // First create a profile
    let initial_name = s("John Doe");
    let initial_email = s("john@example.com");
    let initial_country = s("United States");
    let saved = UserManagement::save_profile(
        initial_name.clone(),
        initial_email.clone(),
        Some(s("Software Engineer")),
        Some(s("Learn blockchain")),
        initial_country.clone(),
        user.clone(),
    )
    .unwrap();

    // Now update the profile
    let new_name = s("John Smith");
    let new_profession = s("Senior Developer");
    let updated_profile = UserManagement::update_profile(
        Some(saved),
        &signed("GUSER"),
        Some(new_name.clone()),
        None, // Keep existing email
        Some(new_profession.clone()),
        None, // Keep existing goals
        None, // Keep existing country
    )
    .unwrap();

    // Verify updates
    assert_eq!(updated_profile.name, new_name);
    assert_eq!(updated_profile.email, initial_email);
    assert_eq!(updated_profile.profession, Some(new_profession));
    assert_eq!(updated_profile.goals, Some(s("Learn blockchain")));
    assert_eq!(updated_profile.country, initial_country);
    assert_eq!(updated_profile.user, user);
}

#[test]
fn test_update_profile_partial_update() {
    let user = s("GUSER");

    // First create a profile
    let initial_name = s("Jane Doe");
    let initial_email = s("jane@example.com");
    let initial_country = s("Canada");
    let saved = UserManagement::save_profile(
        initial_name.clone(),
        initial_email.clone(),
        None,
        None,
        initial_country.clone(),
        user.clone(),
    )
    .unwrap();

    // Update only goals field
    let new_goals = s("Master Rust programming");
    let updated_profile = UserManagement::update_profile(
        Some(saved),
        &signed("GUSER"),
        None,
        None,
        None,
        Some(new_goals.clone()),
        None,
    )
    .unwrap();

    // Verify only goals was updated
    assert_eq!(updated_profile.name, initial_name);
    assert_eq!(updated_profile.email, initial_email);
    assert_eq!(updated_profile.profession, None);
    assert_eq!(updated_profile.goals, Some(new_goals));
    assert_eq!(updated_profile.country, initial_country);
}

#[test]
fn update_of_missing_profile_is_refused() {
    assert_eq!(
        user_management_update_profile(None, &signed("GUSER"), Some(s("Test Name")), None, None, None, None),
        Err(ProfileError::ProfileNotFound)
    );
}

#[test]
fn update_must_not_empty_required_fields() {
    let saved = save_user_profile(s("John Doe"), s("john@example.com"), None, None, s("United States"), s("GUSER")).unwrap();
    let me = signed("GUSER");
    assert_eq!(
        user_management_update_profile(Some(copy(&saved)), &me, Some(s("")), None, None, None, None),
        Err(ProfileError::NameRequired)
    );
    assert_eq!(
        user_management_update_profile(Some(copy(&saved)), &me, None, Some(s("")), None, None, None),
        Err(ProfileError::EmailRequired)
    );
    assert_eq!(
        user_management_update_profile(Some(copy(&saved)), &me, None, None, None, None, Some(s(""))),
        Err(ProfileError::CountryRequired)
    );
    assert_eq!(
        user_management_update_profile(Some(copy(&saved)), &me, Some(s("")), Some(s("")), None, None, Some(s(""))),
        Err(ProfileError::NameRequired)
    );
    assert_eq!(
        user_management_update_profile(Some(copy(&saved)), &signed("GOTHER"), None, None, None, None, None),
        Err(ProfileError::NotProfileOwner)
    );
    assert_eq!(
        user_management_update_profile(Some(copy(&saved)), &unsigned("GUSER"), None, None, None, None, None),
        Err(ProfileError::AccessDenied)
    );
    assert_eq!(
        user_management_update_profile(Some(copy(&saved)), &me, None, None, None, None, None),
        Ok(saved)
    );
}

#[test]
fn save_requires_name_email_country() {
    assert_eq!(save_user_profile(s(""), s(""), None, None, s(""), s("u")), Err(ProfileError::NameRequired));
    assert_eq!(save_user_profile(s("n"), s(""), None, None, s(""), s("u")), Err(ProfileError::EmailRequired));
    assert_eq!(save_user_profile(s("n"), s("e"), None, None, s(""), s("u")), Err(ProfileError::CountryRequired));
    assert_eq!(
        save_user_profile(s("n"), s("e"), Some(s("p")), None, s("c"), s("u")),
        Ok(UserProfile { name: s("n"), email: s("e"), profession: Some(s("p")), goals: None, country: s("c"), user: s("u") })
    );
}

#[test]
fn profile_read_is_for_owner_and_admins() {
    let admins = roster("root", &["helper"]);
    let profile = save_user_profile(s("n"), s("e"), None, None, s("c"), s("alice")).unwrap();
    assert_eq!(get_user_by_id(&admins, &signed("alice"), &s("alice"), Some(copy(&profile))), Ok(copy(&profile)));
    assert_eq!(get_user_by_id(&admins, &signed("root"), &s("alice"), Some(copy(&profile))), Ok(copy(&profile)));
    assert_eq!(get_user_by_id(&admins, &signed("helper"), &s("alice"), Some(copy(&profile))), Ok(copy(&profile)));
    assert_eq!(get_user_by_id(&admins, &signed("bob"), &s("alice"), Some(copy(&profile))), Err(ProfileError::AccessDenied));
    assert_eq!(get_user_by_id(&admins, &unsigned("alice"), &s("alice"), Some(copy(&profile))), Err(ProfileError::AccessDenied));
    assert_eq!(get_user_by_id(&admins, &signed("alice"), &s("alice"), None), Err(ProfileError::AccessDenied));
}

#[test]
fn administrators_before_and_after_setup() {
    let empty = AdminRoster { config: None, admins: None };
    assert!(!is_system_initialized(&empty));
    assert!(!is_super_admin(&empty, &s("root")));
    assert!(!is_regular_admin(&empty, &s("root")));
    assert!(!is_admin(&empty, &s("root")));
    assert!(!AuthorityOracle::is_admin(&empty, &s("root")));
    assert_eq!(require_initialized(&empty), Err(Error::SystemNotInitialized));

    let pending = AdminRoster {
        config: Some(AdminConfig { initialized: false, super_admin: s("root") }),
        admins: Some(vec![s("helper")]),
    };
    assert!(!is_system_initialized(&pending));
    assert!(is_super_admin(&pending, &s("root")));
    assert!(is_admin(&pending, &s("helper")));
    // Until the administration is set up, nobody counts as an administrator.
    assert!(!AuthorityOracle::is_admin(&pending, &s("root")));
    assert!(!AuthorityOracle::is_admin(&pending, &s("helper")));
    assert_eq!(require_initialized(&pending), Err(Error::SystemNotInitialized));

    let ready = roster("root", &["helper"]);
    assert!(is_system_initialized(&ready));
    assert_eq!(require_initialized(&ready), Ok(()));
    assert!(AuthorityOracle::is_admin(&ready, &s("root")));
    assert!(AuthorityOracle::is_admin(&ready, &s("helper")));
    assert!(!AuthorityOracle::is_admin(&ready, &s("guest")));
    assert!(is_regular_admin(&ready, &s("helper")));
    assert!(!is_regular_admin(&ready, &s("root")));
}

#[test]
fn administrative_checks() {
    let ready = roster("root", &["helper", "second"]);
    assert_eq!(require_super_admin(&ready, &signed("root")), Ok(()));
    assert_eq!(require_super_admin(&ready, &signed("helper")), Err(Error::Unauthorized));
    assert_eq!(require_super_admin(&ready, &unsigned("root")), Err(Error::Unauthorized));
    assert_eq!(require_admin(&ready, &signed("helper")), Ok(()));
    assert_eq!(require_admin(&ready, &signed("guest")), Err(Error::Unauthorized));
    assert_eq!(require_admin(&ready, &unsigned("helper")), Err(Error::Unauthorized));
    assert_eq!(require_self(&signed("a"), &s("a")), Ok(()));
    assert_eq!(require_self(&signed("a"), &s("b")), Err(Error::Unauthorized));
    assert_eq!(require_self(&unsigned("a"), &s("a")), Err(Error::Unauthorized));
    assert_eq!(require_self_or_admin(&ready, &signed("guest"), &s("guest")), Ok(()));
    assert_eq!(require_self_or_admin(&ready, &signed("helper"), &s("guest")), Ok(()));
    assert_eq!(require_self_or_admin(&ready, &signed("guest"), &s("other")), Err(Error::Unauthorized));
    // A regular administrator manages ordinary users, not other administrators.
    assert_eq!(require_user_management_auth(&ready, &signed("helper"), &s("guest")), Ok(()));
    assert_eq!(require_user_management_auth(&ready, &signed("helper"), &s("second")), Err(Error::Unauthorized));
    assert_eq!(require_user_management_auth(&ready, &signed("helper"), &s("root")), Err(Error::Unauthorized));
    assert_eq!(require_user_management_auth(&ready, &signed("root"), &s("helper")), Ok(()));
    assert_eq!(require_user_management_auth(&ready, &signed("helper"), &s("helper")), Ok(()));
    assert_eq!(require_user_management_auth(&ready, &signed("guest"), &s("other")), Err(Error::Unauthorized));
    assert_eq!(require_user_management_auth(&ready, &unsigned("root"), &s("helper")), Err(Error::Unauthorized));
    assert_eq!(require_profile_access(&ready, &signed("guest"), &s("guest")), Ok(()));
    assert_eq!(require_profile_access(&ready, &signed("helper"), &s("guest")), Ok(()));
    assert_eq!(require_profile_access(&ready, &signed("guest"), &s("other")), Err(Error::Unauthorized));
    assert_eq!(require_profile_access(&ready, &unsigned("guest"), &s("guest")), Err(Error::Unauthorized));
}

#[test]
fn course_checks() {
    let mut index = AccessIndex::new(MemoryStore::new(16), MemoryCache::new());
    let mut directory = CourseDirectory::new();
    directory.register(&s("c1"), &s("teacher"));
    let admins = roster("root", &["helper"]);
    assert_eq!(grant_access(&mut index, &s("c1"), &s("learner")), Ok(()));
    assert!(has_access(&index, &s("learner"), &s("c1")));
    assert!(!has_access(&index, &s("teacher"), &s("c1")));

    for who in ["learner", "teacher", "root", "helper"] {
        assert_eq!(require_course_access(&index, &directory, &admins, &signed(who), &s("c1")), Ok(()));
        assert_eq!(
            require_course_access(&index, &directory, &admins, &unsigned(who), &s("c1")),
            Err(Error::Unauthorized)
        );
    }
    assert_eq!(
        require_course_access(&index, &directory, &admins, &signed("guest"), &s("c1")),
        Err(Error::Unauthorized)
    );
    assert_eq!(
        require_course_access(&index, &directory, &admins, &signed("learner"), &s("c2")),
        Err(Error::Unauthorized)
    );

    for who in ["teacher", "root", "helper"] {
        assert_eq!(require_management_rights(&directory, &admins, &signed(who), &s("c1")), Ok(()));
    }
    for who in ["learner", "guest"] {
        assert_eq!(
            require_management_rights(&directory, &admins, &signed(who), &s("c1")),
            Err(Error::Unauthorized)
        );
    }
    assert_eq!(
        require_management_rights(&directory, &admins, &unsigned("teacher"), &s("c1")),
        Err(Error::Unauthorized)
    );

    assert_eq!(require_course_creator(&directory, &signed("teacher"), &s("c1")), Ok(()));
    for who in ["learner", "root", "helper", "guest"] {
        assert_eq!(require_course_creator(&directory, &signed(who), &s("c1")), Err(Error::Unauthorized));
    }
    assert_eq!(require_course_creator(&directory, &unsigned("teacher"), &s("c1")), Err(Error::Unauthorized));
    assert_eq!(require_course_creator(&directory, &signed("teacher"), &s("c2")), Err(Error::Unauthorized));
}

#[test]
fn category_creation() {
    let admins = roster("root", &["helper"]);
    assert_eq!(
        create_course_category(&admins, &signed("helper"), s("Programming"), Some(s("Code")), None),
        Ok(CourseCategory { id: 1, name: s("Programming"), description: Some(s("Code")) })
    );
    assert_eq!(
        create_course_category(&admins, &signed("root"), s("Design"), None, Some(41)),
        Ok(CourseCategory { id: 42, name: s("Design"), description: None })
    );
    assert_eq!(
        create_course_category(&admins, &signed("guest"), s(""), None, None),
        Err(RegistryError::Unauthorized)
    );
    assert_eq!(
        create_course_category(&admins, &unsigned("root"), s("x"), None, None),
        Err(RegistryError::Unauthorized)
    );
    assert_eq!(
        create_course_category(&admins, &signed("root"), s(""), Some("d".repeat(501)), None),
        Err(RegistryError::NameRequired)
    );
    assert_eq!(
        create_course_category(&admins, &signed("root"), "n".repeat(101), None, None),
        Err(RegistryError::InvalidCategoryName)
    );
    assert_eq!(
        create_course_category(&admins, &signed("root"), "n".repeat(100), Some("d".repeat(501)), None),
        Err(RegistryError::InvalidCategoryName)
    );
    assert!(create_course_category(&admins, &signed("root"), "n".repeat(100), Some("d".repeat(500)), None).is_ok());
}

#[test]
fn category_ids_saturate() {
    assert_eq!(next_category_id(None), 1);
    assert_eq!(next_category_id(Some(0)), 1);
    assert_eq!(next_category_id(Some(7)), 8);
    assert_eq!(next_category_id(Some(u128::MAX - 1)), u128::MAX);
    assert_eq!(next_category_id(Some(u128::MAX)), u128::MAX);
    assert_eq!(generate_sequential_id(Some(u128::MAX - 1)), u128::MAX);
}

#[test]
fn private_profiles_withhold_the_email() {
    let listed = |public: bool| ListedProfile {
        user: s("alice"),
        name: s("Alice"),
        email: Some(s("alice@example.org")),
        privacy_public: public,
    };
    assert_eq!(get_user_profile_with_privacy(listed(false), &s("bob")).email, None);
    assert_eq!(get_user_profile_with_privacy(listed(false), &s("alice")), listed(false));
    assert_eq!(get_user_profile_with_privacy(listed(true), &s("bob")), listed(true));
    let hidden = get_user_profile_with_privacy(listed(false), &s("bob"));
    assert_eq!(hidden.name, s("Alice"));
    assert_eq!(hidden.user, s("alice"));
    assert!(!hidden.privacy_public);
}

#[test]
fn test_update_nonexistent_profile() {
    let outcome = UserManagement::update_profile(
        None,
        &signed("GUSER"),
        Some(s("Test Name")),
        None,
        None,
        None,
        None,
    );
    assert_eq!(outcome, Err(ProfileError::ProfileNotFound));
}

fn john() -> UserProfile {
    UserManagement::save_profile(
        s("John Doe"),
        s("john@example.com"),
        None,
        None,
        s("United States"),
        s("GUSER"),
    )
    .unwrap()
}

#[test]
fn test_update_profile_empty_name() {
    let outcome =
        UserManagement::update_profile(Some(john()), &signed("GUSER"), Some(s("")), None, None, None, None);
    assert_eq!(outcome, Err(ProfileError::NameRequired));
}

#[test]
fn test_update_profile_empty_email() {
    let outcome =
        UserManagement::update_profile(Some(john()), &signed("GUSER"), None, Some(s("")), None, None, None);
    assert_eq!(outcome, Err(ProfileError::EmailRequired));
}

#[test]
fn test_update_profile_empty_country() {
    let outcome =
        UserManagement::update_profile(Some(john()), &signed("GUSER"), None, None, None, None, Some(s("")));
    assert_eq!(outcome, Err(ProfileError::CountryRequired));
}
