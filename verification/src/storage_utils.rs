//! Lifetimes and composite keys that several parts of the platform share.

use vstd::prelude::*;
use crate::ids::{contains_id, id_seq};
use crate::keys::{DataKey, KeyView};
use crate::store::DurableStore;

verus! {

/// Ledgers for which a cached copy stays readable.
pub const DEFAULT_TEMP_TTL: u32 = 900;

/// A durable entry with fewer ledgers left than this has its expiry bumped.
pub const DEFAULT_PERSISTENT_TTL_BUMP: u32 = 518400;

/// The lifetime that a bump extends a durable entry to.
pub const DEFAULT_PERSISTENT_TTL: u32 = 1036800;

/// The addresses stored under `config_key`, if any are.
pub fn get_admin_config_addresses<S: DurableStore>(store: &S, config_key: &DataKey) -> (admins:
    Option<Vec<String>>)
    requires
        store.inv(),
    ensures
        match admins {
            Some(list) => store.state().holds(config_key@) && id_seq(&list)
                == store.state().entries[config_key@].value,
            None => !store.state().holds(config_key@),
        },
{
    store.get(config_key)
}

/// Whether `user` is among the addresses stored under `admin_config_key`;
/// nobody is if nothing is stored there.
pub fn is_user_in_admin_list<S: DurableStore>(
    store: &S,
    user: &String,
    admin_config_key: &DataKey,
) -> (listed: bool)
    requires
        store.inv(),
    ensures
        listed == (store.state().holds(admin_config_key@) && store.state().list(
            admin_config_key@,
        ).contains(user@)),
{
    match get_admin_config_addresses(store, admin_config_key) {
        Some(config) => contains_id(&config, user),
        None => false,
    }
}

/// The key of what is stored for `user` in the namespace `prefix`.
pub fn user_key(prefix: &String, user: &String) -> (key: (String, String))
    ensures
        key.0@ == prefix@,
        key.1@ == user@,
{
    (prefix.clone(), user.clone())
}

/// The key of what is stored for the course in the namespace `prefix`.
pub fn course_key(prefix: &String, course_id: &String) -> (key: (String, String))
    ensures
        key.0@ == prefix@,
        key.1@ == course_id@,
{
    (prefix.clone(), course_id.clone())
}

/// The key of what is stored for a pair in the namespace `prefix`.
pub fn mapping_key_address_string(prefix: &String, first: &String, second: &String) -> (key: (
    String,
    (String, String),
))
    ensures
        key.0@ == prefix@,
        key.1.0@ == first@,
        key.1.1@ == second@,
{
    (prefix.clone(), (first.clone(), second.clone()))
}

/// Whether no user has registered the email address.
pub fn is_email_unique<S: DurableStore>(store: &S, email: &String) -> (unique: bool)
    requires
        store.inv(),
    ensures
        unique == !store.state().holds(KeyView::Email(email@)),
{
    !store.has(&DataKey::email(email))
}

/// Registers the email address for the user, replacing any earlier owner.
pub fn register_email<S: DurableStore>(store: &mut S, email: &String, user_address: &String)
    requires
        old(store).inv(),
    ensures
        final(store).inv(),
        final(store).state() == old(store).state().set(
            KeyView::Email(email@),
            seq![user_address@],
        ),
{
    let mut owner: Vec<String> = Vec::new();
    owner.push(user_address.clone());
    assert(id_seq(&owner) =~= seq![user_address@]);
    store.set(&DataKey::email(email), &owner);
}

} // verus!
