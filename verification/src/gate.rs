//! The authorization gate: stateless checks that decide whether a caller may
//! go on, from what the access index, the catalogue and the authority on
//! administrators say.
//!
//! Every check first asks that the caller's identity has been proven for the
//! current call. Whether it has is for the host to establish; the checks take
//! the answer as given.

use vstd::prelude::*;
use crate::access::AccessIndex;
use crate::cache::EphemeralCache;
use crate::catalog::{created_by, is_course_creator, CourseCatalog};
use crate::error::Error;
use crate::ids::Id;
use crate::keys::DataKey;
use crate::model::granted;
use crate::store::DurableStore;

verus! {

/// A principal together with the host's word on whether its identity has
/// been proven for the current call.
#[derive(Debug)]
pub struct Caller {
    pub principal: String,
    pub authenticated: bool,
}

/// Answers whether a principal is an administrator.
pub trait AuthorityOracle {
    /// The implementation's own invariant.
    open spec fn inv(&self) -> bool {
        true
    }

    /// The administrators. An implementation that asks elsewhere leaves
    /// this unspecified.
    open spec fn admins(&self) -> Set<Id> {
        arbitrary()
    }

    /// Whether `who` is an administrator.
    fn is_admin(&self, who: &String) -> (yes: bool)
        requires
            self.inv(),
        ensures
            yes == self.admins().contains(who@),
    ;
}

/// `Ok` where `allowed` holds, `Unauthorized` where it does not.
pub open spec fn pass_if(allowed: bool) -> Result<(), Error> {
    if allowed {
        Ok(())
    } else {
        Err(Error::Unauthorized)
    }
}

/// Whether the store holds an access record of `user` for the course. The
/// cache is not consulted.
pub fn has_access<S: DurableStore, C: EphemeralCache>(
    index: &AccessIndex<S, C>,
    user: &String,
    course_id: &String,
) -> (yes: bool)
    requires
        index.inv(),
    ensures
        yes == granted(index.model().store, course_id@, user@),
{
    let key = DataKey::access(course_id, user);
    index.store.has(&key)
}

/// Passes if the caller is authenticated and holds an access record for the
/// course, or created it, or is an administrator; fails with
/// [`Error::Unauthorized`] otherwise.
pub fn require_course_access<S: DurableStore, C: EphemeralCache, K: CourseCatalog, O: AuthorityOracle>(
    index: &AccessIndex<S, C>,
    catalog: &K,
    oracle: &O,
    caller: &Caller,
    course_id: &String,
) -> (outcome: Result<(), Error>)
    requires
        index.inv(),
        catalog.inv(),
        oracle.inv(),
    ensures
        outcome == pass_if(
            caller.authenticated && (granted(index.model().store, course_id@, caller.principal@)
                || created_by(catalog.creators(), course_id@, caller.principal@)
                || oracle.admins().contains(caller.principal@)),
        ),
{
    if !caller.authenticated {
        return Err(Error::Unauthorized);
    }
    if has_access(index, &caller.principal, course_id) || oracle.is_admin(&caller.principal)
        || is_course_creator(catalog, &caller.principal, course_id) {
        Ok(())
    } else {
        Err(Error::Unauthorized)
    }
}

/// Passes if the caller is authenticated and created the course or is an
/// administrator; fails with [`Error::Unauthorized`] otherwise.
pub fn require_management_rights<K: CourseCatalog, O: AuthorityOracle>(
    catalog: &K,
    oracle: &O,
    caller: &Caller,
    course_id: &String,
) -> (outcome: Result<(), Error>)
    requires
        catalog.inv(),
        oracle.inv(),
    ensures
        outcome == pass_if(
            caller.authenticated && (created_by(catalog.creators(), course_id@, caller.principal@)
                || oracle.admins().contains(caller.principal@)),
        ),
{
    if !caller.authenticated {
        return Err(Error::Unauthorized);
    }
    if is_course_creator(catalog, &caller.principal, course_id) || oracle.is_admin(
        &caller.principal,
    ) {
        Ok(())
    } else {
        Err(Error::Unauthorized)
    }
}

/// Passes only if the caller is authenticated and is the creator on record
/// for the course; fails with [`Error::Unauthorized`] otherwise.
pub fn require_course_creator<K: CourseCatalog>(
    catalog: &K,
    caller: &Caller,
    course_id: &String,
) -> (outcome: Result<(), Error>)
    requires
        catalog.inv(),
    ensures
        outcome == pass_if(
            caller.authenticated && created_by(catalog.creators(), course_id@, caller.principal@),
        ),
{
    if caller.authenticated && is_course_creator(catalog, &caller.principal, course_id) {
        Ok(())
    } else {
        Err(Error::Unauthorized)
    }
}

/// Passes if the caller is authenticated and is an administrator; fails with
/// [`Error::Unauthorized`] otherwise.
pub fn require_admin<O: AuthorityOracle>(oracle: &O, caller: &Caller) -> (outcome: Result<
    (),
    Error,
>)
    requires
        oracle.inv(),
    ensures
        outcome == pass_if(caller.authenticated && oracle.admins().contains(caller.principal@)),
{
    if caller.authenticated && oracle.is_admin(&caller.principal) {
        Ok(())
    } else {
        Err(Error::Unauthorized)
    }
}

/// Passes if the caller is authenticated and either owns the profile or is
/// an administrator; fails with [`Error::Unauthorized`] otherwise.
pub fn require_profile_access<O: AuthorityOracle>(
    oracle: &O,
    caller: &Caller,
    profile_owner: &String,
) -> (outcome: Result<(), Error>)
    requires
        oracle.inv(),
    ensures
        outcome == pass_if(
            caller.authenticated && (caller.principal@ == profile_owner@
                || oracle.admins().contains(caller.principal@)),
        ),
{
    if !caller.authenticated {
        return Err(Error::Unauthorized);
    }
    if caller.principal == *profile_owner || oracle.is_admin(&caller.principal) {
        Ok(())
    } else {
        Err(Error::Unauthorized)
    }
}

} // verus!
