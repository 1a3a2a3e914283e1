//! Who administers the platform: one super administrator, named when the
//! administration is set up, and a list of regular administrators.

use vstd::prelude::*;
use crate::error::Error;
use crate::gate::{pass_if, AuthorityOracle, Caller};
use crate::ids::{contains_id, id_seq, Id};

verus! {

/// The setup of the administration.
#[derive(Debug)]
pub struct AdminConfig {
    pub initialized: bool,
    pub super_admin: String,
}

/// What is on record about administrators.
#[derive(Debug)]
pub struct AdminRoster {
    /// The setup, once there is one.
    pub config: Option<AdminConfig>,
    /// The regular administrators, once a list exists.
    pub admins: Option<Vec<String>>,
}

/// The administration has been set up.
pub open spec fn initialized(roster: &AdminRoster) -> bool {
    match roster.config {
        Some(config) => config.initialized,
        None => false,
    }
}

/// `who` is the super administrator.
pub open spec fn super_admin(roster: &AdminRoster, who: Id) -> bool {
    match roster.config {
        Some(config) => config.super_admin@ == who,
        None => false,
    }
}

/// `who` is on the list of regular administrators.
pub open spec fn regular_admin(roster: &AdminRoster, who: Id) -> bool {
    match roster.admins {
        Some(list) => id_seq(&list).contains(who),
        None => false,
    }
}

/// `who` is the super administrator or a regular one.
pub open spec fn any_admin(roster: &AdminRoster, who: Id) -> bool {
    super_admin(roster, who) || regular_admin(roster, who)
}

/// Whether the administration has been set up.
pub fn is_system_initialized(roster: &AdminRoster) -> (yes: bool)
    ensures
        yes == initialized(roster),
{
    match &roster.config {
        Some(config) => config.initialized,
        None => false,
    }
}

/// Whether `who` is the super administrator.
pub fn is_super_admin(roster: &AdminRoster, who: &String) -> (yes: bool)
    ensures
        yes == super_admin(roster, who@),
{
    match &roster.config {
        Some(config) => config.super_admin == *who,
        None => false,
    }
}

/// Whether `who` is a regular administrator.
pub fn is_regular_admin(roster: &AdminRoster, who: &String) -> (yes: bool)
    ensures
        yes == regular_admin(roster, who@),
{
    match &roster.admins {
        Some(list) => contains_id(list, who),
        None => false,
    }
}

/// Whether `who` is the super administrator or a regular one, whether or
/// not the administration counts as set up.
pub fn is_admin(roster: &AdminRoster, who: &String) -> (yes: bool)
    ensures
        yes == any_admin(roster, who@),
{
    is_super_admin(roster, who) || is_regular_admin(roster, who)
}

impl AuthorityOracle for AdminRoster {
    open spec fn inv(&self) -> bool {
        true
    }

    /// Once the administration is set up, the administrators are the super
    /// administrator and the regular ones; before that there are none.
    open spec fn admins(&self) -> Set<Id> {
        Set::new(|who: Id| initialized(self) && any_admin(self, who))
    }

    fn is_admin(&self, who: &String) -> (yes: bool) {
        is_system_initialized(self) && is_admin(self, who)
    }
}

/// Fails with [`Error::SystemNotInitialized`] unless the administration
/// has been set up.
pub fn require_initialized(roster: &AdminRoster) -> (outcome: Result<(), Error>)
    ensures
        outcome == if initialized(roster) {
            Ok::<(), Error>(())
        } else {
            Err::<(), Error>(Error::SystemNotInitialized)
        },
{
    if is_system_initialized(roster) {
        Ok(())
    } else {
        Err(Error::SystemNotInitialized)
    }
}

/// Passes if the caller is authenticated and is the super administrator.
pub fn require_super_admin(roster: &AdminRoster, caller: &Caller) -> (outcome: Result<(), Error>)
    ensures
        outcome == pass_if(caller.authenticated && super_admin(roster, caller.principal@)),
{
    if caller.authenticated && is_super_admin(roster, &caller.principal) {
        Ok(())
    } else {
        Err(Error::Unauthorized)
    }
}

/// Passes if the caller is authenticated and is `target`.
pub fn require_self(caller: &Caller, target: &String) -> (outcome: Result<(), Error>)
    ensures
        outcome == pass_if(caller.authenticated && caller.principal@ == target@),
{
    if caller.authenticated && caller.principal == *target {
        Ok(())
    } else {
        Err(Error::Unauthorized)
    }
}

/// Passes if the caller is authenticated and is `target` or an administrator.
pub fn require_self_or_admin(roster: &AdminRoster, caller: &Caller, target: &String) -> (outcome:
    Result<(), Error>)
    ensures
        outcome == pass_if(
            caller.authenticated && (caller.principal@ == target@ || any_admin(
                roster,
                caller.principal@,
            )),
        ),
{
    if !caller.authenticated {
        return Err(Error::Unauthorized);
    }
    if caller.principal == *target || is_admin(roster, &caller.principal) {
        Ok(())
    } else {
        Err(Error::Unauthorized)
    }
}

/// Passes if the caller is authenticated and may manage `target`: the
/// caller is `target`, or is the super administrator, or is a regular
/// administrator while `target` is no administrator at all.
pub fn require_user_management_auth(roster: &AdminRoster, caller: &Caller, target: &String) -> (outcome:
    Result<(), Error>)
    ensures
        outcome == pass_if(
            caller.authenticated && (caller.principal@ == target@ || super_admin(
                roster,
                caller.principal@,
            ) || (regular_admin(roster, caller.principal@) && !any_admin(roster, target@))),
        ),
{
    if !caller.authenticated {
        return Err(Error::Unauthorized);
    }
    if caller.principal == *target {
        return Ok(());
    }
    if is_super_admin(roster, &caller.principal) {
        return Ok(());
    }
    if is_regular_admin(roster, &caller.principal) && !is_admin(roster, target) {
        return Ok(());
    }
    Err(Error::Unauthorized)
}

} // verus!
