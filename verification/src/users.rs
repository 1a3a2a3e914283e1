//! Saving, updating and reading user profiles.
//!
//! Each function decides what the stored profile becomes, or whether it may
//! be read; reading and writing the record is left to the caller.

use vstd::prelude::*;
use crate::gate::{AuthorityOracle, Caller};

verus! {

/// A stored user profile.
#[derive(Debug, PartialEq, Eq)]
pub struct UserProfile {
    pub name: String,
    pub email: String,
    pub profession: Option<String>,
    pub goals: Option<String>,
    pub country: String,
    pub user: String,
}

/// Why a profile operation was refused.
#[derive(Clone, Copy, Debug, PartialEq, Eq, Structural)]
pub enum ProfileError {
    /// The name is empty.
    NameRequired,
    /// The email address is empty.
    EmailRequired,
    /// The country is empty.
    CountryRequired,
    /// The user has no profile.
    ProfileNotFound,
    /// The profile belongs to someone else.
    NotProfileOwner,
    /// The caller may not do this.
    AccessDenied,
}

/// The first required field that is empty, if any: name, then email, then
/// country.
pub open spec fn required_verdict(name: Seq<char>, email: Seq<char>, country: Seq<char>) -> Result<
    (),
    ProfileError,
> {
    if name.len() == 0 {
        Err(ProfileError::NameRequired)
    } else if email.len() == 0 {
        Err(ProfileError::EmailRequired)
    } else if country.len() == 0 {
        Err(ProfileError::CountryRequired)
    } else {
        Ok(())
    }
}

/// `given` if there is one, else `kept`.
pub open spec fn replaced(given: Option<String>, kept: String) -> String {
    match given {
        Some(text) => text,
        None => kept,
    }
}

/// `given` if there is one, else `kept`.
pub open spec fn replaced_optional(given: Option<String>, kept: Option<String>) -> Option<String> {
    match given {
        Some(text) => Some(text),
        None => kept,
    }
}

/// The profile after an update: every field that is given replaces the
/// stored one; the owner stays.
pub open spec fn merged(
    existing: UserProfile,
    name: Option<String>,
    email: Option<String>,
    profession: Option<String>,
    goals: Option<String>,
    country: Option<String>,
) -> UserProfile {
    UserProfile {
        name: replaced(name, existing.name),
        email: replaced(email, existing.email),
        profession: replaced_optional(profession, existing.profession),
        goals: replaced_optional(goals, existing.goals),
        country: replaced(country, existing.country),
        user: existing.user,
    }
}

fn require_fields(name: &String, email: &String, country: &String) -> (outcome: Result<
    (),
    ProfileError,
>)
    ensures
        outcome == required_verdict(name@, email@, country@),
{
    if name.as_str().is_empty() {
        return Err(ProfileError::NameRequired);
    }
    if email.as_str().is_empty() {
        return Err(ProfileError::EmailRequired);
    }
    if country.as_str().is_empty() {
        return Err(ProfileError::CountryRequired);
    }
    Ok(())
}

/// The profile to store for `user`, provided name, email and country are
/// not empty.
pub fn save_user_profile(
    name: String,
    email: String,
    profession: Option<String>,
    goals: Option<String>,
    country: String,
    user: String,
) -> (outcome: Result<UserProfile, ProfileError>)
    ensures
        match outcome {
            Ok(profile) => required_verdict(name@, email@, country@) is Ok && profile == (
            UserProfile { name, email, profession, goals, country, user }),
            Err(e) => required_verdict(name@, email@, country@) == Err::<(), ProfileError>(e),
        },
{
    match require_fields(&name, &email, &country) {
        Err(e) => Err(e),
        Ok(_) => Ok(UserProfile { name, email, profession, goals, country, user }),
    }
}

/// The profile to store after the owner updates it.
///
/// Refused with `AccessDenied` if the caller is not authenticated, with
/// `ProfileNotFound` if there is no stored profile, with `NotProfileOwner`
/// if the stored profile belongs to someone else, and with the error of the
/// first required field that the update would leave empty.
pub fn user_management_update_profile(
    existing: Option<UserProfile>,
    caller: &Caller,
    name: Option<String>,
    email: Option<String>,
    profession: Option<String>,
    goals: Option<String>,
    country: Option<String>,
) -> (outcome: Result<UserProfile, ProfileError>)
    ensures
        outcome == update_verdict(
            existing,
            caller.authenticated,
            caller.principal@,
            name,
            email,
            profession,
            goals,
            country,
        ),
{
    if !caller.authenticated {
        return Err(ProfileError::AccessDenied);
    }
    let stored = match existing {
        Some(profile) => profile,
        None => {
            return Err(ProfileError::ProfileNotFound);
        },
    };
    if !(stored.user == caller.principal) {
        return Err(ProfileError::NotProfileOwner);
    }
    let updated = UserProfile {
        name: match name {
            Some(text) => text,
            None => stored.name,
        },
        email: match email {
            Some(text) => text,
            None => stored.email,
        },
        profession: match profession {
            Some(text) => Some(text),
            None => stored.profession,
        },
        goals: match goals {
            Some(text) => Some(text),
            None => stored.goals,
        },
        country: match country {
            Some(text) => text,
            None => stored.country,
        },
        user: stored.user,
    };
    match require_fields(&updated.name, &updated.email, &updated.country) {
        Err(e) => Err(e),
        Ok(_) => Ok(updated),
    }
}

/// The outcome of an update, check by check.
pub open spec fn update_verdict(
    existing: Option<UserProfile>,
    authenticated: bool,
    caller: Seq<char>,
    name: Option<String>,
    email: Option<String>,
    profession: Option<String>,
    goals: Option<String>,
    country: Option<String>,
) -> Result<UserProfile, ProfileError> {
    if !authenticated {
        Err(ProfileError::AccessDenied)
    } else {
        match existing {
            None => Err(ProfileError::ProfileNotFound),
            Some(stored) => {
                let updated = merged(stored, name, email, profession, goals, country);
                if stored.user@ != caller {
                    Err(ProfileError::NotProfileOwner)
                } else {
                    match required_verdict(updated.name@, updated.email@, updated.country@) {
                        Err(e) => Err(e),
                        Ok(_) => Ok(updated),
                    }
                }
            },
        }
    }
}

/// The outcome of a read of the profile of `user_id` by `requester`.
pub open spec fn read_verdict(
    admins: Set<Seq<char>>,
    authenticated: bool,
    requester: Seq<char>,
    user_id: Seq<char>,
    stored: Option<UserProfile>,
) -> Result<UserProfile, ProfileError> {
    if authenticated && (requester == user_id || admins.contains(requester)) {
        match stored {
            Some(profile) => Ok(profile),
            None => Err(ProfileError::AccessDenied),
        }
    } else {
        Err(ProfileError::AccessDenied)
    }
}

/// The profile of `user_id`, for its owner or an administrator. Any other
/// requester is refused with `AccessDenied`, and so is a request for a
/// profile that does not exist, so that a refusal does not tell whether the
/// user exists.
pub fn get_user_by_id<O: AuthorityOracle>(
    oracle: &O,
    requester: &Caller,
    user_id: &String,
    stored: Option<UserProfile>,
) -> (outcome: Result<UserProfile, ProfileError>)
    requires
        oracle.inv(),
    ensures
        outcome == read_verdict(
            oracle.admins(),
            requester.authenticated,
            requester.principal@,
            user_id@,
            stored,
        ),
{
    if !requester.authenticated {
        return Err(ProfileError::AccessDenied);
    }
    let allowed = requester.principal == *user_id || oracle.is_admin(&requester.principal);
    if !allowed {
        return Err(ProfileError::AccessDenied);
    }
    match stored {
        Some(profile) => Ok(profile),
        None => Err(ProfileError::AccessDenied),
    }
}

/// A profile as it is shown to others.
#[derive(Debug, PartialEq, Eq)]
pub struct ListedProfile {
    pub user: String,
    pub name: String,
    /// The email address, unless it is withheld.
    pub email: Option<String>,
    /// Whether the owner lets everyone see the email address.
    pub privacy_public: bool,
}

/// The profile as `requester` may see it: the email address is withheld
/// from everyone but the owner unless the profile is public.
pub fn get_user_profile_with_privacy(profile: ListedProfile, requester: &String) -> (shown:
    ListedProfile)
    ensures
        shown.user == profile.user,
        shown.name == profile.name,
        shown.privacy_public == profile.privacy_public,
        shown.email == if !profile.privacy_public && requester@ != profile.user@ {
            None
        } else {
            profile.email
        },
{
    if !profile.privacy_public && !(*requester == profile.user) {
        ListedProfile {
            user: profile.user,
            name: profile.name,
            email: None,
            privacy_public: profile.privacy_public,
        }
    } else {
        profile
    }
}

/// The entry points of user management.
pub struct UserManagement;

impl UserManagement {
    /// The profile to store for `user`; see [`save_user_profile`].
    pub fn save_profile(
        name: String,
        email: String,
        profession: Option<String>,
        goals: Option<String>,
        country: String,
        user: String,
    ) -> (outcome: Result<UserProfile, ProfileError>)
        ensures
            match outcome {
                Ok(profile) => required_verdict(name@, email@, country@) is Ok && profile == (
                UserProfile { name, email, profession, goals, country, user }),
                Err(e) => required_verdict(name@, email@, country@) == Err::<(), ProfileError>(e),
            },
    {
        save_user_profile(name, email, profession, goals, country, user)
    }

    /// The profile to store after an update; see
    /// [`user_management_update_profile`].
    pub fn update_profile(
        existing: Option<UserProfile>,
        caller: &Caller,
        name: Option<String>,
        email: Option<String>,
        profession: Option<String>,
        goals: Option<String>,
        country: Option<String>,
    ) -> (outcome: Result<UserProfile, ProfileError>)
        ensures
            outcome == update_verdict(
                existing,
                caller.authenticated,
                caller.principal@,
                name,
                email,
                profession,
                goals,
                country,
            ),
    {
        user_management_update_profile(existing, caller, name, email, profession, goals, country)
    }
}

} // verus!
