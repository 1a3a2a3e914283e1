//! Keys of the key/value stores.
//!
//! A key is a namespace tag together with the identifiers of the entity it
//! names, so two keys are the same exactly when tag and identifiers agree.

use vstd::prelude::*;
use crate::ids::Id;

verus! {

/// The key of one stored entry.
#[derive(Debug)]
pub enum DataKey {
    /// Marks that a user may open a course: course, then user.
    CourseAccess(String, String),
    /// The courses that a user may open.
    UserCourses(String),
    /// The users who may open a course.
    CourseUsers(String),
    /// The courses that must be taken before a course.
    CoursePrerequisites(String),
    /// The catalogue record of a course.
    Course(String),
    /// The record of a course module.
    Module(String),
    /// The owner of an email address.
    Email(String),
    /// The addresses of the administrators.
    Admins,
    /// The versions that the deployment has gone through.
    VersionHistory,
    /// The outcome of the latest migration.
    MigrationStatus,
}

/// A key as contracts see it.
pub enum KeyView {
    CourseAccess(Id, Id),
    UserCourses(Id),
    CourseUsers(Id),
    CoursePrerequisites(Id),
    Course(Id),
    Module(Id),
    Email(Id),
    Admins,
    VersionHistory,
    MigrationStatus,
}

impl View for DataKey {
    type V = KeyView;

    open spec fn view(&self) -> KeyView {
        match self {
            DataKey::CourseAccess(course, user) => KeyView::CourseAccess(course@, user@),
            DataKey::UserCourses(user) => KeyView::UserCourses(user@),
            DataKey::CourseUsers(course) => KeyView::CourseUsers(course@),
            DataKey::CoursePrerequisites(course) => KeyView::CoursePrerequisites(course@),
            DataKey::Course(course) => KeyView::Course(course@),
            DataKey::Module(module) => KeyView::Module(module@),
            DataKey::Email(email) => KeyView::Email(email@),
            DataKey::Admins => KeyView::Admins,
            DataKey::VersionHistory => KeyView::VersionHistory,
            DataKey::MigrationStatus => KeyView::MigrationStatus,
        }
    }
}

impl DataKey {
    /// The key of the access record of `user` for `course`.
    pub fn access(course: &String, user: &String) -> (key: DataKey)
        ensures
            key@ == KeyView::CourseAccess(course@, user@),
    {
        DataKey::CourseAccess(course.clone(), user.clone())
    }

    /// The key of the course list of `user`.
    pub fn user_courses(user: &String) -> (key: DataKey)
        ensures
            key@ == KeyView::UserCourses(user@),
    {
        DataKey::UserCourses(user.clone())
    }

    /// The key of the user list of `course`.
    pub fn course_users(course: &String) -> (key: DataKey)
        ensures
            key@ == KeyView::CourseUsers(course@),
    {
        DataKey::CourseUsers(course.clone())
    }

    /// The key of the prerequisite list of `course`.
    pub fn prerequisites(course: &String) -> (key: DataKey)
        ensures
            key@ == KeyView::CoursePrerequisites(course@),
    {
        DataKey::CoursePrerequisites(course.clone())
    }

    /// The key of the catalogue record of `course`.
    pub fn course(course: &String) -> (key: DataKey)
        ensures
            key@ == KeyView::Course(course@),
    {
        DataKey::Course(course.clone())
    }

    /// The key of the record of `module`.
    pub fn module(module: &String) -> (key: DataKey)
        ensures
            key@ == KeyView::Module(module@),
    {
        DataKey::Module(module.clone())
    }

    /// The key of the owner of `email`.
    pub fn email(email: &String) -> (key: DataKey)
        ensures
            key@ == KeyView::Email(email@),
    {
        DataKey::Email(email.clone())
    }

    /// Whether two keys name the same entry.
    pub fn same_as(&self, other: &DataKey) -> (same: bool)
        ensures
            same == (self@ == other@),
    {
        match (self, other) {
            (DataKey::CourseAccess(c1, u1), DataKey::CourseAccess(c2, u2)) => *c1 == *c2 && *u1
                == *u2,
            (DataKey::UserCourses(u1), DataKey::UserCourses(u2)) => *u1 == *u2,
            (DataKey::CourseUsers(c1), DataKey::CourseUsers(c2)) => *c1 == *c2,
            (DataKey::CoursePrerequisites(c1), DataKey::CoursePrerequisites(c2)) => *c1 == *c2,
            (DataKey::Course(c1), DataKey::Course(c2)) => *c1 == *c2,
            (DataKey::Module(m1), DataKey::Module(m2)) => *m1 == *m2,
            (DataKey::Email(e1), DataKey::Email(e2)) => *e1 == *e2,
            (DataKey::Admins, DataKey::Admins) => true,
            (DataKey::VersionHistory, DataKey::VersionHistory) => true,
            (DataKey::MigrationStatus, DataKey::MigrationStatus) => true,
            _ => false,
        }
    }

    /// An independent copy of this key.
    pub fn duplicate(&self) -> (copy: DataKey)
        ensures
            copy@ == self@,
    {
        match self {
            DataKey::CourseAccess(course, user) => DataKey::CourseAccess(
                course.clone(),
                user.clone(),
            ),
            DataKey::UserCourses(user) => DataKey::UserCourses(user.clone()),
            DataKey::CourseUsers(course) => DataKey::CourseUsers(course.clone()),
            DataKey::CoursePrerequisites(course) => DataKey::CoursePrerequisites(course.clone()),
            DataKey::Course(course) => DataKey::Course(course.clone()),
            DataKey::Module(module) => DataKey::Module(module.clone()),
            DataKey::Email(email) => DataKey::Email(email.clone()),
            DataKey::Admins => DataKey::Admins,
            DataKey::VersionHistory => DataKey::VersionHistory,
            DataKey::MigrationStatus => DataKey::MigrationStatus,
        }
    }
}

} // verus!
