//! The ways in which an operation on access records or prerequisites fails.

use vstd::prelude::*;

verus! {

/// Why an operation was refused. A refused operation writes nothing.
#[derive(Clone, Copy, Debug, PartialEq, Eq, Structural)]
pub enum Error {
    /// The caller lacks the required relationship to the resource.
    Unauthorized,
    /// The pair already has an access record.
    AlreadyGranted,
    /// The course does not exist.
    CourseNotFound,
    /// A listed prerequisite does not exist.
    PrerequisiteCourseNotFound,
    /// A prerequisite is listed twice.
    DuplicatePrerequisite,
    /// A course is listed as its own prerequisite.
    SelfPrerequisite,
    /// The new prerequisites would close a loop.
    CircularDependency,
    /// The administration has not been set up.
    SystemNotInitialized,
}

} // verus!
