//! Editing the prerequisites of a course.
//!
//! An edit replaces the whole list. It is checked in a fixed order, and the
//! first check that fails decides the error; a failed edit writes nothing.

use vstd::prelude::*;
use crate::catalog::{created_by, CourseCatalog};
use crate::error::Error;
use crate::gate::{require_course_creator, Caller};
use crate::graph::{
    acyclic, graph_valid, installed, lemma_install_keeps_acyclic, lemma_install_keeps_valid,
    reaches, settled,
};
use crate::ids::{contains_id, id_seq, Id};
use crate::keys::DataKey;
use crate::search::has_cycle;
use crate::store::{DurableStore, StoreState};

verus! {

/// Every listed course exists.
pub open spec fn all_exist(courses: Set<Id>, list: Seq<Id>) -> bool {
    forall|i: int| 0 <= i < list.len() ==> courses.contains(#[trigger] list[i])
}

/// The course can be reached from a member of the list, so that an edge from
/// the course to that member would close a loop.
pub open spec fn closes_loop(s: StoreState, course: Id, list: Seq<Id>) -> bool {
    exists|i: int| 0 <= i < list.len() && reaches(s, #[trigger] list[i], course)
}

/// The outcome of the check for repeated prerequisites.
pub open spec fn duplicate_verdict(list: Seq<Id>) -> Result<(), Error> {
    if list.no_duplicates() {
        Ok(())
    } else {
        Err(Error::DuplicatePrerequisite)
    }
}

/// The outcome of the check for loops: a course that lists itself is
/// reported first, then a loop through other courses.
pub open spec fn cycle_verdict(s: StoreState, course: Id, list: Seq<Id>) -> Result<(), Error> {
    if list.contains(course) {
        Err(Error::SelfPrerequisite)
    } else if closes_loop(s, course, list) {
        Err(Error::CircularDependency)
    } else {
        Ok(())
    }
}

/// `outcome` is what the checks call for. Should the stored edges already
/// hold a cycle, an edit that passes every check may also be reported as
/// closing a loop.
pub open spec fn follows(s: StoreState, verdict: Result<(), Error>, outcome: Result<(), Error>) -> bool {
    outcome == verdict || (!acyclic(s) && verdict is Ok && outcome == Err::<(), Error>(
        Error::CircularDependency,
    ))
}

/// The outcome of an edit, check by check in the order in which they are made.
pub open spec fn edit_verdict(
    s: StoreState,
    courses: Set<Id>,
    creators: Map<Id, Id>,
    authenticated: bool,
    caller: Id,
    course: Id,
    list: Seq<Id>,
) -> Result<(), Error> {
    if !(authenticated && created_by(creators, course, caller)) {
        Err(Error::Unauthorized)
    } else if !courses.contains(course) {
        Err(Error::CourseNotFound)
    } else if !all_exist(courses, list) {
        Err(Error::PrerequisiteCourseNotFound)
    } else if !list.no_duplicates() {
        Err(Error::DuplicatePrerequisite)
    } else {
        cycle_verdict(s, course, list)
    }
}

/// Checks that no course is listed twice.
pub fn validate_no_duplicate_prerequisites(prerequisites: &Vec<String>) -> (outcome: Result<
    (),
    Error,
>)
    ensures
        outcome == duplicate_verdict(id_seq(prerequisites)),
{
    let ghost list = id_seq(prerequisites);
    let mut seen: Vec<String> = Vec::new();
    let mut i: usize = 0;
    while i < prerequisites.len()
        invariant
            i <= prerequisites.len(),
            list == id_seq(prerequisites),
            id_seq(&seen) == list.take(i as int),
            list.take(i as int).no_duplicates(),
        decreases prerequisites.len() - i,
    {
        if contains_id(&seen, &prerequisites[i]) {
            proof {
                let j = choose|j: int| 0 <= j < i && list.take(i as int)[j] == list[i as int];
                assert(list[j] == list[i as int]);
            }
            return Err(Error::DuplicatePrerequisite);
        }
        seen.push(prerequisites[i].clone());
        proof {
            let grown = list.take(i as int + 1);
            assert forall|a: int, b: int|
                0 <= a < grown.len() && 0 <= b < grown.len() && a != b implies grown[a]
                != grown[b] by {
                if a < i && b < i {
                } else if a < i {
                }
            }
        }
        i += 1;
    }
    assert(list.take(list.len() as int) =~= list);
    Ok(())
}

/// Checks that installing `new_prerequisites` for the course would close no
/// loop: the course must not list itself, and must not be reachable from
/// any listed course along the edges stored so far.
pub fn validate_no_circular_dependency<S: DurableStore>(
    store: &S,
    course_id: &String,
    new_prerequisites: &Vec<String>,
) -> (outcome: Result<(), Error>)
    requires
        store.inv(),
    ensures
        follows(
            store.state(),
            cycle_verdict(store.state(), course_id@, id_seq(new_prerequisites)),
            outcome,
        ),
{
    let ghost s = store.state();
    let ghost list = id_seq(new_prerequisites);
    if contains_id(new_prerequisites, course_id) {
        return Err(Error::SelfPrerequisite);
    }
    let mut visited: Vec<String> = Vec::new();
    let mut i: usize = 0;
    while i < new_prerequisites.len()
        invariant
            i <= new_prerequisites.len(),
            store.inv(),
            s == store.state(),
            list == id_seq(new_prerequisites),
            !list.contains(course_id@),
            settled(s, id_seq(&visited), course_id@),
            forall|j: int| 0 <= j < i ==> !reaches(s, #[trigger] list[j], course_id@),
        decreases new_prerequisites.len() - i,
    {
        if has_cycle(store, &new_prerequisites[i], course_id, &mut visited) {
            assert(reaches(s, list[i as int], course_id@) || !acyclic(s));
            return Err(Error::CircularDependency);
        }
        i += 1;
    }
    Ok(())
}

/// Replaces the prerequisites of the course by `new_prerequisites`.
///
/// The checks, in order: the caller is authenticated and is the creator on
/// record for the course, else `Unauthorized`; the course exists, else
/// `CourseNotFound`; every listed course exists, else
/// `PrerequisiteCourseNotFound`; no course is listed twice, else
/// `DuplicatePrerequisite`; the course does not list itself, else
/// `SelfPrerequisite`; the new edges close no loop with the edges stored for
/// other courses, else `CircularDependency`. On success the stored list is
/// replaced as a whole; on failure the store is left as it was. A stored
/// graph that is free of cycles stays so.
pub fn edit_prerequisite<S: DurableStore, K: CourseCatalog>(
    store: &mut S,
    catalog: &K,
    creator: &Caller,
    course_id: &String,
    new_prerequisites: &Vec<String>,
) -> (outcome: Result<(), Error>)
    requires
        old(store).inv(),
        catalog.inv(),
    ensures
        final(store).inv(),
        follows(
            old(store).state(),
            edit_verdict(
                old(store).state(),
                catalog.courses(),
                catalog.creators(),
                creator.authenticated,
                creator.principal@,
                course_id@,
                id_seq(new_prerequisites),
            ),
            outcome,
        ),
        final(store).state() == if outcome is Ok {
            installed(old(store).state(), course_id@, id_seq(new_prerequisites))
        } else {
            old(store).state()
        },
        acyclic(old(store).state()) ==> acyclic(final(store).state()),
        graph_valid(old(store).state(), catalog.courses()) ==> graph_valid(
            final(store).state(),
            catalog.courses(),
        ),
{
    let ghost s = store.state();
    let ghost list = id_seq(new_prerequisites);
    match require_course_creator(catalog, creator, course_id) {
        Err(_) => {
            return Err(Error::Unauthorized);
        },
        Ok(_) => {},
    }
    if !catalog.has_course(course_id) {
        return Err(Error::CourseNotFound);
    }
    let mut i: usize = 0;
    while i < new_prerequisites.len()
        invariant
            i <= new_prerequisites.len(),
            catalog.inv(),
            store.inv(),
            s == store.state(),
            s == old(store).state(),
            list == id_seq(new_prerequisites),
            creator.authenticated && created_by(
                catalog.creators(),
                course_id@,
                creator.principal@,
            ),
            catalog.courses().contains(course_id@),
            forall|j: int| 0 <= j < i ==> catalog.courses().contains(#[trigger] list[j]),
        decreases new_prerequisites.len() - i,
    {
        if !catalog.has_course(&new_prerequisites[i]) {
            assert(!catalog.courses().contains(list[i as int]));
            return Err(Error::PrerequisiteCourseNotFound);
        }
        i += 1;
    }
    match validate_no_duplicate_prerequisites(new_prerequisites) {
        Err(e) => {
            return Err(e);
        },
        Ok(_) => {},
    }
    match validate_no_circular_dependency(store, course_id, new_prerequisites) {
        Err(e) => {
            return Err(e);
        },
        Ok(_) => {},
    }
    proof {
        if acyclic(s) {
            lemma_install_keeps_acyclic(s, course_id@, list);
        }
        if graph_valid(s, catalog.courses()) {
            lemma_install_keeps_valid(s, catalog.courses(), course_id@, list);
        }
    }
    store.set(&DataKey::prerequisites(course_id), new_prerequisites);
    Ok(())
}

} // verus!
