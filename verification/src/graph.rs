//! The prerequisite graph as contracts see it: an edge leads from a course
//! to each of its stored prerequisites.
//!
//! A course whose prerequisites were never set has none.

use vstd::prelude::*;
use crate::ids::Id;
use crate::keys::KeyView;
use crate::store::StoreState;

verus! {

/// The key of the prerequisite list of `course`.
pub open spec fn prereq_key(course: Id) -> KeyView {
    KeyView::CoursePrerequisites(course)
}

/// The stored prerequisites of `course`, in order.
pub open spec fn prerequisites_of(s: StoreState, course: Id) -> Seq<Id> {
    s.list(prereq_key(course))
}

/// `to` is a direct prerequisite of `from`.
pub open spec fn edge(s: StoreState, from: Id, to: Id) -> bool {
    prerequisites_of(s, from).contains(to)
}

/// `path` is a non-empty walk along edges.
pub open spec fn is_path(s: StoreState, path: Seq<Id>) -> bool {
    &&& path.len() >= 1
    &&& forall|i: int| 0 <= i < path.len() - 1 ==> edge(s, #[trigger] path[i], path[i + 1])
}

/// A walk of zero or more edges leads from `from` to `to`.
pub open spec fn reaches(s: StoreState, from: Id, to: Id) -> bool {
    exists|path: Seq<Id>| #[trigger] is_path(s, path) && path.first() == from && path.last() == to
}

/// No walk of one or more edges returns to where it began. This rules out
/// self-loops as well.
pub open spec fn acyclic(s: StoreState) -> bool {
    forall|path: Seq<Id>| !(#[trigger] is_path(s, path) && path.len() >= 2 && path.first() == path.last())
}

/// No prerequisite list repeats a course.
pub open spec fn lists_unique(s: StoreState) -> bool {
    forall|course: Id| (#[trigger] prerequisites_of(s, course)).no_duplicates()
}

/// Every prerequisite is one of `courses`.
pub open spec fn lists_within(s: StoreState, courses: Set<Id>) -> bool {
    forall|from: Id, to: Id| #[trigger] edge(s, from, to) ==> courses.contains(to)
}

/// The prerequisite data is in order: acyclic, free of repeated edges, and
/// referring to existing courses only.
pub open spec fn graph_valid(s: StoreState, courses: Set<Id>) -> bool {
    acyclic(s) && lists_unique(s) && lists_within(s, courses)
}

/// Nothing in `visited` is `target`, and `visited` is closed under edges.
pub open spec fn settled(s: StoreState, visited: Seq<Id>, target: Id) -> bool {
    &&& !visited.contains(target)
    &&& forall|from: Id, to: Id|
        visited.contains(from) && #[trigger] edge(s, from, to) ==> visited.contains(to)
}

/// The store after the prerequisites of `course` are replaced by `list`.
pub open spec fn installed(s: StoreState, course: Id, list: Seq<Id>) -> StoreState {
    s.set(prereq_key(course), list)
}

/// A walk can be continued along an edge.
pub proof fn lemma_path_push(s: StoreState, path: Seq<Id>, to: Id)
    requires
        is_path(s, path),
        edge(s, path.last(), to),
    ensures
        is_path(s, path.push(to)),
        path.push(to).first() == path.first(),
        path.push(to).last() == to,
{
}

/// Two walks that meet end to start make one walk.
pub proof fn lemma_path_join(s: StoreState, first: Seq<Id>, second: Seq<Id>)
    requires
        is_path(s, first),
        is_path(s, second),
        first.last() == second.first(),
    ensures
        is_path(s, first + second.drop_first()),
        (first + second.drop_first()).first() == first.first(),
        (first + second.drop_first()).last() == second.last(),
{
}

/// Every course reaches itself, and the source of an edge reaches its target.
pub proof fn lemma_reaches_basics(s: StoreState, from: Id, to: Id)
    ensures
        reaches(s, from, from),
        edge(s, from, to) ==> reaches(s, from, to),
{
    let stay = seq![from];
    assert(is_path(s, stay));
    if edge(s, from, to) {
        lemma_path_push(s, stay, to);
    }
}

/// A walk that starts inside a settled set never leaves it, so nothing in a
/// settled set reaches the target.
pub proof fn lemma_settled_blocks(s: StoreState, visited: Seq<Id>, target: Id, from: Id)
    requires
        settled(s, visited, target),
        visited.contains(from),
    ensures
        !reaches(s, from, target),
{
    if reaches(s, from, target) {
        let path = choose|path: Seq<Id>| #[trigger]
            is_path(s, path) && path.first() == from && path.last() == target;
        lemma_walk_stays(s, visited, target, path, path.len() - 1);
    }
}

proof fn lemma_walk_stays(s: StoreState, visited: Seq<Id>, target: Id, path: Seq<Id>, upto: int)
    requires
        settled(s, visited, target),
        is_path(s, path),
        visited.contains(path.first()),
        0 <= upto < path.len(),
    ensures
        visited.contains(path[upto]),
    decreases upto,
{
    if upto > 0 {
        lemma_walk_stays(s, visited, target, path, upto - 1);
    }
}

/// A walk in the graph after an install that never leaves `course` along an
/// edge is a walk in the graph before it.
proof fn lemma_walk_predates(s: StoreState, course: Id, list: Seq<Id>, path: Seq<Id>)
    requires
        is_path(installed(s, course, list), path),
        forall|i: int| 0 <= i < path.len() - 1 ==> path[i] != course,
    ensures
        is_path(s, path),
{
}

/// The first position from which `path` leaves `course` along an edge.
spec fn first_exit(path: Seq<Id>, course: Id, from: int) -> int
    decreases path.len() - from,
{
    if from >= path.len() - 1 {
        from
    } else if path[from] == course {
        from
    } else {
        first_exit(path, course, from + 1)
    }
}

proof fn lemma_first_exit(path: Seq<Id>, course: Id, from: int)
    requires
        0 <= from <= path.len() - 1,
    ensures
        from <= first_exit(path, course, from) <= path.len() - 1,
        forall|i: int| from <= i < first_exit(path, course, from) ==> path[i] != course,
        first_exit(path, course, from) < path.len() - 1 ==> path[first_exit(path, course, from)]
            == course,
    decreases path.len() - from,
{
    if from < path.len() - 1 && path[from] != course {
        lemma_first_exit(path, course, from + 1);
    }
}

/// The last position from which `path` leaves `course` along an edge, or -1.
spec fn last_exit(path: Seq<Id>, course: Id, below: int) -> int
    decreases below,
{
    if below <= 0 {
        -1
    } else if path[below - 1] == course {
        below - 1
    } else {
        last_exit(path, course, below - 1)
    }
}

proof fn lemma_last_exit(path: Seq<Id>, course: Id, below: int)
    requires
        0 <= below <= path.len() - 1,
    ensures
        -1 <= last_exit(path, course, below) < below,
        forall|i: int| last_exit(path, course, below) < i < below ==> path[i] != course,
        last_exit(path, course, below) >= 0 ==> path[last_exit(path, course, below)] == course,
    decreases below,
{
    if below > 0 && path[below - 1] != course {
        lemma_last_exit(path, course, below - 1);
    }
}

/// Acyclicity survives an install: replacing the prerequisites of `course`
/// by a list that does not name `course` and from none of whose members
/// `course` could be reached leaves the graph without a cycle.
pub proof fn lemma_install_keeps_acyclic(s: StoreState, course: Id, list: Seq<Id>)
    requires
        acyclic(s),
        !list.contains(course),
        forall|i: int| 0 <= i < list.len() ==> !reaches(s, #[trigger] list[i], course),
    ensures
        acyclic(installed(s, course, list)),
{
    let t = installed(s, course, list);
    assert forall|path: Seq<Id>| !(#[trigger] is_path(t, path) && path.len() >= 2 && path.first()
        == path.last()) by {
        if is_path(t, path) && path.len() >= 2 && path.first() == path.last() {
            let n = path.len() - 1;
            let out = last_exit(path, course, n);
            lemma_last_exit(path, course, n);
            if out < 0 {
                lemma_walk_predates(s, course, list, path);
            } else {
                // The walk leaves `course` for the last time at `out`, towards a
                // member of the new list; from there it runs through old edges to
                // its end, which is its start, and on to the first exit from
                // `course`: an old walk from that member back to `course`.
                let tail = path.subrange(out + 1, n + 1);
                let back = first_exit(path, course, 0);
                lemma_first_exit(path, course, 0);
                let front = path.subrange(0, back + 1);
                lemma_path_join(s, tail, front);
            }
        }
    }
}

/// Installing a list that is free of repetitions and names existing courses
/// only keeps the prerequisite data in order, provided it closes no loop.
pub proof fn lemma_install_keeps_valid(s: StoreState, courses: Set<Id>, course: Id, list: Seq<Id>)
    requires
        graph_valid(s, courses),
        list.no_duplicates(),
        forall|i: int| 0 <= i < list.len() ==> courses.contains(#[trigger] list[i]),
        !list.contains(course),
        forall|i: int| 0 <= i < list.len() ==> !reaches(s, #[trigger] list[i], course),
    ensures
        graph_valid(installed(s, course, list), courses),
{
    let t = installed(s, course, list);
    lemma_install_keeps_acyclic(s, course, list);
    assert forall|c: Id| (#[trigger] prerequisites_of(t, c)).no_duplicates() by {
        if c != course {
            assert(prerequisites_of(s, c).no_duplicates());
        }
    }
    assert forall|from: Id, to: Id| #[trigger] edge(t, from, to) implies courses.contains(to) by {
        if !(from == course) {
            assert(edge(s, from, to));
        }
    }
}

/// A graph without cycles has no self-loop.
pub proof fn lemma_acyclic_has_no_self_loop(s: StoreState, course: Id)
    requires
        acyclic(s),
    ensures
        !edge(s, course, course),
{
    if edge(s, course, course) {
        lemma_path_push(s, seq![course], course);
    }
}

/// One edit of the prerequisites of a course.
pub struct Edit {
    pub course: Id,
    pub list: Seq<Id>,
}

/// The edit closes no loop in `s`: the course does not list itself and
/// cannot be reached from any listed course.
pub open spec fn closes_no_loop(s: StoreState, edit: Edit) -> bool {
    &&& !edit.list.contains(edit.course)
    &&& forall|i: int| 0 <= i < edit.list.len() ==> !reaches(s, #[trigger] edit.list[i], edit.course)
}

/// The store after `edits` are made in order, each one taking effect only
/// if it closes no loop in the graph as it stands by then.
pub open spec fn edited(s: StoreState, edits: Seq<Edit>) -> StoreState
    decreases edits.len(),
{
    if edits.len() == 0 {
        s
    } else {
        let sofar = edited(s, edits.drop_last());
        if closes_no_loop(sofar, edits.last()) {
            installed(sofar, edits.last().course, edits.last().list)
        } else {
            sofar
        }
    }
}

/// Acyclicity over histories: whatever edits are made to a graph without
/// cycles, the graph that results has no cycle and no self-loop.
pub proof fn lemma_edits_keep_acyclic(s: StoreState, edits: Seq<Edit>)
    requires
        acyclic(s),
    ensures
        acyclic(edited(s, edits)),
        forall|course: Id| !#[trigger] edge(edited(s, edits), course, course),
    decreases edits.len(),
{
    if edits.len() > 0 {
        let sofar = edited(s, edits.drop_last());
        lemma_edits_keep_acyclic(s, edits.drop_last());
        if closes_no_loop(sofar, edits.last()) {
            lemma_install_keeps_acyclic(sofar, edits.last().course, edits.last().list);
        }
    }
    assert forall|course: Id| !#[trigger] edge(edited(s, edits), course, course) by {
        lemma_acyclic_has_no_self_loop(edited(s, edits), course);
    }
}

/// Replacement, not merge: of two installs for the same course only the
/// second one shows.
pub proof fn lemma_install_replaces(s: StoreState, course: Id, first: Seq<Id>, second: Seq<Id>)
    ensures
        installed(installed(s, course, first), course, second) == installed(s, course, second),
        prerequisites_of(installed(installed(s, course, first), course, second), course) == second,
{
    assert(installed(installed(s, course, first), course, second).entries =~= installed(
        s,
        course,
        second,
    ).entries);
}

/// A store without prerequisite entries has a valid, empty graph.
pub proof fn lemma_no_edges_is_valid(s: StoreState, courses: Set<Id>)
    requires
        forall|course: Id| !s.holds(#[trigger] prereq_key(course)),
    ensures
        graph_valid(s, courses),
{
}

} // verus!
