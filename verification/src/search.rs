//! Depth-first search over stored prerequisite edges.
//!
//! The search answers whether a target course can be reached from a start
//! course. It keeps two markings. The trail is the chain of courses under
//! exploration; meeting one of them again would mean that the stored data
//! already holds a cycle. The visited list names every course ever entered;
//! once a course has left the trail without reaching the target, no later
//! search needs to enter it again, because what can be reached from a course
//! does not depend on how the search came to it. The trail is an explicit
//! stack, so the depth of the graph does not consume call stack.

use vstd::prelude::*;
use crate::graph::{
    acyclic, edge, is_path, lemma_path_push, lemma_reaches_basics,
    lemma_settled_blocks, prereq_key, prerequisites_of, reaches, settled,
};
use crate::ids::{contains_id, id_seq, Id};
use crate::keys::{KeyView, DataKey};
use crate::store::{DurableStore, StoreState};

verus! {

/// A course whose exploration is suspended while one of its prerequisites
/// is explored.
struct Frame {
    node: String,
    children: Vec<String>,
    next: usize,
}

/// The courses under exploration, outermost first.
spec fn trail(stack: Seq<Frame>, node: Id) -> Seq<Id> {
    Seq::new(stack.len() + 1, |i: int| if i < stack.len() { stack[i].node@ } else { node })
}

/// The stored prerequisite lists that the search has yet to read.
spec fn pending(s: StoreState, visited: Seq<Id>) -> Set<KeyView> {
    s.entries.dom().filter(
        |key: KeyView|
            match key {
                KeyView::CoursePrerequisites(course) => !visited.contains(course),
                _ => false,
            },
    )
}

/// The frame holds the prerequisites of its course, and those already
/// handled have been entered.
spec fn frame_ok(s: StoreState, visited: Seq<Id>, node: Id, children: Seq<Id>, next: int) -> bool {
    &&& children == prerequisites_of(s, node)
    &&& 0 <= next <= children.len()
    &&& forall|j: int| 0 <= j < next ==> visited.contains(#[trigger] children[j])
}

/// What holds whenever the search is about to take its next step.
spec fn searching(
    s: StoreState,
    start: Id,
    target: Id,
    before: Seq<Id>,
    visited: Seq<Id>,
    stack: Seq<Frame>,
    node: Id,
    children: Seq<Id>,
    next: int,
) -> bool {
    let t = trail(stack, node);
    &&& is_path(s, t)
    &&& t[0] == start
    &&& forall|i: int| 0 <= i < t.len() ==> visited.contains(#[trigger] t[i]) && t[i] != target
    &&& !visited.contains(target)
    &&& forall|x: Id| #[trigger] before.contains(x) ==> visited.contains(x)
    &&& forall|from: Id, to: Id|
        visited.contains(from) && !t.contains(from) && #[trigger] edge(s, from, to)
            ==> visited.contains(to)
    &&& forall|i: int|
        0 <= i < stack.len() ==> frame_ok(
            s,
            visited,
            (#[trigger] stack[i]).node@,
            id_seq(&stack[i].children),
            stack[i].next as int,
        )
    &&& frame_ok(s, visited, node, children, next)
}

/// Entering a course leaves no more lists to read than before, and fewer if
/// the course has a stored list that was still unread.
proof fn lemma_pending_shrinks(s: StoreState, visited: Seq<Id>, course: Id)
    requires
        s.entries.dom().finite(),
        !visited.contains(course),
    ensures
        s.holds(prereq_key(course)) ==> pending(s, visited.push(course)).len() < pending(
            s,
            visited,
        ).len(),
        !s.holds(prereq_key(course)) ==> pending(s, visited.push(course)) == pending(s, visited),
{
    let more = visited.push(course);
    assert forall|x: Id| more.contains(x) <==> visited.contains(x) || x == course by {
        if visited.contains(x) {
            let i = choose|i: int| 0 <= i < visited.len() && visited[i] == x;
            assert(more[i] == x);
        }
        if x == course {
            assert(more[visited.len() as int] == x);
        }
    }
    if s.holds(prereq_key(course)) {
        pending(s, more).lemma_subset_not_in_lt(pending(s, visited), prereq_key(course));
    }
}

fn on_trail(stack: &Vec<Frame>, node: &String, id: &String) -> (found: bool)
    ensures
        found == trail(stack@, node@).contains(id@),
{
    let ghost t = trail(stack@, node@);
    if *node == *id {
        assert(t[stack@.len() as int] == id@);
        return true;
    }
    let mut i: usize = 0;
    while i < stack.len()
        invariant
            i <= stack@.len(),
            t == trail(stack@, node@),
            node@ != id@,
            forall|j: int| 0 <= j < i ==> t[j] != id@,
        decreases stack@.len() - i,
    {
        if stack[i].node == *id {
            assert(t[i as int] == id@);
            return true;
        }
        i += 1;
    }
    false
}

/// Whether `target_course` can be reached from `current_course` along stored
/// prerequisite edges.
///
/// `visited` carries what earlier searches for the same target have learned:
/// it must be closed under edges and must not hold the target. When the
/// answer is no, everything that this search entered has joined it, and it
/// is closed again. No course is entered twice.
///
/// A no is always right. A yes is right as long as the stored edges are
/// free of cycles; if they are not, the search also says yes when it meets
/// a course of its own trail again.
pub fn has_cycle<S: DurableStore>(
    store: &S,
    current_course: &String,
    target_course: &String,
    visited: &mut Vec<String>,
) -> (found: bool)
    requires
        store.inv(),
        settled(store.state(), id_seq(old(visited)), target_course@),
    ensures
        !found ==> !reaches(store.state(), current_course@, target_course@),
        found ==> reaches(store.state(), current_course@, target_course@) || !acyclic(
            store.state(),
        ),
        !found ==> settled(store.state(), id_seq(final(visited)), target_course@),
        !found ==> id_seq(final(visited)).contains(current_course@),
        forall|x: Id| #[trigger]
            id_seq(old(visited)).contains(x) ==> id_seq(final(visited)).contains(x),
        id_seq(old(visited)).no_duplicates() ==> id_seq(final(visited)).no_duplicates(),
{
    let ghost s = store.state();
    let ghost start = current_course@;
    let ghost target = target_course@;
    let ghost before = id_seq(visited);
    proof {
        lemma_reaches_basics(s, start, start);
    }
    if *current_course == *target_course {
        return true;
    }
    if contains_id(visited, current_course) {
        proof {
            lemma_settled_blocks(s, before, target, start);
        }
        return false;
    }
    visited.push(current_course.clone());
    proof {
        let v = id_seq(visited);
        assert(v =~= before.push(start));
    }
    let mut node: String = current_course.clone();
    let mut children: Vec<String> = match store.get(&DataKey::prerequisites(current_course)) {
        Some(list) => list,
        None => Vec::new(),
    };
    let mut next: usize = 0;
    let mut stack: Vec<Frame> = Vec::new();
    proof {
        let v = id_seq(visited);
        assert(v[before.len() as int] == start);
        assert(id_seq(&children) =~= prerequisites_of(s, start));
        let t = trail(stack@, node@);
        assert forall|x: Id| #[trigger] before.contains(x) implies v.contains(x) by {
            let i = choose|i: int| 0 <= i < before.len() && before[i] == x;
            assert(v[i] == x);
        }
        assert(!v.contains(target)) by {
            if v.contains(target) {
                let i = choose|i: int| 0 <= i < v.len() && v[i] == target;
                if i < before.len() {
                    assert(before[i] == target);
                }
            }
        }
    }
    loop
        invariant
            store.inv(),
            s == store.state(),
            start == current_course@,
            target == target_course@,
            before == id_seq(old(visited)),
            before.no_duplicates() ==> id_seq(visited).no_duplicates(),
            s.entries.dom().finite(),
            searching(
                s,
                start,
                target,
                before,
                id_seq(visited),
                stack@,
                node@,
                id_seq(&children),
                next as int,
            ),
        decreases pending(s, id_seq(visited)).len(), stack@.len(), children@.len() - next,
    {
        let ghost v = id_seq(visited);
        let ghost t = trail(stack@, node@);
        let ghost kids = id_seq(&children);
        if next < children.len() {
            let child: String = children[next].clone();
            next += 1;
            assert(kids[next - 1] == child@);
            if child == *target_course {
                proof {
                    lemma_path_push(s, t, target);
                }
                return true;
            }
            if on_trail(&stack, &node, &child) {
                proof {
                    // The stored data holds a cycle: along the trail from the
                    // course met again, and back to it.
                    let i = choose|i: int| 0 <= i < t.len() && t[i] == child@;
                    let part = t.subrange(i, t.len() as int);
                    lemma_path_push(s, part, child@);
                }
                return true;
            }
            if contains_id(visited, &child) {
                // Entered before and off the trail: nothing new lies that way.
            } else {
                proof {
                    lemma_pending_shrinks(s, v, child@);
                }
                visited.push(child.clone());
                let ghost v2 = id_seq(visited);
                proof {
                    assert(v2 =~= v.push(child@));
                    assert(v2[v.len() as int] == child@);
                    assert forall|x: Id| #[trigger] v.contains(x) implies v2.contains(x) by {
                        let i = choose|i: int| 0 <= i < v.len() && v[i] == x;
                        assert(v2[i] == x);
                    }
                }
                match store.get(&DataKey::prerequisites(&child)) {
                    Some(list) => {
                        stack.push(Frame { node, children, next });
                        node = child;
                        children = list;
                        next = 0;
                        proof {
                            let t2 = trail(stack@, node@);
                            lemma_path_push(s, t, node@);
                            assert(t2 =~= t.push(node@));
                            assert forall|from: Id, to: Id|
                                v2.contains(from) && !t2.contains(from) && #[trigger] edge(
                                    s,
                                    from,
                                    to,
                                ) implies v2.contains(to) by {
                                if t.contains(from) {
                                    let i = choose|i: int| 0 <= i < t.len() && t[i] == from;
                                    assert(t2[i] == from);
                                }
                            }
                        }
                    },
                    None => {},
                }
            }
        } else {
            match stack.pop() {
                Some(frame) => {
                    node = frame.node;
                    children = frame.children;
                    next = frame.next;
                    proof {
                        let t2 = trail(stack@, node@);
                        assert(t2 =~= t.subrange(0, t.len() - 1));
                        assert forall|from: Id, to: Id|
                            v.contains(from) && !t2.contains(from) && #[trigger] edge(
                                s,
                                from,
                                to,
                            ) implies v.contains(to) by {
                            if t.contains(from) {
                                let i = choose|i: int| 0 <= i < t.len() && t[i] == from;
                                if i < t2.len() {
                                    assert(t2[i] == from);
                                }
                            }
                        }
                    }
                },
                None => {
                    proof {
                        lemma_settled_blocks(s, v, target, start);
                    }
                    return false;
                },
            }
        }
    }
}

} // verus!
