//! Identifier lists.
//!
//! Courses and principals are named by opaque strings. An index entry is an
//! ordered list of such names; its mathematical model is a sequence of
//! character sequences.

use vstd::prelude::*;

verus! {

/// A course or principal name, as contracts see it.
pub type Id = Seq<char>;

/// The names held by `list`, in order.
pub open spec fn id_seq(list: &Vec<String>) -> Seq<Id> {
    Seq::new(list@.len(), |i: int| list@[i]@)
}

/// `list` with every occurrence of `id` taken out; the order of the rest is kept.
pub open spec fn without(list: Seq<Id>, id: Id) -> Seq<Id>
    decreases list.len(),
{
    if list.len() == 0 {
        list
    } else if list.last() == id {
        without(list.drop_last(), id)
    } else {
        without(list.drop_last(), id).push(list.last())
    }
}

/// `list` with `id` appended unless it is already there.
pub open spec fn with_id(list: Seq<Id>, id: Id) -> Seq<Id> {
    if list.contains(id) {
        list
    } else {
        list.push(id)
    }
}

/// What `without` keeps: exactly the members other than `id`.
pub proof fn lemma_without_members(list: Seq<Id>, id: Id)
    ensures
        !without(list, id).contains(id),
        forall|x: Id| x != id ==> (#[trigger] without(list, id).contains(x) <==> list.contains(x)),
        without(list, id).len() <= list.len(),
        !list.contains(id) ==> without(list, id) == list,
    decreases list.len(),
{
    if list.len() > 0 {
        let front = list.drop_last();
        let kept = without(front, id);
        lemma_without_members(front, id);
        assert(list =~= front.push(list.last()));
        assert forall|x: Id| x != id implies (#[trigger] without(list, id).contains(x)
            <==> list.contains(x)) by {
            if list.contains(x) {
                let i = choose|i: int| 0 <= i < list.len() && list[i] == x;
                if i < front.len() {
                    assert(kept.contains(x));
                    if list.last() != id {
                        let j = choose|j: int| 0 <= j < kept.len() && kept[j] == x;
                        assert(kept.push(list.last())[j] == x);
                    }
                } else {
                    assert(kept.push(x)[kept.len() as int] == x);
                }
            }
            if without(list, id).contains(x) {
                let j = choose|j: int| 0 <= j < without(list, id).len() && without(list, id)[j] == x;
                if !(list.last() != id && j == kept.len()) {
                    assert(kept.contains(x));
                }
            }
        }
    }
}

/// `without` never introduces a repetition.
pub proof fn lemma_without_unique(list: Seq<Id>, id: Id)
    requires
        list.no_duplicates(),
    ensures
        without(list, id).no_duplicates(),
    decreases list.len(),
{
    if list.len() > 0 {
        let front = list.drop_last();
        let kept = without(front, id);
        lemma_without_unique(front, id);
        lemma_without_members(front, id);
        if list.last() != id {
            assert(!kept.contains(list.last()));
        }
    }
}

/// Appending a name that is absent keeps a list free of repetitions.
pub proof fn lemma_with_id_unique(list: Seq<Id>, id: Id)
    requires
        list.no_duplicates(),
    ensures
        with_id(list, id).no_duplicates(),
        with_id(list, id).contains(id),
        forall|x: Id| x != id ==> (#[trigger] with_id(list, id).contains(x) <==> list.contains(x)),
{
    if !(list.contains(id)) {
        let grown = list.push(id);
        assert(grown[list.len() as int] == id);
        assert forall|x: Id| x != id implies (#[trigger] grown.contains(x) <==> list.contains(
            x,
        )) by {
            if list.contains(x) {
                let i = choose|i: int| 0 <= i < list.len() && list[i] == x;
                assert(grown[i] == x);
            }
        }
    }
}

/// Whether `id` occurs in `list`.
pub fn contains_id(list: &Vec<String>, id: &String) -> (found: bool)
    ensures
        found == id_seq(list).contains(id@),
{
    let mut i: usize = 0;
    while i < list.len()
        invariant
            i <= list.len(),
            forall|j: int| 0 <= j < i ==> id_seq(list)[j] != id@,
        decreases list.len() - i,
    {
        if list[i] == *id {
            assert(id_seq(list)[i as int] == id@);
            return true;
        }
        i += 1;
    }
    false
}

/// An independent copy of `list`.
pub fn clone_ids(list: &Vec<String>) -> (copy: Vec<String>)
    ensures
        id_seq(&copy) == id_seq(list),
{
    let mut copy: Vec<String> = Vec::new();
    let mut i: usize = 0;
    while i < list.len()
        invariant
            i <= list.len(),
            copy@.len() == i,
            forall|j: int| 0 <= j < i ==> copy@[j]@ == list@[j]@,
        decreases list.len() - i,
    {
        copy.push(list[i].clone());
        i += 1;
    }
    copy
}

/// A copy of `list` that leaves out every occurrence of `id`.
pub fn remove_id(list: &Vec<String>, id: &String) -> (kept: Vec<String>)
    ensures
        id_seq(&kept) == without(id_seq(list), id@),
{
    let mut kept: Vec<String> = Vec::new();
    let mut i: usize = 0;
    while i < list.len()
        invariant
            i <= list.len(),
            id_seq(&kept) == without(id_seq(list).take(i as int), id@),
        decreases list.len() - i,
    {
        let ghost prefix = id_seq(list).take(i as int + 1);
        assert(prefix.drop_last() =~= id_seq(list).take(i as int));
        if !(list[i] == *id) {
            kept.push(list[i].clone());
        }
        i += 1;
    }
    assert(id_seq(list).take(list.len() as int) =~= id_seq(list));
    kept
}

/// A copy of `list` that ends with `id` unless `list` already holds it.
pub fn append_id(list: &Vec<String>, id: &String) -> (grown: Vec<String>)
    ensures
        id_seq(&grown) == with_id(id_seq(list), id@),
{
    let mut grown = clone_ids(list);
    if !contains_id(list, id) {
        grown.push(id.clone());
    }
    grown
}

} // verus!
