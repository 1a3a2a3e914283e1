//! Course categories and the removal of courses.

use vstd::prelude::*;
use vstd::string::StringExecFns;
use crate::catalog::{created_by, is_course_creator, CourseRecords};
use crate::gate::{AuthorityOracle, Caller};
use crate::ids::{id_seq, Id};
use crate::profile::byte_len;

verus! {

/// Longest accepted category name, in bytes.
pub const MAX_CATEGORY_NAME_LENGTH: usize = 100;

/// Longest accepted category description, in bytes.
pub const MAX_CATEGORY_DESCRIPTION_LENGTH: usize = 500;

/// A course category.
#[derive(Debug, PartialEq, Eq)]
pub struct CourseCategory {
    pub id: u128,
    pub name: String,
    pub description: Option<String>,
}

/// Why a registry operation was refused.
#[derive(Clone, Copy, Debug, PartialEq, Eq, Structural)]
pub enum RegistryError {
    /// The caller may not do this.
    Unauthorized,
    /// The name is empty.
    NameRequired,
    /// Name or description is too long.
    InvalidCategoryName,
    /// The course id is empty.
    EmptyCourseId,
    /// The course does not exist.
    CourseNotFound,
}

/// The id that follows `last`; the first id is 1, and the largest id is
/// followed by itself.
pub open spec fn following_id(last: Option<u128>) -> u128 {
    match last {
        Some(id) => if id == u128::MAX {
            id
        } else {
            (id + 1) as u128
        },
        None => 1u128,
    }
}

/// The id for the next category, given the last one handed out, if any.
pub fn next_category_id(last: Option<u128>) -> (id: u128)
    ensures
        id == following_id(last),
{
    let seq: u128 = match last {
        Some(id) => id,
        None => 0,
    };
    seq.saturating_add(1)
}

/// The id that follows `current` in a sequence that starts at 1.
pub fn generate_sequential_id(current: Option<u128>) -> (id: u128)
    requires
        current != Some(u128::MAX),
    ensures
        id == following_id(current),
        current is None ==> id == 1,
{
    let last: u128 = match current {
        Some(id) => id,
        None => 0,
    };
    last + 1
}

/// The verdict on a new category, check by check.
pub open spec fn category_verdict(
    allowed: bool,
    name: Seq<char>,
    description: Option<String>,
) -> Result<(), RegistryError> {
    if !allowed {
        Err(RegistryError::Unauthorized)
    } else if byte_len(name) == 0 {
        Err(RegistryError::NameRequired)
    } else if byte_len(name) > MAX_CATEGORY_NAME_LENGTH {
        Err(RegistryError::InvalidCategoryName)
    } else {
        match description {
            Some(text) => if byte_len(text@) > MAX_CATEGORY_DESCRIPTION_LENGTH {
                Err(RegistryError::InvalidCategoryName)
            } else {
                Ok(())
            },
            None => Ok(()),
        }
    }
}

fn text_len(text: &String) -> (len: usize)
    ensures
        len == byte_len(text@),
{
    text.as_str().as_bytes().len()
}

/// The category that an administrator creates, numbered after the last
/// one handed out.
///
/// Refused with `Unauthorized` unless the caller is authenticated and an
/// administrator, with `NameRequired` if the name is empty, and with
/// `InvalidCategoryName` if the name or the description is too long.
pub fn create_course_category<O: AuthorityOracle>(
    oracle: &O,
    caller: &Caller,
    name: String,
    description: Option<String>,
    last_id: Option<u128>,
) -> (outcome: Result<CourseCategory, RegistryError>)
    requires
        oracle.inv(),
    ensures
        match outcome {
            Ok(category) => category_verdict(
                caller.authenticated && oracle.admins().contains(caller.principal@),
                name@,
                description,
            ) is Ok && category == (CourseCategory { id: following_id(last_id), name, description }),
            Err(e) => category_verdict(
                caller.authenticated && oracle.admins().contains(caller.principal@),
                name@,
                description,
            ) == Err::<(), RegistryError>(e),
        },
{
    if !(caller.authenticated && oracle.is_admin(&caller.principal)) {
        return Err(RegistryError::Unauthorized);
    }
    let len: usize = text_len(&name);
    if len == 0 {
        return Err(RegistryError::NameRequired);
    }
    if len > MAX_CATEGORY_NAME_LENGTH {
        return Err(RegistryError::InvalidCategoryName);
    }
    match &description {
        Some(text) => {
            if text_len(text) > MAX_CATEGORY_DESCRIPTION_LENGTH {
                return Err(RegistryError::InvalidCategoryName);
            }
        },
        None => {},
    }
    let id: u128 = next_category_id(last_id);
    Ok(CourseCategory { id, name, description })
}

/// The module counters of one course are scanned from zero up to this
/// number at most.
pub const MAX_LOOP_GUARD: u32 = 1000;

/// The decimal digit `d` as text.
pub open spec fn digit_text(d: nat) -> Seq<char> {
    if d == 0 {
        "0"@
    } else if d == 1 {
        "1"@
    } else if d == 2 {
        "2"@
    } else if d == 3 {
        "3"@
    } else if d == 4 {
        "4"@
    } else if d == 5 {
        "5"@
    } else if d == 6 {
        "6"@
    } else if d == 7 {
        "7"@
    } else if d == 8 {
        "8"@
    } else {
        "9"@
    }
}

/// `n` in decimal notation, without leading zeros.
pub open spec fn decimal(n: nat) -> Seq<char>
    decreases n,
{
    if n < 10 {
        digit_text(n)
    } else {
        decimal(n / 10) + digit_text(n % 10)
    }
}

/// The id of the first module at position `counter` of `course`.
pub open spec fn module_id(course: Id, counter: nat) -> Id {
    "module_"@ + course + "_"@ + decimal(counter) + "_0"@
}

/// Where the scan of the modules of `course` ends when it has come to
/// `from`: at the first position without a module, or past the last
/// position that is scanned at all.
pub open spec fn scan_end(modules: Map<Id, Id>, course: Id, from: nat) -> nat
    decreases MAX_LOOP_GUARD + 1 - from,
{
    if from > MAX_LOOP_GUARD || !modules.contains_key(module_id(course, from)) {
        from
    } else {
        scan_end(modules, course, from + 1)
    }
}

/// The modules that go when `course` is removed: those that the scan meets
/// and that belong to `course`.
pub open spec fn doomed(modules: Map<Id, Id>, course: Id) -> Set<Id> {
    Set::new(
        |module: Id|
            exists|counter: nat|
                counter < scan_end(modules, course, 0) && module == #[trigger] module_id(
                    course,
                    counter,
                ) && modules.contains_key(module) && modules[module] == course,
    )
}

fn digit_str(d: u32) -> (text: &'static str)
    requires
        d < 10,
    ensures
        text@ == digit_text(d as nat),
{
    if d == 0 {
        "0"
    } else if d == 1 {
        "1"
    } else if d == 2 {
        "2"
    } else if d == 3 {
        "3"
    } else if d == 4 {
        "4"
    } else if d == 5 {
        "5"
    } else if d == 6 {
        "6"
    } else if d == 7 {
        "7"
    } else if d == 8 {
        "8"
    } else {
        "9"
    }
}

/// `n` in decimal notation.
pub fn u32_to_string(n: u32) -> (text: String)
    ensures
        text@ == decimal(n as nat),
    decreases n,
{
    if n < 10 {
        digit_str(n).to_owned()
    } else {
        let mut text = u32_to_string(n / 10);
        text.append(digit_str(n % 10));
        text
    }
}

/// The id of the first module at position `counter` of the course.
pub fn first_module_id(course_id: &String, counter: u32) -> (id: String)
    ensures
        id@ == module_id(course_id@, counter as nat),
{
    let mut id = "module_".to_owned();
    id.append(course_id.as_str());
    id.append("_");
    let number = u32_to_string(counter);
    id.append(number.as_str());
    id.append("_0");
    id
}

/// Removes the modules of a course: positions are scanned from zero until
/// one has no module, and every module met that belongs to the course is
/// removed. Returns the ids of the removed modules in scan order.
pub fn delete_course_modules<R: CourseRecords>(records: &mut R, course_id: &String) -> (removed: Vec<
    String,
>)
    requires
        old(records).inv(),
    ensures
        final(records).inv(),
        final(records).modules() == old(records).modules().remove_keys(
            doomed(old(records).modules(), course_id@),
        ),
        id_seq(&removed).to_set() == doomed(old(records).modules(), course_id@),
        final(records).courses() == old(records).courses(),
        final(records).creators() == old(records).creators(),
{
    let ghost modules = records.modules();
    let ghost course = course_id@;
    let mut modules_to_delete: Vec<String> = Vec::new();
    let mut counter: u32 = 0;
    loop
        invariant_except_break
            scan_end(modules, course, 0) == scan_end(modules, course, counter as nat),
            forall|i: int|
                0 <= i < modules_to_delete@.len() ==> exists|c: nat|
                    c < counter && (#[trigger] id_seq(&modules_to_delete)[i]) == module_id(course, c)
                        && modules.contains_key(module_id(course, c)) && modules[module_id(
                        course,
                        c,
                    )] == course,
            forall|c: nat|
                c < counter && modules.contains_key(#[trigger] module_id(course, c))
                    && modules[module_id(course, c)] == course ==> id_seq(
                    &modules_to_delete,
                ).contains(module_id(course, c)),
        invariant
            records.inv(),
            records.modules() == modules,
            records.courses() == old(records).courses(),
            records.creators() == old(records).creators(),
            course == course_id@,
            counter <= MAX_LOOP_GUARD,
        ensures
            id_seq(&modules_to_delete).to_set() == doomed(modules, course),
        decreases MAX_LOOP_GUARD - counter,
    {
        let module_id_text = first_module_id(course_id, counter);
        let ghost listed = id_seq(&modules_to_delete);
        let mut found = false;
        match records.module_course(&module_id_text) {
            Some(owner) => {
                found = true;
                if owner == *course_id {
                    modules_to_delete.push(module_id_text);
                    proof {
                        let grown = id_seq(&modules_to_delete);
                        assert(grown[listed.len() as int] == module_id(course, counter as nat));
                        assert forall|i: int| 0 <= i < grown.len() implies exists|c: nat|
                            c < counter + 1 && (#[trigger] grown[i]) == module_id(course, c)
                                && modules.contains_key(module_id(course, c)) && modules[module_id(
                                course,
                                c,
                            )] == course by {
                            if i < listed.len() {
                                let c = choose|c: nat|
                                    c < counter && listed[i] == module_id(course, c)
                                        && modules.contains_key(module_id(course, c))
                                        && modules[module_id(course, c)] == course;
                            }
                        }
                        assert forall|c: nat|
                            c < counter + 1 && modules.contains_key(
                                #[trigger] module_id(course, c),
                            ) && modules[module_id(course, c)] == course implies grown.contains(
                            module_id(course, c),
                        ) by {
                            if c < counter {
                                let i = choose|i: int|
                                    0 <= i < listed.len() && listed[i] == module_id(course, c);
                                assert(grown[i] == listed[i]);
                            }
                        }
                    }
                }
            },
            None => {},
        }
        proof {
            if !found || counter == MAX_LOOP_GUARD {
                if found {
                    assert(scan_end(modules, course, counter as nat) == scan_end(
                        modules,
                        course,
                        counter as nat + 1,
                    ));
                }
            }
        }
        if !found {
            break ;
        }
        if counter == MAX_LOOP_GUARD {
            break ;
        }
        counter += 1;
    }
    let ghost listed = id_seq(&modules_to_delete);
    let mut i: usize = 0;
    while i < modules_to_delete.len()
        invariant
            i <= modules_to_delete.len(),
            records.inv(),
            listed == id_seq(&modules_to_delete),
            records.modules() == modules.remove_keys(listed.take(i as int).to_set()),
            records.courses() == old(records).courses(),
            records.creators() == old(records).creators(),
        decreases modules_to_delete.len() - i,
    {
        records.remove_module(&modules_to_delete[i]);
        proof {
            let before = listed.take(i as int);
            let after = listed.take(i as int + 1);
            assert(after.to_set() =~= before.to_set().insert(listed[i as int])) by {
                assert forall|m: Id| after.to_set().contains(m) <==> before.to_set().insert(
                    listed[i as int],
                ).contains(m) by {
                    if m == listed[i as int] {
                        assert(after[i as int] == m);
                    }
                }
            }
        }
        i += 1;
    }
    assert(listed.take(listed.len() as int) =~= listed);
    modules_to_delete
}

/// The verdict on the removal of a course, check by check.
pub open spec fn removal_verdict(
    courses: Set<Id>,
    creators: Map<Id, Id>,
    authenticated: bool,
    caller: Id,
    course: Id,
) -> Result<(), RegistryError> {
    if !authenticated {
        Err(RegistryError::Unauthorized)
    } else if course.len() == 0 {
        Err(RegistryError::EmptyCourseId)
    } else if !courses.contains(course) {
        Err(RegistryError::CourseNotFound)
    } else if !created_by(creators, course, caller) {
        Err(RegistryError::Unauthorized)
    } else {
        Ok(())
    }
}

/// Removes a course together with its modules.
///
/// Refused with `Unauthorized` if the caller is not authenticated, with
/// `EmptyCourseId` if the id is empty, with `CourseNotFound` if the course
/// does not exist, and with `Unauthorized` if someone else created it. A
/// refused removal changes nothing.
pub fn delete_course<R: CourseRecords>(records: &mut R, creator: &Caller, course_id: &String) -> (outcome:
    Result<(), RegistryError>)
    requires
        old(records).inv(),
    ensures
        final(records).inv(),
        outcome == removal_verdict(
            old(records).courses(),
            old(records).creators(),
            creator.authenticated,
            creator.principal@,
            course_id@,
        ),
        outcome is Err ==> final(records).courses() == old(records).courses(),
        outcome is Err ==> final(records).creators() == old(records).creators(),
        outcome is Err ==> final(records).modules() == old(records).modules(),
        outcome is Ok ==> final(records).courses() == old(records).courses().remove(course_id@),
        outcome is Ok ==> final(records).creators() == old(records).creators().remove(course_id@),
        outcome is Ok ==> final(records).modules() == old(records).modules().remove_keys(
            doomed(old(records).modules(), course_id@),
        ),
{
    if !creator.authenticated {
        return Err(RegistryError::Unauthorized);
    }
    if course_id.as_str().is_empty() {
        return Err(RegistryError::EmptyCourseId);
    }
    if !records.has_course(course_id) {
        return Err(RegistryError::CourseNotFound);
    }
    if !is_course_creator(records, &creator.principal, course_id) {
        return Err(RegistryError::Unauthorized);
    }
    let _ = delete_course_modules(records, course_id);
    records.remove_course(course_id);
    Ok(())
}

} // verus!
