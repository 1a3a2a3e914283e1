//! The course catalogue, as far as access control needs it: which courses
//! exist, and who created each.
//!
//! The catalogue is a collaborator behind [`CourseCatalog`]; the in-memory
//! [`CourseDirectory`] stands in for it where no ledger is at hand.

use vstd::prelude::*;
use crate::ids::Id;
use crate::keys::{KeyView, DataKey};
use crate::slots::SlotTable;

verus! {

/// Answers whether a course exists and who created it.
pub trait CourseCatalog {
    /// The implementation's own invariant.
    open spec fn inv(&self) -> bool {
        true
    }

    /// The courses that exist. An implementation that asks elsewhere leaves
    /// this unspecified.
    open spec fn courses(&self) -> Set<Id> {
        arbitrary()
    }

    /// The creator on record for each course that has one. An
    /// implementation that asks elsewhere leaves this unspecified.
    open spec fn creators(&self) -> Map<Id, Id> {
        arbitrary()
    }

    /// Whether the course exists.
    fn has_course(&self, course_id: &String) -> (found: bool)
        requires
            self.inv(),
        ensures
            found == self.courses().contains(course_id@),
    ;

    /// The creator of the course, if it exists.
    fn creator_of(&self, course_id: &String) -> (creator: Option<String>)
        requires
            self.inv(),
        ensures
            match creator {
                Some(who) => self.creators().contains_key(course_id@) && who@
                    == self.creators()[course_id@],
                None => !self.creators().contains_key(course_id@),
            },
    ;
}

/// Whether the course exists.
pub fn check_course_exists<K: CourseCatalog>(catalog: &K, course_id: &String) -> (found: bool)
    requires
        catalog.inv(),
    ensures
        found == catalog.courses().contains(course_id@),
{
    catalog.has_course(course_id)
}

/// Whether `caller` is on record as the creator of the course.
pub fn is_course_creator<K: CourseCatalog>(catalog: &K, caller: &String, course_id: &String) -> (yes:
    bool)
    requires
        catalog.inv(),
    ensures
        yes == created_by(catalog.creators(), course_id@, caller@),
{
    match catalog.creator_of(course_id) {
        Some(creator) => creator == *caller,
        None => false,
    }
}

/// `who` is on record as the creator of `course`.
pub open spec fn created_by(creators: Map<Id, Id>, course: Id, who: Id) -> bool {
    creators.contains_key(course) && creators[course] == who
}

/// A catalogue that can also forget courses, and that knows the modules
/// of each course.
pub trait CourseRecords: CourseCatalog {
    /// The course that each module belongs to. An implementation that asks
    /// elsewhere leaves this unspecified.
    open spec fn modules(&self) -> Map<Id, Id> {
        arbitrary()
    }

    /// The course that the module belongs to, if the module exists.
    fn module_course(&self, module_id: &String) -> (course: Option<String>)
        requires
            self.inv(),
        ensures
            match course {
                Some(id) => self.modules().contains_key(module_id@) && id@ == self.modules()[module_id@],
                None => !self.modules().contains_key(module_id@),
            },
    ;

    /// Forgets the module.
    fn remove_module(&mut self, module_id: &String)
        requires
            old(self).inv(),
        ensures
            final(self).inv(),
            final(self).modules() == old(self).modules().remove(module_id@),
            final(self).courses() == old(self).courses(),
            final(self).creators() == old(self).creators(),
    ;

    /// Forgets the course and whatever is on record about it. Its modules
    /// are left alone.
    fn remove_course(&mut self, course_id: &String)
        requires
            old(self).inv(),
        ensures
            final(self).inv(),
            final(self).courses() == old(self).courses().remove(course_id@),
            final(self).creators() == old(self).creators().remove(course_id@),
            final(self).modules() == old(self).modules(),
    ;
}

/// A catalogue kept in memory.
pub struct CourseDirectory {
    table: SlotTable<String>,
}

/// The modules that a table of catalogue records stands for.
pub open spec fn modules_of(contents: Map<KeyView, (String, u32)>) -> Map<Id, Id> {
    Map::new(
        |module: Id| contents.contains_key(KeyView::Module(module)),
        |module: Id| contents[KeyView::Module(module)].0@,
    )
}

/// The creators that a table of catalogue records stands for.
pub open spec fn creators_of(contents: Map<KeyView, (String, u32)>) -> Map<Id, Id> {
    Map::new(
        |course: Id| contents.contains_key(KeyView::Course(course)),
        |course: Id| contents[KeyView::Course(course)].0@,
    )
}

impl CourseDirectory {
    /// A catalogue without courses.
    pub fn new() -> (directory: Self)
        ensures
            directory.inv(),
            directory.creators() == Map::<Id, Id>::empty(),
            directory.courses() == Set::<Id>::empty(),
            directory.modules() == Map::<Id, Id>::empty(),
    {
        let directory = CourseDirectory { table: SlotTable::new() };
        directory
    }

    /// Records that `creator` created the course, replacing any earlier record.
    pub fn register(&mut self, course_id: &String, creator: &String)
        requires
            old(self).inv(),
        ensures
            final(self).inv(),
            final(self).creators() == old(self).creators().insert(course_id@, creator@),
            final(self).courses() == old(self).courses().insert(course_id@),
            final(self).modules() == old(self).modules(),
    {
        let key = DataKey::course(course_id);
        self.table.put(&key, creator.clone(), 0, false);
    }

    /// Records that the module belongs to the course, replacing any earlier
    /// record of the module.
    pub fn add_module(&mut self, module_id: &String, course_id: &String)
        requires
            old(self).inv(),
        ensures
            final(self).inv(),
            final(self).modules() == old(self).modules().insert(module_id@, course_id@),
            final(self).creators() == old(self).creators(),
            final(self).courses() == old(self).courses(),
    {
        let key = DataKey::module(module_id);
        self.table.put(&key, course_id.clone(), 0, false);
    }

    /// In this catalogue a course exists exactly when it has a creator on record.
    pub proof fn lemma_courses_have_creators(&self)
        ensures
            self.courses() == self.creators().dom(),
    {
    }
}

impl CourseCatalog for CourseDirectory {
    closed spec fn inv(&self) -> bool {
        self.table.inv()
    }

    closed spec fn courses(&self) -> Set<Id> {
        creators_of(self.table.contents()).dom()
    }

    closed spec fn creators(&self) -> Map<Id, Id> {
        creators_of(self.table.contents())
    }

    fn has_course(&self, course_id: &String) -> (found: bool) {
        let key = DataKey::course(course_id);
        self.table.lookup(&key).is_some()
    }

    fn creator_of(&self, course_id: &String) -> (creator: Option<String>) {
        let key = DataKey::course(course_id);
        match self.table.lookup(&key) {
            Some((who, _)) => Some(who.clone()),
            None => None,
        }
    }
}

impl CourseRecords for CourseDirectory {
    closed spec fn modules(&self) -> Map<Id, Id> {
        modules_of(self.table.contents())
    }

    fn module_course(&self, module_id: &String) -> (course: Option<String>) {
        let key = DataKey::module(module_id);
        match self.table.lookup(&key) {
            Some((course, _)) => Some(course.clone()),
            None => None,
        }
    }

    fn remove_module(&mut self, module_id: &String) {
        let key = DataKey::module(module_id);
        self.table.delete(&key);
    }

    fn remove_course(&mut self, course_id: &String) {
        let key = DataKey::course(course_id);
        self.table.delete(&key);
    }
}

} // verus!
