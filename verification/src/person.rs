//! Person records and the parent-to-child relation between them.

use vstd::prelude::*;
use crate::date::GDate;

verus! {

/// One individual. `id` is the record's identity; `mother_id` and `father_id`
/// are weak references that are resolved only when a query follows them.
#[derive(Debug)]
pub struct Person {
    pub id: i32,
    pub firstname: Option<String>,
    pub surname: Option<String>,
    pub mother_id: Option<i32>,
    pub father_id: Option<i32>,
    pub dob: Option<GDate>,
    pub dod: Option<GDate>,
    pub info: Option<String>,
}

/// A directed parent-to-child relation between two person ids.
#[derive(Debug, Clone, Copy, PartialEq, Eq, Structural)]
pub struct Edge {
    pub from_person_id: i32,
    pub to_person_id: i32,
}

/// Copies an optional text field.
fn copy_text(text: &Option<String>) -> (copy: Option<String>)
    ensures
        copy == *text,
{
    match text {
        Some(s) => Some(s.clone()),
        None => None,
    }
}

impl Clone for Person {
    /// A field-for-field copy of the record.
    fn clone(&self) -> (copy: Self)
        ensures
            copy == *self,
    {
        Person {
            id: self.id,
            firstname: copy_text(&self.firstname),
            surname: copy_text(&self.surname),
            mother_id: self.mother_id,
            father_id: self.father_id,
            dob: self.dob,
            dod: self.dod,
            info: copy_text(&self.info),
        }
    }
}

/// Builds a person record from its eight fields, unchanged.
pub fn create_person(
    id: i32,
    firstname: Option<String>,
    surname: Option<String>,
    mother_id: Option<i32>,
    father_id: Option<i32>,
    dob: Option<GDate>,
    dod: Option<GDate>,
    info: Option<String>,
) -> (person: Person)
    ensures
        person == (Person { id, firstname, surname, mother_id, father_id, dob, dod, info }),
{
    Person { id, firstname, surname, mother_id, father_id, dob, dod, info }
}

} // verus!
