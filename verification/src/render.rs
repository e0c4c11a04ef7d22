//! The family-tree view of one person, as text.
//!
//! The view opens with the person's name. A line for the mother and one for
//! the father follow where the person names them, then a section for the
//! mates and one for the children, each only where it has entries.
//!
//! The view fails only where an id that it resolves names nobody. Mates are
//! known only through children that name both parents: where the search for
//! mates stops at a child that lacks a parent id, the view shows no mates,
//! and its children all the same.

use vstd::prelude::*;
use vstd::string::StringExecFns;
use crate::error::StoreError;
use crate::model::{lookup, GraphModel};
use crate::person::Person;
use crate::store::GraphDatabase;

verus! {

/// A text field as it is shown: itself, or `Unknown` where it is absent.
pub open spec fn shown_text(text: Option<String>) -> Seq<char> {
    match text {
        Some(s) => s@,
        None => "Unknown"@,
    }
}

/// The name under which a person is shown: first name, a space, surname.
pub open spec fn display_name(person: Person) -> Seq<char> {
    shown_text(person.firstname) + " "@ + shown_text(person.surname)
}

/// One indented line for each person, in order.
pub open spec fn name_lines(persons: Seq<Person>) -> Seq<char>
    decreases persons.len(),
{
    if persons.len() == 0 {
        Seq::empty()
    } else {
        name_lines(persons.drop_last()) + "   +- "@ + display_name(persons.last()) + "\n"@
    }
}

/// A titled section that lists `persons`; nothing at all where there are
/// none.
pub open spec fn section(title: Seq<char>, persons: Seq<Person>) -> Seq<char> {
    if persons.len() == 0 {
        Seq::empty()
    } else {
        "|\n"@ + title + "\n"@ + name_lines(persons)
    }
}

/// The parent that an optional id names: nobody where the id is absent,
/// `NotFound` where it is there and names nobody.
pub open spec fn parent(persons: Map<i32, Person>, id: Option<i32>) -> Result<
    Option<Person>,
    StoreError,
> {
    match id {
        None => Ok(None),
        Some(id) => match lookup(persons, id) {
            Err(e) => Err(e),
            Ok(person) => Ok(Some(person)),
        },
    }
}

/// The mother's line. It is left open: the father's line, where there is
/// one, goes on behind it.
pub open spec fn mother_line(mother: Option<Person>) -> Seq<char> {
    match mother {
        Some(person) => "+- Mother: "@ + display_name(person),
        None => Seq::empty(),
    }
}

/// The father's line.
pub open spec fn father_line(father: Option<Person>) -> Seq<char> {
    match father {
        Some(person) => "+- Father: "@ + display_name(person) + "\n"@,
        None => Seq::empty(),
    }
}

/// The opening line of the view: the person's name.
pub open spec fn head_line(person: Person) -> Seq<char> {
    "+ "@ + display_name(person) + "|\n"@
}

/// The mates as the view shows them: those that the search found, and none
/// where the search stopped at a child that lacks a parent id. A mate or a
/// child that names nobody stays a failure.
pub open spec fn shown_mates(found: Result<Seq<Person>, StoreError>) -> Result<
    Seq<Person>,
    StoreError,
> {
    match found {
        Err(StoreError::MissingParentReference { child_id }) => Ok(Seq::empty()),
        other => other,
    }
}

impl GraphModel {
    /// The family-tree view of `person_id`. The person, its mother, its
    /// father, its mates and its children are resolved in this order, and the
    /// first id that names nobody is the failure.
    pub open spec fn family_tree(self, person_id: i32) -> Result<Seq<char>, StoreError> {
        match self.person(person_id) {
            Err(e) => Err(e),
            Ok(person) => match parent(self.persons, person.mother_id) {
                Err(e) => Err(e),
                Ok(mother) => match parent(self.persons, person.father_id) {
                    Err(e) => Err(e),
                    Ok(father) => match shown_mates(self.mates(person_id)) {
                        Err(e) => Err(e),
                        Ok(mates) => match self.children(person_id) {
                            Err(e) => Err(e),
                            Ok(children) => Ok(
                                head_line(person) + mother_line(mother) + father_line(father)
                                    + section("+- Spouses:"@, mates) + section(
                                    "+- Children:"@,
                                    children,
                                ),
                            ),
                        },
                    },
                },
            },
        }
    }
}

/// Appends a text field as it is shown.
fn push_shown_text(out: &mut String, text: &Option<String>)
    ensures
        final(out)@ == old(out)@ + shown_text(*text),
{
    match text {
        Some(s) => out.append(s.as_str()),
        None => out.append("Unknown"),
    }
}

/// Appends the name under which `person` is shown.
fn push_display_name(out: &mut String, person: &Person)
    ensures
        final(out)@ == old(out)@ + display_name(*person),
{
    push_shown_text(out, &person.firstname);
    out.append(" ");
    push_shown_text(out, &person.surname);
}

/// Appends a titled section that lists `persons`, or nothing where there are
/// none.
fn push_section(out: &mut String, title: &str, persons: &Vec<&Person>)
    ensures
        final(out)@ == old(out)@ + section(title@, persons@.unref()),
{
    if persons.len() == 0 {
        return ;
    }
    out.append("|\n");
    out.append(title);
    out.append("\n");
    let ghost start = out@;
    let mut i: usize = 0;
    while i < persons.len()
        invariant
            i <= persons@.len(),
            out@ == start + name_lines(persons@.unref().take(i as int)),
        decreases persons@.len() - i,
    {
        proof {
            let shown = persons@.unref();
            assert(shown.take(i as int + 1).drop_last() == shown.take(i as int));
        }
        out.append("   +- ");
        push_display_name(out, persons[i]);
        out.append("\n");
        i = i + 1;
    }
    proof {
        assert(persons@.unref().take(i as int) == persons@.unref());
    }
}

impl GraphDatabase {
    /// The family-tree view of a person: its name; its mother and its father
    /// where it names them; its mates and its children, each section only
    /// where it has entries. `NotFound` where `person_id`, or any id that the
    /// view resolves, names nobody; there is no other failure. Where a child
    /// lacks a parent id, so that the mates cannot be told, the view has no
    /// section for them.
    pub fn render_family_tree(&self, person_id: i32) -> (view: Result<String, StoreError>)
        ensures
            match view {
                Ok(text) => self@.family_tree(person_id) == Ok::<Seq<char>, StoreError>(text@),
                Err(e) => self@.family_tree(person_id) == Err::<Seq<char>, StoreError>(e),
            },
    {
        let person = match self.get_person(person_id) {
            Ok(person) => person,
            Err(e) => {
                return Err(e);
            },
        };
        let mut out = String::from_str("+ ");
        push_display_name(&mut out, person);
        out.append("|\n");
        assert(out@ =~= head_line(*person));
        let ghost head = out@;
        if let Some(mother_id) = person.mother_id {
            match self.get_person(mother_id) {
                Ok(mother) => {
                    out.append("+- Mother: ");
                    push_display_name(&mut out, mother);
                },
                Err(e) => {
                    return Err(e);
                },
            }
        }
        assert(parent(self@.persons, person.mother_id) matches Ok(mother) && out@ =~= head
            + mother_line(mother));
        let ghost with_mother = out@;
        if let Some(father_id) = person.father_id {
            match self.get_person(father_id) {
                Ok(father) => {
                    out.append("+- Father: ");
                    push_display_name(&mut out, father);
                    out.append("\n");
                },
                Err(e) => {
                    return Err(e);
                },
            }
        }
        assert(parent(self@.persons, person.father_id) matches Ok(father) && out@ =~= with_mother
            + father_line(father));
        let mates = match self.get_mates(person_id) {
            Ok(mates) => mates,
            Err(StoreError::MissingParentReference { child_id }) => Vec::new(),
            Err(e) => {
                return Err(e);
            },
        };
        push_section(&mut out, "+- Spouses:", &mates);
        let children = match self.get_children(person_id) {
            Ok(children) => children,
            Err(e) => {
                return Err(e);
            },
        };
        push_section(&mut out, "+- Children:", &children);
        Ok(out)
    }
}

} // verus!
