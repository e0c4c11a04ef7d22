//! The listing of a whole store as text: every person in ascending order of
//! id, one to a line, then every edge in the order in which it was added.
//!
//! A record is written as a structure with named fields, a text field
//! between quotes.

use vstd::prelude::*;
use vstd::string::StringExecFns;
use crate::date::GDate;
use crate::model::GraphModel;
use crate::person::{Edge, Person};
use crate::store::GraphDatabase;
use crate::text::{decimal, push_decimal, push_signed_decimal, signed_decimal};

verus! {

/// A text between double quotes, with the characters that cannot stand for
/// themselves there written as escapes: what `{:?}` writes for a string.
pub uninterp spec fn quoted(text: Seq<char>) -> Seq<char>;

/// The optional value whose inner text is `inner`.
pub open spec fn optional(inner: Option<Seq<char>>) -> Seq<char> {
    match inner {
        Some(text) => "Some("@ + text + ")"@,
        None => "None"@,
    }
}

/// An optional text field.
pub open spec fn optional_text(text: Option<String>) -> Seq<char> {
    optional(
        match text {
            Some(s) => Some(quoted(s@)),
            None => None,
        },
    )
}

/// An optional id.
pub open spec fn optional_id(id: Option<i32>) -> Seq<char> {
    optional(
        match id {
            Some(id) => Some(signed_decimal(id as int)),
            None => None,
        },
    )
}

/// A date with its three fields.
pub open spec fn date_record(date: GDate) -> Seq<char> {
    "GDate { day: "@ + decimal(date.day as nat) + ", month: "@ + decimal(date.month as nat)
        + ", year: "@ + decimal(date.year as nat) + " }"@
}

/// An optional date.
pub open spec fn optional_date(date: Option<GDate>) -> Seq<char> {
    optional(
        match date {
            Some(date) => Some(date_record(date)),
            None => None,
        },
    )
}

/// The id and the name of a person, as the record of a person begins.
pub open spec fn person_record_names(person: Person) -> Seq<char> {
    "Person { id: "@ + signed_decimal(person.id as int) + ", firstname: "@ + optional_text(
        person.firstname,
    ) + ", surname: "@ + optional_text(person.surname)
}

/// The parents of a person, as they stand in its record.
pub open spec fn person_record_parents(person: Person) -> Seq<char> {
    ", mother_id: "@ + optional_id(person.mother_id) + ", father_id: "@ + optional_id(
        person.father_id,
    )
}

/// The dates and the annotation of a person, as its record ends.
pub open spec fn person_record_dates(person: Person) -> Seq<char> {
    ", dob: "@ + optional_date(person.dob) + ", dod: "@ + optional_date(person.dod) + ", info: "@
        + optional_text(person.info) + " }"@
}

/// A person with its eight fields.
pub open spec fn person_record(person: Person) -> Seq<char> {
    person_record_names(person) + person_record_parents(person) + person_record_dates(person)
}

/// An edge with its two ends.
pub open spec fn edge_record(edge: Edge) -> Seq<char> {
    "Edge { from_person_id: "@ + signed_decimal(edge.from_person_id as int) + ", to_person_id: "@
        + signed_decimal(edge.to_person_id as int) + " }"@
}

/// One line for each person, in order.
pub open spec fn person_lines(persons: Seq<Person>) -> Seq<char>
    decreases persons.len(),
{
    if persons.len() == 0 {
        Seq::empty()
    } else {
        person_lines(persons.drop_last()) + person_record(persons.last()) + "\n"@
    }
}

/// One line for each edge, in order.
pub open spec fn edge_lines(edges: Seq<Edge>) -> Seq<char>
    decreases edges.len(),
{
    if edges.len() == 0 {
        Seq::empty()
    } else {
        edge_lines(edges.drop_last()) + edge_record(edges.last()) + "\n"@
    }
}

impl GraphModel {
    /// The listing of the store: the persons in ascending order of id under
    /// one heading, the edges in insertion order under another.
    pub open spec fn listing(self) -> Seq<char> {
        "Persons:\n"@ + person_lines(self.persons_by_id()) + "Edges:\n"@ + edge_lines(self.edges)
    }
}

/// Writes a text between double quotes by `{:?}` of `str`, which escapes what
/// cannot stand between quotes. The contract gives that text a name and
/// claims no more than that it is fixed by the characters of `text`.
#[verifier::external_body]
fn quoted_text(text: &str) -> (written: String)
    ensures
        written@ == quoted(text@),
{
    format!("{:?}", text)
}

/// Appends an optional text field.
fn push_optional_text(out: &mut String, text: &Option<String>)
    ensures
        final(out)@ == old(out)@ + optional_text(*text),
{
    match text {
        Some(s) => {
            out.append("Some(");
            let written = quoted_text(s.as_str());
            out.append(written.as_str());
            out.append(")");
        },
        None => out.append("None"),
    }
}

/// Appends an optional id.
fn push_optional_id(out: &mut String, id: Option<i32>)
    ensures
        final(out)@ == old(out)@ + optional_id(id),
{
    match id {
        Some(id) => {
            out.append("Some(");
            push_signed_decimal(out, id);
            out.append(")");
        },
        None => out.append("None"),
    }
}

/// Appends a date with its three fields.
fn push_date_record(out: &mut String, date: GDate)
    ensures
        final(out)@ == old(out)@ + date_record(date),
{
    out.append("GDate { day: ");
    push_decimal(out, date.day as u64);
    out.append(", month: ");
    push_decimal(out, date.month as u64);
    out.append(", year: ");
    push_decimal(out, date.year as u64);
    out.append(" }");
}

/// Appends an optional date.
fn push_optional_date(out: &mut String, date: Option<GDate>)
    ensures
        final(out)@ == old(out)@ + optional_date(date),
{
    match date {
        Some(date) => {
            out.append("Some(");
            push_date_record(out, date);
            out.append(")");
        },
        None => out.append("None"),
    }
}

/// Appends a person with its eight fields.
fn push_person_record(out: &mut String, person: &Person)
    ensures
        final(out)@ == old(out)@ + person_record(*person),
{
    out.append("Person { id: ");
    push_signed_decimal(out, person.id);
    out.append(", firstname: ");
    push_optional_text(out, &person.firstname);
    out.append(", surname: ");
    push_optional_text(out, &person.surname);
    assert(out@ =~= old(out)@ + person_record_names(*person));
    let ghost names = out@;
    out.append(", mother_id: ");
    push_optional_id(out, person.mother_id);
    out.append(", father_id: ");
    push_optional_id(out, person.father_id);
    assert(out@ =~= names + person_record_parents(*person));
    let ghost parents = out@;
    out.append(", dob: ");
    push_optional_date(out, person.dob);
    out.append(", dod: ");
    push_optional_date(out, person.dod);
    out.append(", info: ");
    push_optional_text(out, &person.info);
    out.append(" }");
    assert(out@ =~= parents + person_record_dates(*person));
}

/// Appends an edge with its two ends.
fn push_edge_record(out: &mut String, edge: Edge)
    ensures
        final(out)@ == old(out)@ + edge_record(edge),
{
    out.append("Edge { from_person_id: ");
    push_signed_decimal(out, edge.from_person_id);
    out.append(", to_person_id: ");
    push_signed_decimal(out, edge.to_person_id);
    out.append(" }");
}

impl GraphDatabase {
    /// The listing of the whole store as text: under the heading `Persons:`
    /// one line for each person, in ascending order of id; under the heading
    /// `Edges:` one line for each edge, in the order in which the edges were
    /// added. Two listings of a store that was not changed in between are
    /// equal.
    pub fn print_graph(&self) -> (text: String)
        ensures
            text@ == self@.listing(),
    {
        let mut out = String::from_str("Persons:\n");
        let persons = self.persons_by_id();
        let ghost start = out@;
        let mut i: usize = 0;
        while i < persons.len()
            invariant
                i <= persons@.len(),
                out@ == start + person_lines(persons@.unref().take(i as int)),
            decreases persons@.len() - i,
        {
            proof {
                let shown = persons@.unref();
                assert(shown.take(i as int + 1).drop_last() == shown.take(i as int));
            }
            push_person_record(&mut out, persons[i]);
            out.append("\n");
            i = i + 1;
        }
        proof {
            assert(persons@.unref().take(i as int) == persons@.unref());
        }
        out.append("Edges:\n");
        let edges = self.edges();
        let ghost middle = out@;
        let mut k: usize = 0;
        while k < edges.len()
            invariant
                k <= edges@.len(),
                out@ == middle + edge_lines(edges@.take(k as int)),
            decreases edges@.len() - k,
        {
            proof {
                assert(edges@.take(k as int + 1).drop_last() == edges@.take(k as int));
            }
            push_edge_record(&mut out, edges[k]);
            out.append("\n");
            k = k + 1;
        }
        proof {
            assert(edges@.take(k as int) == edges@);
        }
        out
    }
}

} // verus!
