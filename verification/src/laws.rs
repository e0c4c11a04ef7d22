//! What holds of every store, proved from the model.

use vstd::prelude::*;
use crate::error::StoreError;
use crate::model::{
    child_ids, co_parent_ids, lemma_child_ids_push, lemma_resolve_push, mates_over, resolve,
    GraphModel,
};
use crate::person::{Edge, Person};
use crate::render::head_line;

verus! {

/// Adding a person under an id that is taken replaces the person there: the
/// same ids are filed as before, so the mapping is no larger; the lookup of
/// that id gives the new person; every other lookup and the edges are as
/// they were.
pub proof fn law_overwrite(model: GraphModel, person: Person)
    requires
        model.persons.contains_key(person.id),
    ensures
        model.with_person(person).persons.dom() == model.persons.dom(),
        model.with_person(person).persons.len() == model.persons.len(),
        model.with_person(person).person(person.id) == Ok::<Person, StoreError>(person),
        forall|id: i32|
            id != person.id ==> #[trigger] model.with_person(person).person(id) == model.person(
                id,
            ),
        model.with_person(person).edges == model.edges,
{
}

/// Looking up an id under which nobody is filed reports `NotFound` with that
/// id, never a person.
pub proof fn law_missing_person(model: GraphModel, id: i32)
    requires
        !model.persons.contains_key(id),
    ensures
        model.person(id) == Err::<Person, StoreError>(StoreError::NotFound { id }),
{
}

/// Where every id names somebody, resolving gives the persons under the
/// ids, one for one.
pub proof fn law_resolve_all(persons: Map<i32, Person>, ids: Seq<i32>)
    requires
        forall|i: int| 0 <= i < ids.len() ==> persons.contains_key(#[trigger] ids[i]),
    ensures
        resolve(persons, ids) == Ok::<Seq<Person>, StoreError>(
            ids.map_values(|id: i32| persons[id]),
        ),
    decreases ids.len(),
{
    if ids.len() > 0 {
        let front = ids.drop_last();
        assert forall|i: int| 0 <= i < front.len() implies persons.contains_key(
            #[trigger] front[i],
        ) by {}
        law_resolve_all(persons, front);
        assert(front.map_values(|id: i32| persons[id]).push(persons[ids.last()])
            =~= ids.map_values(|id: i32| persons[id]));
    } else {
        assert(ids.map_values(|id: i32| persons[id]) =~= Seq::<Person>::empty());
    }
}

/// Where some id names nobody, resolving reports `NotFound` with the first
/// such id.
pub proof fn law_resolve_first_missing(persons: Map<i32, Person>, ids: Seq<i32>, first: int)
    requires
        0 <= first < ids.len(),
        !persons.contains_key(ids[first]),
        forall|i: int| 0 <= i < first ==> persons.contains_key(#[trigger] ids[i]),
    ensures
        resolve(persons, ids) == Err::<Seq<Person>, StoreError>(
            StoreError::NotFound { id: ids[first] },
        ),
    decreases ids.len(),
{
    let front = ids.drop_last();
    if first == ids.len() - 1 {
        assert forall|i: int| 0 <= i < front.len() implies persons.contains_key(
            #[trigger] front[i],
        ) by {}
        law_resolve_all(persons, front);
    } else {
        assert forall|i: int| 0 <= i < first implies persons.contains_key(#[trigger] front[i]) by {}
        law_resolve_first_missing(persons, front, first);
    }
}

/// Adding the same edge twice gives its target twice among the child ids of
/// its source, behind the others and in the order added. Where the children
/// resolved before and the target names somebody, the children are those of
/// before and then that child, twice; where they did not resolve, the same
/// failure stands.
pub proof fn law_duplicate_edge(model: GraphModel, from_person_id: i32, to_person_id: i32)
    ensures
        ({
            let twice = model.with_edge(from_person_id, to_person_id).with_edge(
                from_person_id,
                to_person_id,
            );
            &&& child_ids(twice.edges, from_person_id) == child_ids(
                model.edges,
                from_person_id,
            ).push(to_person_id).push(to_person_id)
            &&& match model.children(from_person_id) {
                Ok(before) => model.persons.contains_key(to_person_id) ==> twice.children(
                    from_person_id,
                ) == Ok::<Seq<Person>, StoreError>(
                    before.push(model.persons[to_person_id]).push(model.persons[to_person_id]),
                ),
                Err(e) => twice.children(from_person_id) == Err::<Seq<Person>, StoreError>(e),
            }
        }),
{
    let edge = Edge { from_person_id, to_person_id };
    let once = model.edges.push(edge);
    lemma_child_ids_push(model.edges, edge, from_person_id);
    lemma_child_ids_push(once, edge, from_person_id);
    let ids = child_ids(model.edges, from_person_id);
    lemma_resolve_push(model.persons, ids, to_person_id);
    lemma_resolve_push(model.persons, ids.push(to_person_id), to_person_id);
}

/// Resolving fails only with `NotFound`.
pub proof fn law_resolve_failure(persons: Map<i32, Person>, ids: Seq<i32>)
    ensures
        resolve(persons, ids) matches Err(e) ==> e is NotFound,
    decreases ids.len(),
{
    if ids.len() > 0 {
        law_resolve_failure(persons, ids.drop_last());
    }
}

/// The search for mates fails only with `NotFound` or with
/// `MissingParentReference`.
pub proof fn law_mates_failure(persons: Map<i32, Person>, children: Seq<i32>, person_id: i32)
    ensures
        mates_over(persons, children, person_id) matches Err(e) ==> e is NotFound
            || e is MissingParentReference,
    decreases children.len(),
{
    if children.len() > 0 {
        law_mates_failure(persons, children.drop_last(), person_id);
        let child_id = children.last();
        if persons.contains_key(child_id) {
            match co_parent_ids(persons[child_id], person_id) {
                Some(ids) => law_resolve_failure(persons, ids),
                None => {},
            }
        }
    }
}

/// The view of a person fails only with `NotFound`, whatever the store
/// holds.
pub proof fn law_view_failure(model: GraphModel, person_id: i32)
    ensures
        model.family_tree(person_id) matches Err(e) ==> e is NotFound,
{
    law_mates_failure(model.persons, child_ids(model.edges, person_id), person_id);
    law_resolve_failure(model.persons, child_ids(model.edges, person_id));
}

/// The view of a person without mother, father, mates and children is the
/// line with its name and nothing else: a section without entries is left
/// out, heading and all.
pub proof fn law_empty_sections(model: GraphModel, person_id: i32)
    requires
        model.persons.contains_key(person_id),
        model.persons[person_id].mother_id is None,
        model.persons[person_id].father_id is None,
        model.mates(person_id) == Ok::<Seq<Person>, StoreError>(Seq::empty()),
        model.children(person_id) == Ok::<Seq<Person>, StoreError>(Seq::empty()),
    ensures
        model.family_tree(person_id) == Ok::<Seq<char>, StoreError>(
            head_line(model.persons[person_id]),
        ),
{
    let person = model.persons[person_id];
}

} // verus!
