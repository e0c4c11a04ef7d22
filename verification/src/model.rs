//! The mathematical model of a store, and what each query means on it.
//!
//! A store is a finite map from ids to persons together with the sequence of
//! edges in the order in which they were added. Every contract of the
//! executable store is stated over the functions of this module.

use vstd::prelude::*;
use crate::error::StoreError;
use crate::order::{ascending, lemma_ascending_unique};
use crate::person::{Edge, Person};

verus! {

/// The person filed under `id`, or `NotFound`.
pub open spec fn lookup(persons: Map<i32, Person>, id: i32) -> Result<Person, StoreError> {
    if persons.contains_key(id) {
        Ok(persons[id])
    } else {
        Err(StoreError::NotFound { id })
    }
}

/// The persons that `ids` name, in the same order; where some id names
/// nobody, `NotFound` with the first such id.
pub open spec fn resolve(persons: Map<i32, Person>, ids: Seq<i32>) -> Result<
    Seq<Person>,
    StoreError,
>
    decreases ids.len(),
{
    if ids.len() == 0 {
        Ok(Seq::empty())
    } else {
        match resolve(persons, ids.drop_last()) {
            Err(e) => Err(e),
            Ok(found) => match lookup(persons, ids.last()) {
                Err(e) => Err(e),
                Ok(person) => Ok(found.push(person)),
            },
        }
    }
}

/// The targets of the edges that leave `person_id`, in edge order and with
/// repetitions.
pub open spec fn child_ids(edges: Seq<Edge>, person_id: i32) -> Seq<i32> {
    edges.filter(|e: Edge| e.from_person_id == person_id).map_values(|e: Edge| e.to_person_id)
}

/// The ids that a child names as parents, other than `person_id`: the mother
/// first, then the father. `None` when the child lacks either parent id.
pub open spec fn co_parent_ids(child: Person, person_id: i32) -> Option<Seq<i32>> {
    match (child.mother_id, child.father_id) {
        (Some(mother), Some(father)) => Some(
            (if mother != person_id {
                seq![mother]
            } else {
                Seq::<i32>::empty()
            }) + (if father != person_id {
                seq![father]
            } else {
                Seq::<i32>::empty()
            }),
        ),
        _ => None,
    }
}

/// The co-parents that one child contributes: the child is looked up, both
/// its parent ids must be there, and those that differ from `person_id` are
/// resolved.
pub open spec fn mates_through(persons: Map<i32, Person>, child_id: i32, person_id: i32) -> Result<
    Seq<Person>,
    StoreError,
> {
    match lookup(persons, child_id) {
        Err(e) => Err(e),
        Ok(child) => match co_parent_ids(child, person_id) {
            None => Err(StoreError::MissingParentReference { child_id }),
            Some(ids) => resolve(persons, ids),
        },
    }
}

/// The co-parents contributed by a run of children, child by child; the
/// first failure, in that order, is the result.
pub open spec fn mates_over(persons: Map<i32, Person>, children: Seq<i32>, person_id: i32) -> Result<
    Seq<Person>,
    StoreError,
>
    decreases children.len(),
{
    if children.len() == 0 {
        Ok(Seq::empty())
    } else {
        match mates_over(persons, children.drop_last(), person_id) {
            Err(e) => Err(e),
            Ok(found) => match mates_through(persons, children.last(), person_id) {
                Err(e) => Err(e),
                Ok(more) => Ok(found + more),
            },
        }
    }
}

/// `ids` lists the ids under which `persons` files somebody: each once, in
/// ascending order.
pub open spec fn lists_ids(ids: Seq<i32>, persons: Map<i32, Person>) -> bool {
    &&& ascending(ids)
    &&& forall|id: i32| ids.contains(id) <==> persons.contains_key(id)
}

/// What a store holds: the persons by id, and the edges in insertion order.
pub struct GraphModel {
    pub persons: Map<i32, Person>,
    pub edges: Seq<Edge>,
}

impl GraphModel {
    /// The store without persons or edges.
    pub open spec fn empty() -> GraphModel {
        GraphModel { persons: Map::empty(), edges: Seq::empty() }
    }

    /// Every person is filed under its own id.
    pub open spec fn keyed_by_id(self) -> bool {
        forall|id: i32| self.persons.contains_key(id) ==> (#[trigger] self.persons[id]).id == id
    }

    /// The store after `person` was added: it takes the place of any person
    /// with the same id.
    pub open spec fn with_person(self, person: Person) -> GraphModel {
        GraphModel { persons: self.persons.insert(person.id, person), edges: self.edges }
    }

    /// The store after an edge from `from_person_id` to `to_person_id` was
    /// added behind the others.
    pub open spec fn with_edge(self, from_person_id: i32, to_person_id: i32) -> GraphModel {
        GraphModel {
            persons: self.persons,
            edges: self.edges.push(Edge { from_person_id, to_person_id }),
        }
    }

    /// The person with this id, or `NotFound`.
    pub open spec fn person(self, id: i32) -> Result<Person, StoreError> {
        lookup(self.persons, id)
    }

    /// The ids of all persons, in ascending order.
    pub open spec fn person_ids(self) -> Seq<i32> {
        choose|ids: Seq<i32>| lists_ids(ids, self.persons)
    }

    /// All persons, in ascending order of their ids.
    pub open spec fn persons_by_id(self) -> Seq<Person> {
        self.person_ids().map_values(|id: i32| self.persons[id])
    }

    /// The children of `person_id`: one person for each edge that leaves it,
    /// in edge order.
    pub open spec fn children(self, person_id: i32) -> Result<Seq<Person>, StoreError> {
        resolve(self.persons, child_ids(self.edges, person_id))
    }

    /// The mates of `person_id`: for each edge that leaves it, the other
    /// parents of the child at its end. A mate appears once for each such edge.
    pub open spec fn mates(self, person_id: i32) -> Result<Seq<Person>, StoreError> {
        mates_over(self.persons, child_ids(self.edges, person_id), person_id)
    }
}

/// Any ascending list of a store's ids is the list of its ids.
pub proof fn lemma_person_ids(model: GraphModel, ids: Seq<i32>)
    requires
        lists_ids(ids, model.persons),
    ensures
        model.person_ids() == ids,
{
    lemma_ascending_unique(model.person_ids(), ids);
}

/// Resolving one more id, behind the others.
pub proof fn lemma_resolve_push(persons: Map<i32, Person>, ids: Seq<i32>, id: i32)
    ensures
        resolve(persons, ids.push(id)) == match resolve(persons, ids) {
            Err(e) => Err(e),
            Ok(found) => match lookup(persons, id) {
                Err(e) => Err(e),
                Ok(person) => Ok(found.push(person)),
            },
        },
{
    assert(ids.push(id).drop_last() == ids);
}

/// The co-parents over one more child, behind the others.
pub proof fn lemma_mates_over_push(
    persons: Map<i32, Person>,
    children: Seq<i32>,
    child_id: i32,
    person_id: i32,
)
    ensures
        mates_over(persons, children.push(child_id), person_id) == match mates_over(
            persons,
            children,
            person_id,
        ) {
            Err(e) => Err(e),
            Ok(found) => match mates_through(persons, child_id, person_id) {
                Err(e) => Err(e),
                Ok(more) => Ok(found + more),
            },
        },
{
    assert(children.push(child_id).drop_last() == children);
}

/// A new last edge adds its target to the child ids of the person it leaves,
/// and nothing to those of anybody else.
pub proof fn lemma_child_ids_push(edges: Seq<Edge>, edge: Edge, person_id: i32)
    ensures
        child_ids(edges.push(edge), person_id) == if edge.from_person_id == person_id {
            child_ids(edges, person_id).push(edge.to_person_id)
        } else {
            child_ids(edges, person_id)
        },
{
    reveal(Seq::filter);
    assert(edges.push(edge).drop_last() == edges);
}

/// Before any edge is scanned nobody has children.
pub proof fn lemma_child_ids_start(edges: Seq<Edge>, person_id: i32)
    ensures
        child_ids(edges.take(0), person_id) == Seq::<i32>::empty(),
{
    reveal(Seq::filter);
}

/// One step of a scan over the edges: what the edge at position `n` adds to
/// the child ids of `person_id`.
pub proof fn lemma_child_ids_step(edges: Seq<Edge>, person_id: i32, n: int)
    requires
        0 <= n < edges.len(),
    ensures
        child_ids(edges.take(n + 1), person_id) == if edges[n].from_person_id == person_id {
            child_ids(edges.take(n), person_id).push(edges[n].to_person_id)
        } else {
            child_ids(edges.take(n), person_id)
        },
{
    assert(edges.take(n + 1) == edges.take(n).push(edges[n]));
    lemma_child_ids_push(edges.take(n), edges[n], person_id);
}

/// A failure to resolve the children over the first `n` edges is the failure
/// over all of them.
pub proof fn lemma_children_failure_stays(model: GraphModel, person_id: i32, n: int)
    requires
        0 <= n <= model.edges.len(),
        resolve(model.persons, child_ids(model.edges.take(n), person_id)) is Err,
    ensures
        model.children(person_id) == resolve(
            model.persons,
            child_ids(model.edges.take(n), person_id),
        ),
    decreases model.edges.len() - n,
{
    if n == model.edges.len() {
        assert(model.edges.take(n) == model.edges);
    } else {
        lemma_child_ids_step(model.edges, person_id, n);
        lemma_resolve_push(
            model.persons,
            child_ids(model.edges.take(n), person_id),
            model.edges[n].to_person_id,
        );
        lemma_children_failure_stays(model, person_id, n + 1);
    }
}

/// A failure to find the mates over the first `n` edges is the failure over
/// all of them.
pub proof fn lemma_mates_failure_stays(model: GraphModel, person_id: i32, n: int)
    requires
        0 <= n <= model.edges.len(),
        mates_over(model.persons, child_ids(model.edges.take(n), person_id), person_id) is Err,
    ensures
        model.mates(person_id) == mates_over(
            model.persons,
            child_ids(model.edges.take(n), person_id),
            person_id,
        ),
    decreases model.edges.len() - n,
{
    if n == model.edges.len() {
        assert(model.edges.take(n) == model.edges);
    } else {
        lemma_child_ids_step(model.edges, person_id, n);
        lemma_mates_over_push(
            model.persons,
            child_ids(model.edges.take(n), person_id),
            model.edges[n].to_person_id,
            person_id,
        );
        lemma_mates_failure_stays(model, person_id, n + 1);
    }
}

} // verus!
