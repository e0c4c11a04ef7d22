//! The executable store: persons by id, edges in insertion order, and the
//! queries over them.

use std::collections::HashMap;
use vstd::prelude::*;
use vstd::std_specs::hash::spec_keys_iter;
use vstd::std_specs::iter::IteratorSpec;
use crate::error::StoreError;
use crate::model::{
    child_ids, lemma_child_ids_start, lemma_child_ids_step, lemma_children_failure_stays,
    lemma_mates_failure_stays, lemma_mates_over_push, lemma_person_ids, lemma_resolve_push,
    lists_ids, mates_over, mates_through, resolve, GraphModel,
};
use crate::order::{ascending, insert_ascending};
use crate::person::{Edge, Person};

verus! {

/// A genealogical graph: every person is filed under its id, and the edges
/// keep the order in which they were added.
#[derive(Debug)]
pub struct GraphDatabase {
    persons: HashMap<i32, Person>,
    edges: Vec<Edge>,
}

impl View for GraphDatabase {
    type V = GraphModel;

    closed spec fn view(&self) -> GraphModel {
        GraphModel { persons: self.persons@, edges: self.edges@ }
    }
}

impl GraphDatabase {
    #[verifier::type_invariant]
    pub(crate) open spec fn filed_by_id(self) -> bool {
        self@.keyed_by_id()
    }

    /// The empty store.
    pub fn new() -> (store: Self)
        ensures
            store@ == GraphModel::empty(),
    {
        GraphDatabase { persons: HashMap::new(), edges: Vec::new() }
    }

    /// Files `person` under its id, in place of any person that was there,
    /// and hands the store back for further additions.
    pub fn add_person(&mut self, person: Person) -> (store: &mut Self)
        ensures
            store@ == old(self)@.with_person(person),
            *final(self) == *final(store),
    {
        broadcast use vstd::std_specs::hash::group_hash_axioms;

        proof {
            use_type_invariant(&*self);
        }
        let mut persons = HashMap::new();
        std::mem::swap(&mut persons, &mut self.persons);
        persons.insert(person.id, person);
        self.persons = persons;
        self
    }

    /// Adds an edge behind the others, whether or not its ends name anybody,
    /// and hands the store back for further additions.
    pub fn add_edge(&mut self, from_person_id: i32, to_person_id: i32) -> (store: &mut Self)
        ensures
            store@ == old(self)@.with_edge(from_person_id, to_person_id),
            *final(self) == *final(store),
    {
        proof {
            use_type_invariant(&*self);
        }
        let mut edges = Vec::new();
        std::mem::swap(&mut edges, &mut self.edges);
        edges.push(Edge { from_person_id, to_person_id });
        self.edges = edges;
        self
    }

    /// The person with this id; `NotFound` when there is none.
    pub fn get_person(&self, person_id: i32) -> (found: Result<&Person, StoreError>)
        ensures
            match found {
                Ok(person) => self@.person(person_id) == Ok::<Person, StoreError>(*person)
                    && person.id == person_id,
                Err(e) => self@.person(person_id) == Err::<Person, StoreError>(e),
            },
    {
        broadcast use vstd::std_specs::hash::group_hash_axioms;

        proof {
            use_type_invariant(self);
        }
        match self.persons.get(&person_id) {
            Some(person) => Ok(person),
            None => Err(StoreError::NotFound { id: person_id }),
        }
    }

    /// The ids of all persons, in ascending order.
    pub fn person_ids(&self) -> (ids: Vec<i32>)
        ensures
            lists_ids(ids@, self@.persons),
            ids@ == self@.person_ids(),
    {
        broadcast use vstd::std_specs::hash::group_hash_axioms;

        let mut ids: Vec<i32> = Vec::new();
        for key in keys: self.persons.keys()
            invariant
                keys.seq() == spec_keys_iter(&self.persons).remaining(),
                ascending(ids@),
                forall|id: i32|
                    ids@.contains(id) <==> exists|i: int|
                        0 <= i < keys.index() && *#[trigger] keys.seq()[i] == id,
        {
            insert_ascending(&mut ids, *key);
        }
        proof {
            let all = spec_keys_iter(&self.persons).remaining();
            assert forall|id: i32| ids@.contains(id) <==> self.persons@.contains_key(id) by {
                if ids@.contains(id) {
                    let i = choose|i: int| 0 <= i < all.len() && *#[trigger] all[i] == id;
                    assert(all.unref()[i] == id);
                }
                if self.persons@.contains_key(id) {
                    assert(all.unref().contains(id));
                }
            }
            lemma_person_ids(self@, ids@);
        }
        ids
    }

    /// All persons, in ascending order of their ids: the one order in which
    /// the store lists them, whatever the order in which they were added.
    pub fn persons_by_id(&self) -> (persons: Vec<&Person>)
        ensures
            lists_ids(self@.person_ids(), self@.persons),
            persons@.unref() == self@.persons_by_id(),
    {
        broadcast use vstd::std_specs::hash::group_hash_axioms;

        let ids = self.person_ids();
        let mut persons: Vec<&Person> = Vec::new();
        let mut i: usize = 0;
        while i < ids.len()
            invariant
                i <= ids@.len(),
                lists_ids(ids@, self@.persons),
                persons@.len() == i,
                forall|j: int| 0 <= j < i ==> *#[trigger] persons@[j] == self@.persons[ids@[j]],
            decreases ids@.len() - i,
        {
            assert(ids@.contains(ids@[i as int]));
            if let Some(person) = self.persons.get(&ids[i]) {
                persons.push(person);
            }
            i = i + 1;
        }
        persons
    }

    /// The edges, in the order in which they were added.
    pub fn edges(&self) -> (edges: &Vec<Edge>)
        ensures
            edges@ == self@.edges,
    {
        &self.edges
    }

    /// The children of a person: for each edge that leaves `person_id`, in
    /// the order of the edges, the person at its end. An edge that occurs
    /// twice gives its child twice. `NotFound` with the first end that names
    /// nobody.
    pub fn get_children(&self, person_id: i32) -> (found: Result<Vec<&Person>, StoreError>)
        ensures
            match found {
                Ok(children) => self@.children(person_id) == Ok::<Seq<Person>, StoreError>(
                    children@.unref(),
                ),
                Err(e) => self@.children(person_id) == Err::<Seq<Person>, StoreError>(e),
            },
    {
        let mut children: Vec<&Person> = Vec::new();
        let mut i: usize = 0;
        proof {
            lemma_child_ids_start(self.edges@, person_id);
            assert(children@.unref() == Seq::<Person>::empty());
        }
        while i < self.edges.len()
            invariant
                i <= self.edges@.len(),
                resolve(self.persons@, child_ids(self.edges@.take(i as int), person_id)) == Ok::<
                    Seq<Person>,
                    StoreError,
                >(children@.unref()),
            decreases self.edges@.len() - i,
        {
            let edge = self.edges[i];
            proof {
                lemma_child_ids_step(self.edges@, person_id, i as int);
                lemma_resolve_push(
                    self.persons@,
                    child_ids(self.edges@.take(i as int), person_id),
                    edge.to_person_id,
                );
            }
            if edge.from_person_id == person_id {
                match self.get_person(edge.to_person_id) {
                    Ok(child) => {
                        proof {
                            assert(children@.push(child).unref() == children@.unref().push(*child));
                        }
                        children.push(child);
                    },
                    Err(e) => {
                        proof {
                            lemma_children_failure_stays(self@, person_id, i as int + 1);
                        }
                        return Err(e);
                    },
                }
            }
            i = i + 1;
        }
        proof {
            assert(self.edges@.take(i as int) == self.edges@);
        }
        Ok(children)
    }

    /// The mates of a person: whoever else is a parent of one of its
    /// children. For each edge that leaves `person_id`, in the order of the
    /// edges, the child at its end is looked up; it must name both its mother
    /// and its father; the mother and then the father, where they are not
    /// `person_id`, are looked up and added. A mate appears once for each
    /// such edge. The first failure on the way is the result: `NotFound` with
    /// the id that names nobody, or `MissingParentReference` with the child
    /// that lacks a parent id.
    pub fn get_mates(&self, person_id: i32) -> (found: Result<Vec<&Person>, StoreError>)
        ensures
            match found {
                Ok(mates) => self@.mates(person_id) == Ok::<Seq<Person>, StoreError>(
                    mates@.unref(),
                ),
                Err(e) => self@.mates(person_id) == Err::<Seq<Person>, StoreError>(e),
            },
    {
        let mut mates: Vec<&Person> = Vec::new();
        let mut i: usize = 0;
        proof {
            lemma_child_ids_start(self.edges@, person_id);
            assert(mates@.unref() == Seq::<Person>::empty());
        }
        while i < self.edges.len()
            invariant
                i <= self.edges@.len(),
                mates_over(
                    self.persons@,
                    child_ids(self.edges@.take(i as int), person_id),
                    person_id,
                ) == Ok::<Seq<Person>, StoreError>(mates@.unref()),
            decreases self.edges@.len() - i,
        {
            let edge = self.edges[i];
            proof {
                lemma_child_ids_step(self.edges@, person_id, i as int);
                lemma_mates_over_push(
                    self.persons@,
                    child_ids(self.edges@.take(i as int), person_id),
                    edge.to_person_id,
                    person_id,
                );
            }
            if edge.from_person_id == person_id {
                let ghost before = mates@.unref();
                match self.mates_of_child(edge.to_person_id, person_id, &mut mates) {
                    Ok(()) => {
                        proof {
                            assert(mates@.unref() =~= before + mates@.unref().skip(
                                before.len() as int,
                            ));
                        }
                    },
                    Err(e) => {
                        proof {
                            lemma_mates_failure_stays(self@, person_id, i as int + 1);
                        }
                        return Err(e);
                    },
                }
            }
            i = i + 1;
        }
        proof {
            assert(self.edges@.take(i as int) == self.edges@);
        }
        Ok(mates)
    }

    /// Adds to `mates` the co-parents that the child `child_id` contributes
    /// for `person_id`.
    fn mates_of_child<'a>(
        &'a self,
        child_id: i32,
        person_id: i32,
        mates: &mut Vec<&'a Person>,
    ) -> (done: Result<(), StoreError>)
        ensures
            match done {
                Ok(()) => mates_through(self.persons@, child_id, person_id) == Ok::<
                    Seq<Person>,
                    StoreError,
                >(final(mates)@.unref().skip(old(mates)@.len() as int))
                    && final(mates)@.unref().take(old(mates)@.len() as int) == old(
                    mates,
                )@.unref() && final(mates)@.len() >= old(mates)@.len(),
                Err(e) => mates_through(self.persons@, child_id, person_id) == Err::<
                    Seq<Person>,
                    StoreError,
                >(e),
            },
    {
        let child = match self.get_person(child_id) {
            Ok(child) => child,
            Err(e) => {
                return Err(e);
            },
        };
        let mother_id = match child.mother_id {
            Some(id) => id,
            None => {
                return Err(StoreError::MissingParentReference { child_id });
            },
        };
        let father_id = match child.father_id {
            Some(id) => id,
            None => {
                return Err(StoreError::MissingParentReference { child_id });
            },
        };
        let ghost before = mates@;
        let ghost mother_part = if mother_id != person_id {
            seq![mother_id]
        } else {
            Seq::<i32>::empty()
        };
        proof {
            lemma_resolve_push(self.persons@, Seq::<i32>::empty(), mother_id);
            lemma_resolve_push(self.persons@, mother_part, father_id);
            assert(mother_part + Seq::<i32>::empty() == mother_part);
        }
        if mother_id != person_id {
            match self.get_person(mother_id) {
                Ok(mother) => {
                    mates.push(mother);
                },
                Err(e) => {
                    return Err(e);
                },
            }
        }
        proof {
            if mother_id != person_id {
                assert(mates@.unref().skip(before.len() as int) =~= Seq::<Person>::empty().push(
                    self.persons@[mother_id],
                ));
            } else {
                assert(mates@.unref().skip(before.len() as int) =~= Seq::<Person>::empty());
            }
        }
        if father_id != person_id {
            match self.get_person(father_id) {
                Ok(father) => {
                    proof {
                        assert(mates@.push(father).unref().skip(before.len() as int)
                            == mates@.unref().skip(before.len() as int).push(*father));
                    }
                    mates.push(father);
                },
                Err(e) => {
                    return Err(e);
                },
            }
        }
        Ok(())
    }
}

} // verus!
