//! The persisted form of a store: every person beside the key under which it
//! is filed, and the edges in order.
//!
//! A document is plain data that a serialiser can write and read field for
//! field. Writing a store out loses nothing, and reading a document in checks
//! that it describes a store before anything is built from it.

use vstd::prelude::*;
use crate::error::StoreError;
use crate::model::{lists_ids, GraphModel};
use crate::person::{Edge, Person};
use crate::store::GraphDatabase;

verus! {

/// A store written out: the entries of the person mapping, each a key and
/// the person under it, and the sequence of edges.
#[derive(Debug)]
pub struct GraphDocument {
    pub persons: Vec<(i32, Person)>,
    pub edges: Vec<Edge>,
}

/// The keys of a run of entries, in order.
pub open spec fn keys_of(entries: Seq<(i32, Person)>) -> Seq<i32> {
    entries.map_values(|entry: (i32, Person)| entry.0)
}

/// The mapping that a run of entries describes: each person under its key,
/// a later entry in place of an earlier one with the same key.
pub open spec fn filed(entries: Seq<(i32, Person)>) -> Map<i32, Person>
    decreases entries.len(),
{
    if entries.len() == 0 {
        Map::empty()
    } else {
        filed(entries.drop_last()).insert(entries.last().0, entries.last().1)
    }
}

impl GraphDocument {
    /// Every entry files its person under the person's own id. A document
    /// describes a store exactly when this holds.
    pub open spec fn keyed_by_id(&self) -> bool {
        forall|i: int|
            0 <= i < self.persons@.len() ==> (#[trigger] self.persons@[i]).0
                == self.persons@[i].1.id
    }

    /// The store that the document describes.
    pub open spec fn model(&self) -> GraphModel {
        GraphModel { persons: filed(self.persons@), edges: self.edges@ }
    }

    /// The document is `model` written out: one entry for each person, in
    /// ascending order of the keys, and the edges as they stand.
    pub open spec fn records(&self, model: GraphModel) -> bool {
        &&& lists_ids(keys_of(self.persons@), model.persons)
        &&& forall|i: int|
            0 <= i < self.persons@.len() ==> (#[trigger] self.persons@[i]).1
                == model.persons[self.persons@[i].0]
        &&& self.edges@ == model.edges
    }
}

/// Where every entry holds the person that `persons` files under the entry's
/// key, the entries describe `persons` as far as their keys reach.
pub proof fn lemma_filed_entries(entries: Seq<(i32, Person)>, persons: Map<i32, Person>)
    requires
        forall|i: int|
            0 <= i < entries.len() ==> persons.contains_key((#[trigger] entries[i]).0)
                && entries[i].1 == persons[entries[i].0],
    ensures
        forall|id: i32| filed(entries).contains_key(id) <==> keys_of(entries).contains(id),
        forall|id: i32| filed(entries).contains_key(id) ==> filed(entries)[id] == persons[id],
    decreases entries.len(),
{
    if entries.len() > 0 {
        let front = entries.drop_last();
        let last = entries.last();
        assert forall|i: int| 0 <= i < front.len() implies persons.contains_key(
            (#[trigger] front[i]).0,
        ) && front[i].1 == persons[front[i].0] by {}
        lemma_filed_entries(front, persons);
        assert forall|id: i32| filed(entries).contains_key(id) <==> keys_of(entries).contains(
            id,
        ) by {
            if keys_of(entries).contains(id) {
                let i = choose|i: int| 0 <= i < keys_of(entries).len() && keys_of(entries)[i] == id;
                if i < front.len() {
                    assert(keys_of(front)[i] == id);
                    assert(keys_of(front).contains(id));
                }
            }
            if filed(entries).contains_key(id) {
                if id == last.0 {
                    assert(keys_of(entries)[entries.len() - 1] == id);
                } else {
                    assert(keys_of(front).contains(id));
                    let i = choose|i: int| 0 <= i < keys_of(front).len() && keys_of(front)[i] == id;
                    assert(keys_of(entries)[i] == id);
                }
            }
        }
    }
}

/// Writing a store out and reading the document back gives the same store:
/// a document that records a store is keyed by id and describes that store,
/// with the same persons under the same ids and the same edges in the same
/// order.
pub proof fn law_round_trip(model: GraphModel, document: GraphDocument)
    requires
        model.keyed_by_id(),
        document.records(model),
    ensures
        document.keyed_by_id(),
        document.model() == model,
{
    let entries = document.persons@;
    assert forall|i: int| 0 <= i < entries.len() implies model.persons.contains_key(
        (#[trigger] entries[i]).0,
    ) && entries[i].1 == model.persons[entries[i].0] by {
        assert(keys_of(entries)[i] == entries[i].0);
        assert(keys_of(entries).contains(entries[i].0));
    }
    lemma_filed_entries(entries, model.persons);
    assert forall|id: i32| filed(entries).contains_key(id) <==> model.persons.contains_key(
        id,
    ) by {
        assert(keys_of(entries).contains(id) <==> model.persons.contains_key(id));
    }
    assert(filed(entries) =~= model.persons);
}

impl GraphDatabase {
    /// Writes the store out: one entry for each person, in ascending order of
    /// id, each a copy of the person under its id, and a copy of the edges in
    /// their order. Reading the document back gives the same store.
    pub fn to_document(&self) -> (document: GraphDocument)
        ensures
            document.records(self@),
            document.keyed_by_id(),
            document.model() == self@,
    {
        let listed = self.persons_by_id();
        let mut persons: Vec<(i32, Person)> = Vec::new();
        let mut i: usize = 0;
        while i < listed.len()
            invariant
                i <= listed@.len(),
                persons@.len() == i,
                forall|j: int|
                    0 <= j < i ==> (#[trigger] persons@[j]).1 == *listed@[j] && persons@[j].0
                        == listed@[j].id,
            decreases listed@.len() - i,
        {
            let person = listed[i];
            persons.push((person.id, person.clone()));
            i = i + 1;
        }
        let stored = self.edges();
        let mut edges: Vec<Edge> = Vec::new();
        let mut k: usize = 0;
        while k < stored.len()
            invariant
                k <= stored@.len(),
                edges@ == stored@.take(k as int),
            decreases stored@.len() - k,
        {
            edges.push(stored[k]);
            k = k + 1;
        }
        let document = GraphDocument { persons, edges };
        proof {
            use_type_invariant(self);
            let ids = self@.person_ids();
            assert(stored@.take(k as int) == stored@);
            assert(listed@.unref().len() == listed@.len());
            assert forall|j: int| 0 <= j < persons@.len() implies (#[trigger] persons@[j]).0
                == ids[j] && persons@[j].1 == self@.persons[ids[j]] by {
                assert(listed@.unref()[j] == self@.persons[ids[j]]);
                assert(ids.contains(ids[j]));
            }
            assert(keys_of(persons@) =~= ids);
            law_round_trip(self@, document);
        }
        document
    }

    /// Reads a store from a document. A document in which some entry files a
    /// person under another key than the person's id describes no store and
    /// is refused as `MalformedDocument`, with nothing built. Otherwise the
    /// store holds each person under its key, a later entry in place of an
    /// earlier one with the same key, and the edges in the document's order.
    pub fn from_document(document: &GraphDocument) -> (read: Result<GraphDatabase, StoreError>)
        ensures
            match read {
                Ok(store) => document.keyed_by_id() && store@ == document.model(),
                Err(e) => !document.keyed_by_id() && e == StoreError::MalformedDocument,
            },
    {
        let mut c: usize = 0;
        while c < document.persons.len()
            invariant
                c <= document.persons@.len(),
                forall|j: int|
                    0 <= j < c ==> (#[trigger] document.persons@[j]).0
                        == document.persons@[j].1.id,
            decreases document.persons@.len() - c,
        {
            if document.persons[c].0 != document.persons[c].1.id {
                return Err(StoreError::MalformedDocument);
            }
            c = c + 1;
        }
        let mut store = GraphDatabase::new();
        let mut i: usize = 0;
        while i < document.persons.len()
            invariant
                i <= document.persons@.len(),
                document.keyed_by_id(),
                store@.persons == filed(document.persons@.take(i as int)),
                store@.edges == Seq::<Edge>::empty(),
            decreases document.persons@.len() - i,
        {
            proof {
                assert(document.persons@.take(i as int + 1).drop_last() == document.persons@.take(
                    i as int,
                ));
            }
            store.add_person(document.persons[i].1.clone());
            i = i + 1;
        }
        proof {
            assert(document.persons@.take(i as int) == document.persons@);
        }
        let mut k: usize = 0;
        while k < document.edges.len()
            invariant
                k <= document.edges@.len(),
                store@.persons == filed(document.persons@),
                store@.edges == document.edges@.take(k as int),
            decreases document.edges@.len() - k,
        {
            let edge = document.edges[k];
            store.add_edge(edge.from_person_id, edge.to_person_id);
            k = k + 1;
        }
        proof {
            assert(document.edges@.take(k as int) == document.edges@);
        }
        Ok(store)
    }
}

} // verus!
