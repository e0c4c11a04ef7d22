use family_graph::{create_person, Edge, GDate, GraphDatabase, GraphDocument, Person, StoreError};

fn sample_person(id: i32) -> Person {
    create_person(
        id,
        Some(format!("First{}", id)),
        if id % 2 == 0 { Some(format!("Sur{}", id)) } else { None },
        if id > 2 { Some(1) } else { None },
        if id > 2 { Some(2) } else { None },
        Some(GDate::new(1, 2, 1900)),
        None,
        Some("note".to_string()),
    )
}

fn sample_store() -> GraphDatabase {
    let mut store = GraphDatabase::new();
    store.add_person(sample_person(4));
    store.add_person(sample_person(1));
    store.add_person(sample_person(3));
    store.add_person(sample_person(2));
    store.add_edge(1, 3);
    store.add_edge(2, 3);
    store.add_edge(1, 4);
    store.add_edge(1, 3);
    store.add_edge(8, 9);
    store
}

#[test]
fn document_lists_persons_by_id_and_edges_in_order() {
    let document = sample_store().to_document();
    let keys: Vec<i32> = document.persons.iter().map(|entry| entry.0).collect();
    assert_eq!(keys, vec![1, 2, 3, 4]);
    for (key, person) in &document.persons {
        assert_eq!(*key, person.id);
        assert_eq!(format!("{:?}", person), format!("{:?}", sample_person(*key)));
    }
    assert_eq!(
        document.edges,
        vec![
            Edge { from_person_id: 1, to_person_id: 3 },
            Edge { from_person_id: 2, to_person_id: 3 },
            Edge { from_person_id: 1, to_person_id: 4 },
            Edge { from_person_id: 1, to_person_id: 3 },
            Edge { from_person_id: 8, to_person_id: 9 },
        ]
    );
}

#[test]
fn round_trip_gives_the_same_store() {
    let store = sample_store();
    let read = match GraphDatabase::from_document(&store.to_document()) {
        Ok(read) => read,
        Err(e) => panic!("a written store was refused: {:?}", e),
    };
    assert_eq!(read.person_ids(), store.person_ids());
    assert_eq!(read.edges(), store.edges());
    assert_eq!(read.print_graph(), store.print_graph());
    for id in store.person_ids() {
        assert_eq!(
            format!("{:?}", read.get_person(id).unwrap()),
            format!("{:?}", store.get_person(id).unwrap())
        );
    }
    let mates: Vec<i32> = read.get_mates(1).unwrap().iter().map(|p| p.id).collect();
    assert_eq!(mates, vec![2, 2, 2]);
}

#[test]
fn round_trip_of_the_empty_store() {
    let document = GraphDatabase::new().to_document();
    assert!(document.persons.is_empty());
    assert!(document.edges.is_empty());
    let read = GraphDatabase::from_document(&document).unwrap();
    assert_eq!(read.print_graph(), "Persons:\nEdges:\n");
}

#[test]
fn document_with_a_person_under_a_foreign_key_is_malformed() {
    let document = GraphDocument {
        persons: vec![(1, sample_person(1)), (5, sample_person(2))],
        edges: vec![],
    };
    match GraphDatabase::from_document(&document) {
        Err(e) => assert_eq!(e, StoreError::MalformedDocument),
        Ok(_) => panic!("a document with a foreign key was accepted"),
    }
}

#[test]
fn later_entry_takes_the_place_of_an_earlier_one() {
    let mut replacement = sample_person(1);
    replacement.firstname = Some("Again".to_string());
    let document = GraphDocument {
        persons: vec![(1, sample_person(1)), (2, sample_person(2)), (1, replacement)],
        edges: vec![Edge { from_person_id: 2, to_person_id: 1 }],
    };
    let read = GraphDatabase::from_document(&document).unwrap();
    assert_eq!(read.person_ids(), vec![1, 2]);
    assert_eq!(read.get_person(1).unwrap().firstname.as_deref(), Some("Again"));
    assert_eq!(read.edges().len(), 1);
}

#[test]
fn document_may_hold_dangling_edges() {
    let document = GraphDocument {
        persons: vec![],
        edges: vec![Edge { from_person_id: 1, to_person_id: 2 }],
    };
    let read = GraphDatabase::from_document(&document).unwrap();
    assert!(matches!(read.get_children(1), Err(StoreError::NotFound { id: 2 })));
}
