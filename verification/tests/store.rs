use family_graph::{create_person, Edge, GDate, GraphDatabase, Person, StoreError};

fn named(id: i32, first: &str, sur: &str) -> Person {
    create_person(
        id,
        Some(first.to_string()),
        Some(sur.to_string()),
        None,
        None,
        None,
        None,
        None,
    )
}

fn child_of(id: i32, first: &str, mother: Option<i32>, father: Option<i32>) -> Person {
    create_person(id, Some(first.to_string()), None, mother, father, None, None, None)
}

fn ids(persons: &[&Person]) -> Vec<i32> {
    persons.iter().map(|p| p.id).collect()
}

#[test]
fn date_keeps_its_components() {
    let date = GDate::new(24, 12, 1999);
    assert_eq!(date.day, 24);
    assert_eq!(date.month, 12);
    assert_eq!(date.year, 1999);
}

#[test]
fn create_person_keeps_every_field() {
    let person = create_person(
        7,
        Some("Ada".to_string()),
        Some("Byron".to_string()),
        Some(1),
        Some(2),
        Some(GDate::new(10, 12, 1815)),
        Some(GDate::new(27, 11, 1852)),
        Some("mathematician".to_string()),
    );
    assert_eq!(person.id, 7);
    assert_eq!(person.firstname.as_deref(), Some("Ada"));
    assert_eq!(person.surname.as_deref(), Some("Byron"));
    assert_eq!(person.mother_id, Some(1));
    assert_eq!(person.father_id, Some(2));
    assert_eq!(person.dob, Some(GDate::new(10, 12, 1815)));
    assert_eq!(person.dod, Some(GDate::new(27, 11, 1852)));
    assert_eq!(person.info.as_deref(), Some("mathematician"));
}

#[test]
fn clone_copies_a_person_field_for_field() {
    let person = create_person(
        7,
        Some("Ada".to_string()),
        None,
        Some(1),
        None,
        Some(GDate::new(10, 12, 1815)),
        None,
        Some("note".to_string()),
    );
    let copy = person.clone();
    assert_eq!(format!("{:?}", copy), format!("{:?}", person));
}

#[test]
fn new_store_is_empty() {
    let store = GraphDatabase::new();
    assert!(store.person_ids().is_empty());
    assert!(store.persons_by_id().is_empty());
    assert!(store.edges().is_empty());
}

#[test]
fn added_person_is_found_under_its_id() {
    let mut store = GraphDatabase::new();
    store.add_person(named(5, "Eve", "Adams"));
    let found = store.get_person(5).unwrap();
    assert_eq!(found.id, 5);
    assert_eq!(found.firstname.as_deref(), Some("Eve"));
    assert_eq!(found.surname.as_deref(), Some("Adams"));
}

#[test]
fn additions_chain() {
    let mut store = GraphDatabase::new();
    store
        .add_person(named(1, "John", "Doe"))
        .add_person(named(2, "Jane", "Doe"))
        .add_edge(1, 2)
        .add_edge(1, 2);
    assert_eq!(store.person_ids(), vec![1, 2]);
    assert_eq!(store.edges().len(), 2);
}

#[test]
fn overwrite_replaces_the_person_and_keeps_the_size() {
    let mut store = GraphDatabase::new();
    store.add_person(named(1, "John", "Doe"));
    store.add_person(named(2, "Jane", "Doe"));
    assert_eq!(store.person_ids().len(), 2);
    store.add_person(create_person(
        1,
        Some("Johnny".to_string()),
        None,
        Some(9),
        None,
        None,
        None,
        Some("renamed".to_string()),
    ));
    assert_eq!(store.person_ids().len(), 2);
    assert_eq!(store.person_ids(), vec![1, 2]);
    let found = store.get_person(1).unwrap();
    assert_eq!(found.firstname.as_deref(), Some("Johnny"));
    assert_eq!(found.surname, None);
    assert_eq!(found.mother_id, Some(9));
    assert_eq!(found.info.as_deref(), Some("renamed"));
    let other = store.get_person(2).unwrap();
    assert_eq!(other.firstname.as_deref(), Some("Jane"));
}

#[test]
fn missing_person_is_not_found() {
    let mut store = GraphDatabase::new();
    store.add_person(named(1, "John", "Doe"));
    match store.get_person(999) {
        Err(e) => assert_eq!(e, StoreError::NotFound { id: 999 }),
        Ok(_) => panic!("a person was returned for an id that is not filed"),
    }
}

#[test]
fn lookup_in_empty_store_is_not_found() {
    let store = GraphDatabase::new();
    assert!(matches!(store.get_person(0), Err(StoreError::NotFound { id: 0 })));
}

#[test]
fn persons_are_listed_in_ascending_order_of_id() {
    let mut store = GraphDatabase::new();
    store.add_person(named(3, "C", "c"));
    store.add_person(named(-4, "N", "n"));
    store.add_person(named(1, "A", "a"));
    store.add_person(named(2, "B", "b"));
    store.add_person(named(i32::MAX, "Z", "z"));
    store.add_person(named(i32::MIN, "M", "m"));
    assert_eq!(store.person_ids(), vec![i32::MIN, -4, 1, 2, 3, i32::MAX]);
    let listed = store.persons_by_id();
    assert_eq!(ids(&listed), vec![i32::MIN, -4, 1, 2, 3, i32::MAX]);
    assert_eq!(listed[1].firstname.as_deref(), Some("N"));
}

#[test]
fn edges_keep_insertion_order() {
    let mut store = GraphDatabase::new();
    store.add_edge(5, 1);
    store.add_edge(2, 9);
    store.add_edge(5, 1);
    assert_eq!(
        store.edges(),
        &vec![
            Edge { from_person_id: 5, to_person_id: 1 },
            Edge { from_person_id: 2, to_person_id: 9 },
            Edge { from_person_id: 5, to_person_id: 1 },
        ]
    );
}

#[test]
fn edge_may_name_nobody() {
    let mut store = GraphDatabase::new();
    store.add_edge(100, 200);
    assert_eq!(store.edges().len(), 1);
    assert!(store.person_ids().is_empty());
}

#[test]
fn children_follow_edge_order() {
    let mut store = GraphDatabase::new();
    store.add_person(named(1, "P", "p"));
    store.add_person(named(2, "A", "a"));
    store.add_person(named(3, "B", "b"));
    store.add_person(named(4, "C", "c"));
    store.add_edge(1, 4);
    store.add_edge(2, 3);
    store.add_edge(1, 2);
    store.add_edge(1, 3);
    let children = store.get_children(1).unwrap();
    assert_eq!(ids(&children), vec![4, 2, 3]);
    let other = store.get_children(2).unwrap();
    assert_eq!(ids(&other), vec![3]);
}

#[test]
fn person_without_edges_has_no_children() {
    let mut store = GraphDatabase::new();
    store.add_person(named(1, "P", "p"));
    store.add_edge(2, 1);
    assert!(store.get_children(1).unwrap().is_empty());
    assert!(store.get_children(77).unwrap().is_empty());
}

#[test]
fn duplicate_edge_gives_the_child_twice() {
    let mut store = GraphDatabase::new();
    store.add_person(named(1, "John", "Doe"));
    store.add_person(named(2, "Jane", "Doe"));
    store.add_person(named(3, "Jim", "Doe"));
    store.add_edge(1, 3);
    store.add_edge(1, 2);
    store.add_edge(1, 2);
    let children = store.get_children(1).unwrap();
    assert_eq!(ids(&children), vec![3, 2, 2]);
    assert_eq!(children[1].firstname.as_deref(), Some("Jane"));
    assert_eq!(children[2].firstname.as_deref(), Some("Jane"));
}

#[test]
fn children_report_the_first_dangling_edge() {
    let mut store = GraphDatabase::new();
    store.add_person(named(1, "P", "p"));
    store.add_person(named(2, "A", "a"));
    store.add_edge(1, 2);
    store.add_edge(1, 50);
    store.add_edge(1, 60);
    match store.get_children(1) {
        Err(e) => assert_eq!(e, StoreError::NotFound { id: 50 }),
        Ok(_) => panic!("a dangling edge was passed over"),
    }
    assert_eq!(store.person_ids(), vec![1, 2]);
    assert_eq!(store.edges().len(), 3);
}

#[test]
fn co_parents_are_each_other_s_mates() {
    let mut store = GraphDatabase::new();
    store.add_person(named(1, "A", "a"));
    store.add_person(named(2, "B", "b"));
    store.add_person(child_of(3, "C", Some(1), Some(2)));
    store.add_edge(1, 3);
    store.add_edge(2, 3);
    let of_a = store.get_mates(1).unwrap();
    assert_eq!(ids(&of_a), vec![2]);
    assert_eq!(of_a[0].firstname.as_deref(), Some("B"));
    let of_b = store.get_mates(2).unwrap();
    assert_eq!(ids(&of_b), vec![1]);
    assert_eq!(of_b[0].firstname.as_deref(), Some("A"));
}

#[test]
fn mate_appears_once_for_each_child_edge() {
    let mut store = GraphDatabase::new();
    store.add_person(named(1, "A", "a"));
    store.add_person(named(2, "B", "b"));
    store.add_person(named(5, "E", "e"));
    store.add_person(child_of(3, "C", Some(1), Some(2)));
    store.add_person(child_of(4, "D", Some(5), Some(1)));
    store.add_edge(1, 3);
    store.add_edge(1, 4);
    store.add_edge(1, 3);
    let mates = store.get_mates(1).unwrap();
    assert_eq!(ids(&mates), vec![2, 5, 2]);
}

#[test]
fn stranger_to_the_child_gets_mother_then_father() {
    let mut store = GraphDatabase::new();
    store.add_person(named(1, "A", "a"));
    store.add_person(named(2, "B", "b"));
    store.add_person(named(9, "X", "x"));
    store.add_person(child_of(3, "C", Some(1), Some(2)));
    store.add_edge(9, 3);
    let mates = store.get_mates(9).unwrap();
    assert_eq!(ids(&mates), vec![1, 2]);
}

#[test]
fn child_naming_one_person_as_both_parents_gives_no_mate() {
    let mut store = GraphDatabase::new();
    store.add_person(named(1, "A", "a"));
    store.add_person(child_of(3, "C", Some(1), Some(1)));
    store.add_edge(1, 3);
    assert!(store.get_mates(1).unwrap().is_empty());
}

#[test]
fn person_without_children_has_no_mates() {
    let mut store = GraphDatabase::new();
    store.add_person(named(1, "A", "a"));
    assert!(store.get_mates(1).unwrap().is_empty());
    assert!(store.get_mates(42).unwrap().is_empty());
}

#[test]
fn mates_need_both_parent_ids_on_the_child() {
    let mut store = GraphDatabase::new();
    store.add_person(named(1, "A", "a"));
    store.add_person(child_of(3, "C", Some(1), None));
    store.add_person(child_of(4, "D", None, Some(1)));
    store.add_person(child_of(5, "E", None, None));
    store.add_edge(1, 3);
    match store.get_mates(1) {
        Err(e) => assert_eq!(e, StoreError::MissingParentReference { child_id: 3 }),
        Ok(_) => panic!("a child without father id was accepted"),
    }
    store.add_edge(2, 4);
    assert!(matches!(
        store.get_mates(2),
        Err(StoreError::MissingParentReference { child_id: 4 })
    ));
    store.add_edge(6, 5);
    assert!(matches!(
        store.get_mates(6),
        Err(StoreError::MissingParentReference { child_id: 5 })
    ));
}

#[test]
fn missing_parent_id_is_reported_before_a_dangling_parent() {
    let mut store = GraphDatabase::new();
    store.add_person(named(1, "A", "a"));
    store.add_person(child_of(3, "C", Some(999), None));
    store.add_edge(1, 3);
    assert!(matches!(
        store.get_mates(1),
        Err(StoreError::MissingParentReference { child_id: 3 })
    ));
}

#[test]
fn mates_report_a_dangling_child() {
    let mut store = GraphDatabase::new();
    store.add_person(named(1, "A", "a"));
    store.add_edge(1, 30);
    assert!(matches!(store.get_mates(1), Err(StoreError::NotFound { id: 30 })));
}

#[test]
fn mates_report_a_dangling_parent() {
    let mut store = GraphDatabase::new();
    store.add_person(named(1, "A", "a"));
    store.add_person(child_of(3, "C", Some(1), Some(70)));
    store.add_person(child_of(4, "D", Some(80), Some(90)));
    store.add_edge(1, 3);
    assert!(matches!(store.get_mates(1), Err(StoreError::NotFound { id: 70 })));
    store.add_edge(2, 4);
    assert!(matches!(store.get_mates(2), Err(StoreError::NotFound { id: 80 })));
}

#[test]
fn mates_report_the_first_failure_in_edge_order() {
    let mut store = GraphDatabase::new();
    store.add_person(named(1, "A", "a"));
    store.add_person(named(2, "B", "b"));
    store.add_person(child_of(3, "C", Some(1), Some(2)));
    store.add_person(child_of(4, "D", Some(1), None));
    store.add_edge(1, 3);
    store.add_edge(1, 4);
    store.add_edge(1, 55);
    assert!(matches!(
        store.get_mates(1),
        Err(StoreError::MissingParentReference { child_id: 4 })
    ));
}

#[test]
fn error_messages_are_distinct_and_stable() {
    assert_eq!(StoreError::NotFound { id: 999 }.message(), "person not found: 999");
    assert_eq!(StoreError::NotFound { id: -7 }.message(), "person not found: -7");
    assert_eq!(StoreError::NotFound { id: 0 }.message(), "person not found: 0");
    assert_eq!(
        StoreError::NotFound { id: i32::MIN }.message(),
        "person not found: -2147483648"
    );
    assert_eq!(
        StoreError::MissingParentReference { child_id: 12 }.message(),
        "parent reference missing on person: 12"
    );
    assert_eq!(StoreError::Persistence.message(), "storage could not be read or written");
    assert_eq!(
        StoreError::MalformedDocument.message(),
        "document does not describe a graph store"
    );
}
