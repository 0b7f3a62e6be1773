use hub::registry::SessionRegistry;

#[test]
fn a_new_registry_is_empty() {
    let registry: SessionRegistry<u32> = SessionRegistry::new();
    assert_eq!(registry.len(), 0);
    assert!(!registry.contains("abc"));
    assert_eq!(registry.get("abc"), None);
}

#[test]
fn the_default_registry_is_empty() {
    let registry: SessionRegistry<u32> = Default::default();
    assert_eq!(registry.len(), 0);
    assert!(!registry.contains(""));
}

#[test]
fn insert_registers_under_the_identifier() {
    let mut registry: SessionRegistry<&str> = SessionRegistry::new();
    assert_eq!(registry.insert("one".to_string(), "first"), None);
    assert_eq!(registry.insert("two".to_string(), "second"), None);
    assert_eq!(registry.len(), 2);
    assert!(registry.contains("one"));
    assert!(registry.contains("two"));
    assert!(!registry.contains("three"));
    assert_eq!(registry.get("one"), Some(&"first"));
    assert_eq!(registry.get("two"), Some(&"second"));
}

#[test]
fn insert_under_a_taken_identifier_replaces_the_session() {
    let mut registry: SessionRegistry<&str> = SessionRegistry::new();
    registry.insert("one".to_string(), "first");
    registry.insert("two".to_string(), "second");
    assert_eq!(registry.insert("one".to_string(), "third"), Some("first"));
    assert_eq!(registry.len(), 2);
    assert_eq!(registry.get("one"), Some(&"third"));
    assert_eq!(registry.get("two"), Some(&"second"));
}

#[test]
fn remove_takes_the_session_out() {
    let mut registry: SessionRegistry<u32> = SessionRegistry::new();
    registry.insert("a".to_string(), 1);
    registry.insert("b".to_string(), 2);
    registry.insert("c".to_string(), 3);
    assert_eq!(registry.remove("b"), Some(2));
    assert_eq!(registry.len(), 2);
    assert!(!registry.contains("b"));
    assert_eq!(registry.get("a"), Some(&1));
    assert_eq!(registry.get("c"), Some(&3));
    assert_eq!(registry.remove("b"), None);
    assert_eq!(registry.len(), 2);
}

#[test]
fn remove_of_the_first_and_the_last_session() {
    let mut registry: SessionRegistry<u32> = SessionRegistry::new();
    registry.insert("a".to_string(), 1);
    registry.insert("b".to_string(), 2);
    registry.insert("c".to_string(), 3);
    assert_eq!(registry.remove("a"), Some(1));
    assert_eq!(registry.remove("c"), Some(3));
    assert_eq!(registry.len(), 1);
    assert_eq!(registry.get("b"), Some(&2));
    assert_eq!(registry.remove("b"), Some(2));
    assert_eq!(registry.len(), 0);
}

#[test]
fn get_mut_of_an_absent_session_is_none() {
    let mut registry: SessionRegistry<u32> = SessionRegistry::new();
    registry.insert("a".to_string(), 1);
    assert_eq!(registry.get_mut("abc"), None);
    assert_eq!(registry.len(), 1);
    assert_eq!(registry.get("a"), Some(&1));
}

#[test]
fn get_mut_hands_out_the_connection_itself() {
    let mut registry: SessionRegistry<Vec<u8>> = SessionRegistry::new();
    registry.insert("a".to_string(), vec![1]);
    registry.insert("b".to_string(), vec![2]);
    match registry.get_mut("a") {
        Some(connection) => {
            assert_eq!(*connection, vec![1]);
            connection.push(7);
        }
        None => panic!("the session is registered"),
    }
    assert_eq!(registry.get("a"), Some(&vec![1, 7]));
    assert_eq!(registry.get("b"), Some(&vec![2]));
    assert_eq!(registry.len(), 2);
}

#[test]
fn identifiers_are_told_apart_by_their_whole_text() {
    let mut registry: SessionRegistry<u32> = SessionRegistry::new();
    registry.insert("abc".to_string(), 1);
    assert!(!registry.contains("ab"));
    assert!(!registry.contains("abcd"));
    assert!(!registry.contains("ABC"));
    assert!(!registry.contains(""));
    registry.insert("".to_string(), 2);
    assert_eq!(registry.get(""), Some(&2));
    assert_eq!(registry.get("abc"), Some(&1));
}
