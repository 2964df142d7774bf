use ostinato::collection::ResourceCollection;
use ostinato::error::RegistryError;

#[test]
fn insert_appends_in_sequence() {
    let mut c: ResourceCollection<&str> = ResourceCollection::new();
    assert_eq!(c.insert("a", "first"), 0);
    assert_eq!(c.insert("b", "second"), 1);
    assert_eq!(c.len(), 2);
    assert_eq!(c.get(0), Ok(&"first"));
    assert_eq!(c.get(1), Ok(&"second"));
}

#[test]
fn insert_under_a_live_key_replaces_in_place() {
    let mut c: ResourceCollection<u32> = ResourceCollection::new();
    c.insert("camera", 1);
    c.insert("light", 2);
    assert_eq!(c.insert("camera", 3), 0);
    assert_eq!(c.len(), 2);
    assert_eq!(c.get(0), Ok(&3));
    assert_eq!(c.get(1), Ok(&2));
}

#[test]
fn every_inserted_id_is_at_most_the_length_and_reads_back() {
    let mut c: ResourceCollection<usize> = ResourceCollection::new();
    let keys = ["a", "b", "a", "c", "b", "d", "a", "e"];
    for (n, key) in keys.iter().enumerate() {
        let before = c.len();
        let id = c.insert(key, n);
        assert!(id <= before);
        assert_eq!(c.get(id), Ok(&n));
    }
    assert_eq!(c.len(), 5);
}

#[test]
fn get_on_an_empty_collection_is_out_of_range() {
    let c: ResourceCollection<u8> = ResourceCollection::new();
    assert_eq!(c.get(0), Err(RegistryError::OutOfRange));
}

#[test]
fn get_beyond_the_length_is_out_of_range_for_every_index() {
    let mut c: ResourceCollection<u8> = ResourceCollection::new();
    c.insert("a", 1);
    c.insert("b", 2);
    for index in [2usize, 3, 4, 17, 1000, usize::MAX - 1, usize::MAX] {
        assert_eq!(c.get(index), Err(RegistryError::OutOfRange));
        assert_eq!(c.get_mut(index), Err(RegistryError::OutOfRange));
    }
    assert_eq!(c.get(1), Ok(&2));
}

#[test]
fn get_mut_writes_through() {
    let mut c: ResourceCollection<u8> = ResourceCollection::new();
    c.insert("a", 1);
    *c.get_mut(0).unwrap() = 9;
    assert_eq!(c.get(0), Ok(&9));
}

#[test]
fn index_of_does_not_touch_storage() {
    let mut c: ResourceCollection<u8> = ResourceCollection::new();
    c.insert("a", 1);
    assert_eq!(c.index_of("b"), 1);
    assert_eq!(c.len(), 1);
    assert_eq!(c.get(1), Err(RegistryError::OutOfRange));
}

#[test]
fn index_of_after_insert_returns_the_id_without_growing() {
    let mut c: ResourceCollection<u8> = ResourceCollection::new();
    c.insert("other", 0);
    let id = c.insert("material::foo", 7);
    let len = c.len();
    assert_eq!(c.index_of("material::foo"), id);
    assert_eq!(c.len(), len);
    assert_eq!(c.get(id), Ok(&7));
}

#[test]
fn a_removed_key_cannot_be_resolved_though_its_slot_is_kept() {
    let mut c: ResourceCollection<&str> = ResourceCollection::new();
    c.insert("old", "old data");
    c.insert("kept", "kept data");
    assert_eq!(c.remove("old"), Ok(0));
    assert_eq!(c.get_resource("old"), Err(RegistryError::UnknownKey));
    // the slot still holds the old data, by its id
    assert_eq!(c.get(0), Ok(&"old data"));
    // a different new key receives the freed id
    assert_eq!(c.index_of("new"), 0);
    assert_eq!(c.get_resource("old"), Err(RegistryError::UnknownKey));
    assert_eq!(c.get_resource("new"), Ok(&"old data"));
    assert_eq!(c.insert("new", "new data"), 0);
    assert_eq!(c.get_resource("new"), Ok(&"new data"));
    assert_eq!(c.get_resource("old"), Err(RegistryError::UnknownKey));
    assert_eq!(c.len(), 2);
}

#[test]
fn remove_of_an_unknown_key_changes_nothing() {
    let mut c: ResourceCollection<u8> = ResourceCollection::new();
    c.insert("a", 1);
    assert_eq!(c.remove("b"), Err(RegistryError::UnknownKey));
    assert_eq!(c.get_resource("a"), Ok(&1));
    assert_eq!(c.insert("b", 2), 1);
}

#[test]
fn get_resource_of_a_key_without_a_value_is_out_of_range() {
    let mut c: ResourceCollection<u8> = ResourceCollection::new();
    c.index_of("pending");
    assert_eq!(c.get_resource("pending"), Err(RegistryError::OutOfRange));
    assert!(!c.contains("pending"));
    assert_eq!(c.lookup("pending"), Some(0));
}

#[test]
fn contains_tells_stored_keys_from_others() {
    let mut c: ResourceCollection<u8> = ResourceCollection::new();
    c.insert("a", 1);
    assert!(c.contains("a"));
    assert!(!c.contains("b"));
    assert_eq!(c.lookup("b"), None);
}

#[test]
fn entry_is_present_only_below_the_length() {
    let mut c: ResourceCollection<u8> = ResourceCollection::new();
    c.insert("a", 1);
    assert!(c.entry(0).is_present());
    assert!(!c.entry(1).is_present());
    assert!(!c.entry(5).is_present());
}

#[test]
fn entry_get_returns_nothing_when_absent() {
    let mut c: ResourceCollection<u8> = ResourceCollection::new();
    c.insert("a", 1);
    assert_eq!(c.entry(0).get(), Some(&1));
    assert_eq!(c.entry(1).get(), None);
    assert_eq!(c.entry(1).get_mut(), None);
    *c.entry(0).get_mut().unwrap() = 4;
    assert_eq!(c.get(0), Ok(&4));
}

#[test]
fn or_insert_with_stores_only_when_absent() {
    let mut c: ResourceCollection<u32> = ResourceCollection::new();
    let id = c.index_of("texture");
    let mut calls = 0;
    let value = c.entry(id).or_insert_with(|| {
        calls += 1;
        10
    });
    assert_eq!(*value, 10);
    let value = c.entry(id).or_insert_with(|| {
        calls += 1;
        20
    });
    assert_eq!(*value, 10);
    assert_eq!(calls, 1);
    assert_eq!(c.len(), 1);
    assert_eq!(c.get(id), Ok(&10));
}

#[test]
fn index_of_then_or_insert_with_keeps_ids_within_the_length() {
    let mut c: ResourceCollection<usize> = ResourceCollection::new();
    for (n, key) in ["a", "b", "a", "c"].iter().enumerate() {
        let id = c.index_of(key);
        assert!(id <= c.len());
        c.entry(id).or_insert_with(|| n);
        assert!(c.get(id).is_ok());
    }
    assert_eq!(c.resources, vec![0, 1, 3]);
}

#[test]
fn get_or_insert_with_loads_once_per_key() {
    let mut c: ResourceCollection<String> = ResourceCollection::new();
    let mut calls = 0;
    c.get_or_insert_with("a", || {
        calls += 1;
        "loaded".to_string()
    })
    .push('!');
    let again = c.get_or_insert_with("a", || {
        calls += 1;
        "again".to_string()
    });
    assert_eq!(again.as_str(), "loaded!");
    assert_eq!(calls, 1);
}

#[test]
fn get_or_insert_with_overwrites_the_slot_of_a_removed_key() {
    let mut c: ResourceCollection<&str> = ResourceCollection::new();
    c.insert("old", "stale");
    c.remove("old").unwrap();
    assert_eq!(*c.get_or_insert_with("new", || "fresh"), "fresh");
    assert_eq!(c.get(0), Ok(&"fresh"));
    assert_eq!(c.len(), 1);
}

#[test]
fn get_or_try_insert_with_hands_on_the_error_and_stores_nothing() {
    let mut c: ResourceCollection<u8> = ResourceCollection::new();
    c.insert("a", 1);
    assert_eq!(c.get_or_try_insert_with("b", || Err::<u8, &str>("failed")), Err("failed"));
    assert_eq!(c.len(), 1);
    assert_eq!(c.lookup("b"), None);
    assert_eq!(c.get_or_try_insert_with("b", || Ok::<u8, &str>(2)), Ok(&mut 2));
    assert_eq!(c.get_or_try_insert_with("a", || Err::<u8, &str>("not asked")), Ok(&mut 1));
    assert_eq!(c.resources, vec![1, 2]);
}

#[test]
fn admits_tells_whether_a_key_can_be_stored() {
    let mut c: ResourceCollection<u8> = ResourceCollection::new();
    assert!(c.admits("a"));
    c.index_of("a");
    assert!(c.admits("a"));
    // "b" would be given the id 1 while nothing is stored under 0
    assert!(!c.admits("b"));
    c.insert("a", 1);
    assert!(c.admits("b"));
    c.index_of("b");
    c.index_of("c");
    assert!(c.admits("b"));
    assert!(!c.admits("c"));
}
