use ostinato::error::RegistryError;
use ostinato::interner::Interner;

#[test]
fn ids_are_issued_in_sequence() {
    let mut interner = Interner::new();
    assert_eq!(interner.intern("a"), 0);
    assert_eq!(interner.intern("b"), 1);
    assert_eq!(interner.intern("c"), 2);
}

#[test]
fn a_live_key_keeps_its_id() {
    let mut interner = Interner::new();
    let a = interner.intern("a");
    interner.intern("b");
    assert_eq!(interner.intern("a"), a);
    assert_eq!(interner.lookup("a"), Some(a));
}

#[test]
fn lookup_interns_nothing() {
    let mut interner = Interner::new();
    assert_eq!(interner.lookup("a"), None);
    assert_eq!(interner.intern("b"), 0);
    assert_eq!(interner.lookup("a"), None);
}

#[test]
fn remove_returns_the_freed_id() {
    let mut interner = Interner::new();
    interner.intern("a");
    interner.intern("b");
    assert_eq!(interner.remove("b"), Ok(1));
    assert_eq!(interner.lookup("b"), None);
}

#[test]
fn removing_an_unknown_key_is_an_error() {
    let mut interner = Interner::new();
    assert_eq!(interner.remove("ghost"), Err(RegistryError::UnknownKey));
}

#[test]
fn removing_a_key_twice_is_an_error() {
    let mut interner = Interner::new();
    interner.intern("a");
    assert_eq!(interner.remove("a"), Ok(0));
    assert_eq!(interner.remove("a"), Err(RegistryError::UnknownKey));
    // the id was freed once only: two new keys get two different ids
    let x = interner.intern("x");
    let y = interner.intern("y");
    assert_eq!(x, 0);
    assert_eq!(y, 1);
}

#[test]
fn the_smallest_free_id_is_reused_first() {
    let mut interner = Interner::new();
    for key in ["a", "b", "c", "d"] {
        interner.intern(key);
    }
    assert_eq!(interner.remove("b"), Ok(1));
    assert_eq!(interner.remove("d"), Ok(3));
    assert_eq!(interner.remove("a"), Ok(0));
    assert_eq!(interner.intern("e"), 0);
    assert_eq!(interner.intern("f"), 1);
    assert_eq!(interner.intern("g"), 3);
    assert_eq!(interner.intern("h"), 4);
}

#[test]
fn a_removed_key_that_returns_is_a_new_key() {
    let mut interner = Interner::new();
    interner.intern("a");
    interner.intern("b");
    interner.remove("a").unwrap();
    interner.intern("c");
    // "c" took the id of "a"; "a" is given the next of the sequence
    assert_eq!(interner.lookup("c"), Some(0));
    assert_eq!(interner.intern("a"), 2);
}

#[test]
fn live_keys_never_share_an_id() {
    let mut interner = Interner::new();
    let keys = ["k0", "k1", "k2", "k3", "k4", "k5", "k6", "k7"];
    for key in keys {
        interner.intern(key);
    }
    interner.remove("k2").unwrap();
    interner.remove("k5").unwrap();
    interner.intern("n0");
    interner.intern("n1");
    interner.intern("n2");
    let live = ["k0", "k1", "k3", "k4", "k6", "k7", "n0", "n1", "n2"];
    let mut ids: Vec<usize> = live.iter().map(|k| interner.lookup(k).unwrap()).collect();
    ids.sort();
    assert_eq!(ids, vec![0, 1, 2, 3, 4, 5, 6, 7, 8]);
}

#[test]
fn registry_error_messages() {
    assert_eq!(
        RegistryError::OutOfRange.message(),
        "index is beyond the end of the resource collection"
    );
    assert_eq!(RegistryError::UnknownKey.message(), "key is not interned");
    assert_eq!(RegistryError::WrongType.message(), "stored resource is of another kind");
    assert_eq!(
        RegistryError::NotBindable.message(),
        "stored resource cannot be bound to a shader"
    );
}

#[test]
fn peek_tells_the_id_without_interning() {
    let mut interner = Interner::new();
    assert_eq!(interner.peek("a"), 0);
    assert_eq!(interner.peek("b"), 0);
    interner.intern("a");
    interner.intern("b");
    interner.intern("c");
    assert_eq!(interner.peek("a"), 0);
    assert_eq!(interner.peek("d"), 3);
    interner.remove("b").unwrap();
    interner.remove("a").unwrap();
    assert_eq!(interner.peek("d"), 0);
    assert_eq!(interner.peek("c"), 2);
    assert_eq!(interner.lookup("d"), None);
}
