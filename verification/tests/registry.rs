use ex_sctp::registry::StreamRegistry;

#[test]
fn new_registry_is_empty() {
    let r = StreamRegistry::new();
    assert_eq!(r.len(), 0);
    assert_eq!(r.ids(), Vec::<u16>::new());
    assert_eq!(r.position(0), None);
    assert!(!r.contains(0));
}

#[test]
fn register_keeps_registration_order() {
    let mut r = StreamRegistry::new();
    assert!(r.register(7));
    assert!(r.register(1));
    assert!(r.register(65535));
    assert_eq!(r.ids(), vec![7, 1, 65535]);
    assert_eq!(r.len(), 3);
    assert_eq!(r.get(0), 7);
    assert_eq!(r.get(2), 65535);
    assert_eq!(r.position(1), Some(1));
    assert!(r.contains(65535));
    assert!(!r.contains(2));
}

#[test]
fn register_twice_keeps_one_entry() {
    let mut r = StreamRegistry::new();
    assert!(r.register(3));
    assert!(r.register(4));
    assert!(!r.register(3));
    assert_eq!(r.ids(), vec![3, 4]);
}

#[test]
fn unregister_takes_the_id_out_and_keeps_order() {
    let mut r = StreamRegistry::new();
    r.register(10);
    r.register(20);
    r.register(30);
    assert!(r.unregister(20));
    assert_eq!(r.ids(), vec![10, 30]);
    assert!(!r.contains(20));
    assert!(r.unregister(10));
    assert_eq!(r.ids(), vec![30]);
    assert!(r.unregister(30));
    assert_eq!(r.len(), 0);
}

#[test]
fn unregister_of_an_absent_id_changes_nothing() {
    let mut r = StreamRegistry::new();
    r.register(10);
    assert!(!r.unregister(11));
    assert_eq!(r.ids(), vec![10]);
}

#[test]
fn register_after_unregister_goes_to_the_back() {
    let mut r = StreamRegistry::new();
    r.register(1);
    r.register(2);
    assert!(r.unregister(1));
    assert!(r.register(1));
    assert_eq!(r.ids(), vec![2, 1]);
}
