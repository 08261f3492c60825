use turbosheet::network::listeners::ListenerRegistry;

#[test]
fn listeners_are_kept_per_owner_and_event() {
    let mut r: ListenerRegistry<u32> = ListenerRegistry::new();
    assert!(r.listeners("p1", "request").is_none());
    r.register("p1", "request", 1);
    r.register("p1", "request", 2);
    r.register("p1", "response", 3);
    r.register("p2", "request", 4);
    assert_eq!(r.listeners("p1", "request"), Some(&vec![1, 2]));
    assert_eq!(r.listeners("p1", "response"), Some(&vec![3]));
    r.unregister("p1", "request");
    assert!(r.listeners("p1", "request").is_none());
    assert_eq!(r.listeners("p2", "request"), Some(&vec![4]));
}

#[test]
fn dropping_an_owner_drops_all_its_events() {
    let mut r: ListenerRegistry<u32> = ListenerRegistry::new();
    r.register("p1", "request", 1);
    r.register("p1", "response", 2);
    r.register("p10", "request", 3);
    r.register("p1:x", "request", 4);
    r.unregister_all("p1");
    assert!(r.listeners("p1", "request").is_none());
    assert!(r.listeners("p1", "response").is_none());
    assert_eq!(r.listeners("p10", "request"), Some(&vec![3]));
    assert!(r.listeners("p1:x", "request").is_none());
}
