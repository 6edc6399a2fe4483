use asimov_telegram_module::telegram::router::CorrelationRouter;

#[test]
fn ids_start_at_one_and_grow() {
    let mut router: CorrelationRouter<&str> = CorrelationRouter::new();
    assert_eq!(router.allocate(), Some(1));
    assert_eq!(router.allocate(), Some(2));
    assert_eq!(router.allocate(), Some(3));
}

#[test]
fn a_resolution_is_delivered_once() {
    let mut router: CorrelationRouter<&str> = CorrelationRouter::new();
    let id = router.allocate().unwrap();
    assert_eq!(router.register(id, "caller"), None);
    assert!(router.is_pending(id));
    assert_eq!(router.resolve(id), Some("caller"));
    assert!(!router.is_pending(id));
    assert_eq!(router.resolve(id), None);
    assert_eq!(router.resolve(id), None);
}

#[test]
fn a_duplicate_resolution_after_others_delivers_nothing() {
    let mut router: CorrelationRouter<u32> = CorrelationRouter::new();
    for slot in 0..4u32 {
        let id = router.issue(slot).unwrap();
        assert_eq!(id, u64::from(slot) + 1);
    }
    assert_eq!(router.resolve(3), Some(2));
    assert_eq!(router.resolve(1), Some(0));
    assert_eq!(router.resolve(3), None);
    assert_eq!(router.resolve(4), Some(3));
    assert_eq!(router.resolve(1), None);
    assert_eq!(router.outstanding(), 1);
}

#[test]
fn responses_in_any_order_reach_their_callers() {
    let mut router: CorrelationRouter<String> = CorrelationRouter::new();
    let mut ids = Vec::new();
    for n in 0..6 {
        ids.push(router.issue(format!("caller-{n}")).unwrap());
    }
    for &k in &[4usize, 0, 5, 2, 1, 3] {
        assert_eq!(router.resolve(ids[k]), Some(format!("caller-{k}")));
    }
    assert_eq!(router.outstanding(), 0);
}

#[test]
fn an_unknown_id_resolves_to_nothing() {
    let mut router: CorrelationRouter<u8> = CorrelationRouter::new();
    router.register(7, 70);
    assert_eq!(router.resolve(8), None);
    assert_eq!(router.outstanding(), 1);
    assert_eq!(router.resolve(7), Some(70));
}

#[test]
fn registering_twice_displaces_the_first_slot() {
    let mut router: CorrelationRouter<&str> = CorrelationRouter::new();
    assert_eq!(router.register(5, "first"), None);
    assert_eq!(router.register(5, "second"), Some("first"));
    assert_eq!(router.outstanding(), 1);
    assert_eq!(router.resolve(5), Some("second"));
}

#[test]
fn shutdown_hands_back_every_request_once() {
    let mut router: CorrelationRouter<&str> = CorrelationRouter::new();
    router.register(9, "nine");
    router.register(2, "two");
    router.register(5, "five");
    assert_eq!(router.resolve(5), Some("five"));
    let abandoned = router.shutdown();
    assert_eq!(abandoned, vec![(2, "two"), (9, "nine")]);
    assert_eq!(router.outstanding(), 0);
    assert_eq!(router.resolve(2), None);
    assert_eq!(router.resolve(9), None);
    assert_eq!(router.shutdown(), Vec::<(u64, &str)>::new());
}

#[test]
fn issue_registers_under_a_fresh_id() {
    let mut router: CorrelationRouter<&str> = CorrelationRouter::new();
    let a = router.issue("a").unwrap();
    let b = router.issue("b").unwrap();
    assert!(a < b);
    assert!(router.is_pending(a));
    assert!(router.is_pending(b));
    assert_eq!(router.allocate(), Some(b + 1));
}
