use kata::Entity;
use kata::HydratedAggregate;
use kata::MyAggregate;
use kata::MyAggregateId;
use kata::MyEvent;
use kata::Post;
use kata::Solver;
use kata::Trinity;
use kata::Version;

#[test]
fn test_post_lifecycle() {
    let new_post = Post::new(1, "Title".to_string(), "Body".to_string());
    let unmoderated_post = new_post.publish();
    let published_post = unmoderated_post.allow();
    let _deleted_post = published_post.delete();
}

#[test]
fn test_deny_unmoderated_post() {
    let new_post = Post::new(2, "Another Title".to_string(), "Another Body".to_string());
    let unmoderated_post = new_post.publish();
    let _deleted_post = unmoderated_post.deny();
}

#[test]
fn test_trinity_rotate() {
    let mut t = Trinity { a: 1, b: 2, c: 3 };
    t.rotate();
    assert_eq!(t, Trinity { a: 2, b: 3, c: 1 });

    t.rotate();
    assert_eq!(t, Trinity { a: 3, b: 1, c: 2 });

    t.rotate();
    assert_eq!(t, Trinity { a: 1, b: 2, c: 3 });
}

#[test]
fn test_solver_resolve() {
    let mut solver = Solver {
        expected: Trinity { a: 1, b: 2, c: 3 },
        unsolved: vec![
            Trinity { a: 1, b: 2, c: 3 },
            Trinity { a: 2, b: 1, c: 3 },
            Trinity { a: 2, b: 3, c: 1 },
            Trinity { a: 3, b: 1, c: 2 },
        ],
    };

    solver.resolve();

    assert_eq!(solver.unsolved, vec![Trinity { a: 2, b: 1, c: 3 }]);
}

#[test]
fn test_solver_resolve_no_unsolved() {
    let mut solver = Solver {
        expected: Trinity { a: 1, b: 2, c: 3 },
        unsolved: vec![Trinity { a: 1, b: 2, c: 3 }, Trinity { a: 1, b: 2, c: 3 }],
    };

    solver.resolve();

    assert!(solver.unsolved.is_empty());
}

#[test]
fn test_solver_resolve_all_unsolved() {
    let mut solver = Solver {
        expected: Trinity { a: 1, b: 2, c: 3 },
        unsolved: vec![Trinity { a: 4, b: 5, c: 6 }, Trinity { a: 7, b: 8, c: 9 }],
    };

    solver.resolve();

    assert_eq!(
        solver.unsolved,
        vec![Trinity { a: 4, b: 5, c: 6 }, Trinity { a: 7, b: 8, c: 9 }]
    );
}

#[test]
fn test_version_increments() {
    let mut agg = HydratedAggregate::<MyAggregate>::default();
    assert_eq!(agg.version(), Version::Initial);

    // Apply single event
    agg.apply(MyEvent::Increment(10));
    match agg.version() {
        Version::Number(n) => assert_eq!(n.0, 1),
        _ => panic!("Expected version to be Number(1) after first event"),
    }

    // Apply multiple events
    agg.apply_events(vec![MyEvent::Increment(5), MyEvent::Decrement(3)]);
    match agg.version() {
        Version::Number(n) => assert_eq!(n.0, 3),
        _ => panic!("Expected version to be Number(3) after three events"),
    }
}

#[test]
fn test_aggregate_state_changes() {
    let mut agg = HydratedAggregate::<MyAggregate>::default();
    assert_eq!(agg.state().count, 0);

    agg.apply(MyEvent::Increment(10));
    assert_eq!(agg.state().count, 10);

    agg.apply_events(vec![MyEvent::Increment(5), MyEvent::Decrement(2)]);
    assert_eq!(agg.state().count, 13);
}

#[test]
fn test_entity_id() {
    let id = MyAggregateId("abc123".to_owned());
    let agg = HydratedAggregate::<MyAggregate>::default();
    let entity = Entity::new(id, agg);
    assert_eq!(entity.identifier_str(), "abc123");
}

#[test]
fn test_entity_versions() {
    let id = MyAggregateId("xyz".to_owned());
    let mut entity = Entity::new(id, HydratedAggregate::<MyAggregate>::default());

    assert_eq!(entity.aggregate().version(), Version::Initial);
    entity.aggregate_mut().apply(MyEvent::Increment(2));

    match entity.aggregate().version() {
        Version::Number(n) => assert_eq!(n.0, 1),
        _ => panic!("Expected version to be Number(1)"),
    }
}

#[test]
fn version_new_counts_events() {
    assert_eq!(Version::new(0), Version::Initial);
    let v = Version::new(4);
    match v {
        Version::Number(n) => assert_eq!(n.0, 4),
        _ => panic!("Expected a numbered version"),
    }
}

#[test]
fn snapshot_version_is_recorded() {
    let mut agg = HydratedAggregate::<MyAggregate>::default();
    assert_eq!(agg.snapshot_version(), None);
    agg.set_snapshot_version(Version::new(2));
    assert_eq!(agg.snapshot_version(), Some(Version::new(2)));
}
