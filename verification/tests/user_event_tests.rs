use kata::event;
use kata::user;
use kata::EventSourced;

#[test]
fn new_user_starts_offline_with_its_name() {
    let u = user::User::new("Alice");
    assert_eq!(u.name.as_ref().unwrap().0, "Alice");
    assert!(u.online_since.is_none());
    assert!(u.deleted_at.is_none());
    assert_eq!(u.created_at.0, u.last_activity_at.0);
}

#[test]
fn events_fold_into_the_user() {
    let mut u = user::User::new("Alice");

    let created = event::UserCreated::new(user::Id(7), user::CreationDateTime(100));
    u.apply(&created);
    assert_eq!(u.id.0, 7);
    assert_eq!(u.created_at.0, 100);
    assert_eq!(u.last_activity_at.0, 100);

    let renamed = event::UserNameUpdated::new(
        user::Id(7),
        Some(user::Name("Alice Updated".to_string())),
        150,
    );
    u.apply(&renamed);
    assert_eq!(u.name.as_ref().unwrap().0, "Alice Updated");

    let online = event::UserBecameOnline::new(user::Id(7), 200);
    u.apply(&online);
    assert_eq!(u.online_since, Some(200));

    let offline = event::UserBecameOffline { user_id: user::Id(7), at: 250 };
    u.apply(&offline);
    assert!(u.online_since.is_none());
    assert_eq!(u.last_activity_at.0, 250);

    let deleted = event::UserDeleted { user_id: user::Id(7), at: user::DeletionDateTime(300) };
    u.apply(&deleted);
    assert_eq!(u.deleted_at.unwrap().0, 300);
    assert_eq!(u.last_activity_at.0, 300);
}

#[test]
fn wrapped_events_dispatch_to_the_same_effects() {
    let mut u = user::User::new("Bob");
    u.apply(&user::Event::Online(event::UserBecameOnline::new(user::Id(1), 10)));
    assert_eq!(u.online_since, Some(10));
    u.apply(&user::Event::Offline(event::UserBecameOffline { user_id: user::Id(1), at: 20 }));
    assert!(u.online_since.is_none());
    assert_eq!(u.last_activity_at.0, 20);
    u.apply(&user::Event::NameUpdated(event::UserNameUpdated::new(user::Id(1), None, 30)));
    assert!(u.name.is_none());
}
