use kata::CommandHandler;
use kata::CreateUser;
use kata::HashMapStorage;
use kata::MockUserRepository;
use kata::User;
use kata::UserRepository;
use kata::UserRepositoryDyn;
use kata::UserRepositoryStatic;

#[test]
fn test_dynamic_dispatch() {
    let storage = Box::new(HashMapStorage::<u64, User>::new());
    let mut repo = UserRepositoryDyn::new(storage);

    let user = User { id: 1, email: "test@example.com".to_string(), activated: true };

    repo.add_user(user.clone());
    assert_eq!(repo.get_user(1), Some(&user));

    repo.remove_user(1);
    assert_eq!(repo.get_user(1), None);
}

#[test]
fn test_static_dispatch() {
    let storage = HashMapStorage::<u64, User>::new();
    let mut repo = UserRepositoryStatic::new(storage);

    let user = User { id: 2, email: "static@example.com".to_string(), activated: true };

    repo.add_user(user.clone());
    assert_eq!(repo.get_user(2), Some(&user));

    repo.remove_user(2);
    assert_eq!(repo.get_user(2), None);
}

#[test]
fn update_replaces_stored_user() {
    let mut repo = UserRepositoryDyn::new(Box::new(HashMapStorage::new()));
    repo.add_user(User { id: 7, email: "a@example.com".to_string(), activated: false });
    repo.update_user(User { id: 7, email: "b@example.com".to_string(), activated: true });
    let stored = repo.get_user(7).unwrap();
    assert_eq!(stored.email, "b@example.com");
    assert!(stored.activated);
}

#[test]
fn test_command_handler_create_user() {
    let mut mock_repo = MockUserRepository::new();

    let cmd = CreateUser { id: 1, email: "test@example.com".to_string() };

    let handler = User { id: 0, email: "placeholder".to_string(), activated: false };

    // Add a user successfully
    let result = handler.handle_command(&cmd, &mut mock_repo);
    assert!(result.is_ok());
    assert!(mock_repo.get_user(1).is_some());

    // Try adding the same user again
    let result = handler.handle_command(&cmd, &mut mock_repo);
    assert!(result.is_err());
    assert_eq!(result.err().unwrap(), "User already exists");
}
